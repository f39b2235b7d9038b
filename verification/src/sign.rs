//! Signed URLs: a URL that lets its bearer do one operation on one object,
//! for a limited time, without the credentials of the store. The signature is
//! the work of the store's own signer; what stands here is which request it is
//! handed, and what can be said of every URL that comes back.

use crate::number::{all_digits, decimal_digits, is_digit, lemma_decimal_digits};
use crate::s3_configuration::S3Configuration;
use rusoto_credential::AwsCredentials;
use rusoto_s3::util::{PreSignedRequest, PreSignedRequestOption};
use rusoto_s3::{GetObjectRequest, PutObjectRequest, UploadPartRequest};
use rusoto_signature::Region;
use vstd::prelude::*;
use vstd::string::*;

verus! {

/// The operation that a signed URL lets its bearer do.
#[derive(Debug, Clone, PartialEq, Eq)]
pub enum Operation {
    /// Read the object.
    Get,
    /// Write the object.
    Put,
    /// Write one part of a multipart upload of the object.
    UploadPart { upload_id: String, part_number: i64 },
}

pub enum OperationView {
    Get,
    Put,
    UploadPart { upload_id: Seq<char>, part_number: i64 },
}

impl View for Operation {
    type V = OperationView;

    open spec fn view(&self) -> OperationView {
        match self {
            Operation::Get => OperationView::Get,
            Operation::Put => OperationView::Put,
            Operation::UploadPart { upload_id, part_number } => OperationView::UploadPart {
                upload_id: upload_id@,
                part_number: *part_number,
            },
        }
    }
}

/// Whether something can be signed: the bucket and the key are not empty, and
/// a part has the identifier of its upload and a number from 1 on.
pub open spec fn signable(operation: OperationView, bucket: Seq<char>, key: Seq<char>) -> bool {
    &&& bucket.len() > 0
    &&& key.len() > 0
    &&& operation matches OperationView::UploadPart { upload_id, part_number } ==> upload_id.len()
        > 0 && part_number >= 1
}

/// The characters that stand for themselves in every part of a URL.
pub open spec fn unreserved(c: char) -> bool {
    ||| 'a' <= c <= 'z'
    ||| 'A' <= c <= 'Z'
    ||| '0' <= c <= '9'
    ||| c == '-'
    ||| c == '.'
    ||| c == '_'
    ||| c == '~'
}

/// A text that is written into the query of a URL as it is.
pub open spec fn plain_value(text: Seq<char>) -> bool {
    forall|i: int| 0 <= i < text.len() ==> unreserved(#[trigger] text[i])
}

/// A text that is written into the path of a URL as it is.
pub open spec fn plain_path(text: Seq<char>) -> bool {
    forall|i: int| 0 <= i < text.len() ==> unreserved(#[trigger] text[i]) || text[i] == '/'
}

/// Whether `part` stands somewhere in `text`.
pub open spec fn occurs_in(part: Seq<char>, text: Seq<char>) -> bool {
    exists|at: int| 0 <= at && at + part.len() <= text.len() && #[trigger] text.subrange(
        at,
        at + part.len(),
    ) == part
}

/// Whether `text` ends with `end`.
pub open spec fn ends_with(text: Seq<char>, end: Seq<char>) -> bool {
    end.len() <= text.len() && text.subrange(text.len() - end.len(), text.len() as int) == end
}

/// The path of an object in a URL of the store, up to the query.
pub open spec fn object_path(bucket: Seq<char>, key: Seq<char>) -> Seq<char> {
    seq!['/'] + bucket + seq!['/'] + key + seq!['?']
}

/// What holds of every URL that the signer gives for an object: it is an
/// `http` or `https` URL; it says that it is good for an hour; and where the
/// bucket and the key are plain, they stand in it as its path.
pub open spec fn signed_for_object(url: Seq<char>, bucket: Seq<char>, key: Seq<char>) -> bool {
    &&& "http://"@.is_prefix_of(url) || "https://"@.is_prefix_of(url)
    &&& occurs_in("X-Amz-Expires=3600"@, url)
    &&& plain_path(bucket) && plain_path(key) ==> occurs_in(object_path(bucket, key), url)
}

/// What holds of every URL that the signer gives for a part of an upload: what
/// holds for the object; where the identifier of the upload is plain, the URL
/// ends with it; and where the part has a number from 1 on as well, the number
/// stands before it.
pub open spec fn signed_for_part(
    url: Seq<char>,
    bucket: Seq<char>,
    key: Seq<char>,
    upload_id: Seq<char>,
    part_number: i64,
) -> bool {
    &&& signed_for_object(url, bucket, key)
    &&& plain_value(upload_id) ==> ends_with(url, "&uploadId="@ + upload_id)
    &&& plain_value(upload_id) && part_number >= 1 ==> ends_with(
        url,
        "&partNumber="@ + decimal_digits(part_number as int) + "&uploadId="@ + upload_id,
    )
}

/// What holds of every URL that `sign` gives.
pub open spec fn signed_url(
    url: Seq<char>,
    operation: OperationView,
    bucket: Seq<char>,
    key: Seq<char>,
) -> bool {
    match operation {
        OperationView::Get => signed_for_object(url, bucket, key),
        OperationView::Put => signed_for_object(url, bucket, key),
        OperationView::UploadPart { upload_id, part_number } => signed_for_part(
            url,
            bucket,
            key,
            upload_id,
            part_number,
        ),
    }
}

/// Every URL that is signed to read or to write an object whose bucket and key
/// are plain is an `http` or `https` URL with the bucket and the key as its
/// path.
pub proof fn lemma_signed_url_names_the_object(
    url: Seq<char>,
    operation: OperationView,
    bucket: Seq<char>,
    key: Seq<char>,
)
    requires
        signed_url(url, operation, bucket, key),
        plain_path(bucket),
        plain_path(key),
    ensures
        "http://"@.is_prefix_of(url) || "https://"@.is_prefix_of(url),
        occurs_in(seq!['/'] + bucket + seq!['/'] + key + seq!['?'], url),
        occurs_in(bucket, url),
        occurs_in(key, url),
{
    let path = object_path(bucket, key);
    let at = choose|at: int|
        0 <= at && at + path.len() <= url.len() && #[trigger] url.subrange(at, at + path.len())
            == path;
    let of_bucket = at + 1;
    let of_key = at + 1 + bucket.len() + 1;
    assert(url.subrange(of_bucket, of_bucket + bucket.len()) =~= bucket) by {
        assert forall|i: int| 0 <= i < bucket.len() implies url[of_bucket + i] == bucket[i] by {
            assert(url.subrange(at, at + path.len())[1 + i] == path[1 + i]);
        }
    }
    assert(url.subrange(of_key, of_key + key.len()) =~= key) by {
        assert forall|i: int| 0 <= i < key.len() implies url[of_key + i] == key[i] by {
            assert(url.subrange(at, at + path.len())[2 + bucket.len() + i] == path[2
                + bucket.len() + i]);
        }
    }
}

/// The URLs that are signed for two parts of one upload differ, where the
/// identifier of the upload is plain: each names its part.
pub proof fn lemma_part_urls_differ(
    first_url: Seq<char>,
    second_url: Seq<char>,
    bucket: Seq<char>,
    key: Seq<char>,
    upload_id: Seq<char>,
    first_part: i64,
    second_part: i64,
)
    requires
        signed_for_part(first_url, bucket, key, upload_id, first_part),
        signed_for_part(second_url, bucket, key, upload_id, second_part),
        plain_value(upload_id),
        first_part >= 1,
        second_part >= 1,
        first_part != second_part,
    ensures
        first_url != second_url,
{
    if first_url == second_url {
        let first = decimal_digits(first_part as int);
        let second = decimal_digits(second_part as int);
        lemma_decimal_digits(first_part as int);
        lemma_decimal_digits(second_part as int);
        if first.len() <= second.len() {
            lemma_same_end(first_url, upload_id, first, second);
        } else {
            lemma_same_end(first_url, upload_id, second, first);
        }
    }
}

/// A URL cannot end with two numbers of parts before the same identifier.
proof fn lemma_same_end(url: Seq<char>, upload_id: Seq<char>, shorter: Seq<char>, longer: Seq<char>)
    requires
        ends_with(url, "&partNumber="@ + shorter + "&uploadId="@ + upload_id),
        ends_with(url, "&partNumber="@ + longer + "&uploadId="@ + upload_id),
        all_digits(shorter),
        all_digits(longer),
        shorter.len() <= longer.len(),
    ensures
        shorter == longer,
{
    reveal_strlit("&partNumber=");
    let name = "&partNumber="@;
    let tail = "&uploadId="@ + upload_id;
    let with_shorter = name + shorter + "&uploadId="@ + upload_id;
    let with_longer = name + longer + "&uploadId="@ + upload_id;
    assert(with_shorter =~= name + shorter + tail);
    assert(with_longer =~= name + longer + tail);
    let end = url.len() as int;
    let of_shorter = url.subrange(end - with_shorter.len(), end);
    let of_longer = url.subrange(end - with_longer.len(), end);
    if shorter.len() < longer.len() {
        let gap = longer.len() - shorter.len() - 1;
        assert(of_shorter[name.len() - 1] == name[name.len() - 1]);
        assert(of_longer[name.len() + gap] == longer[gap]);
        assert(is_digit(longer[gap]));
        assert(name[name.len() - 1] == '=');
    } else {
        assert forall|i: int| 0 <= i < shorter.len() implies shorter[i] == longer[i] by {
            assert(of_shorter[name.len() + i] == shorter[i]);
            assert(of_longer[name.len() + i] == longer[i]);
        }
        assert(shorter =~= longer);
    }
}

/// `get_presigned_url` of a `GetObjectRequest` for this bucket and this key,
/// all else left at its default, with the default expiry. The URL depends on
/// the time of the call. Claimed of it: its scheme is `http` or `https`; its
/// query holds the default expiry, 3600 seconds; its path ends with
/// `/bucket/key` where neither holds a character that the signer would
/// escape, and the query follows.
#[verifier::external_body]
fn presigned_get_url(region: &Region, credentials: &AwsCredentials, bucket: &str, key: &str) -> (url:
    String)
    ensures
        signed_for_object(url@, bucket@, key@),
{
    let request =
        GetObjectRequest { bucket: bucket.to_string(), key: key.to_string(), ..Default::default() };
    request.get_presigned_url(region, credentials, &PreSignedRequestOption::default())
}

/// `get_presigned_url` of a `PutObjectRequest` for this bucket and this key,
/// all else left at its default, with the default expiry. The URL depends on
/// the time of the call. Claimed of it: what is claimed of the URL to get an
/// object.
#[verifier::external_body]
fn presigned_put_url(region: &Region, credentials: &AwsCredentials, bucket: &str, key: &str) -> (url:
    String)
    ensures
        signed_for_object(url@, bucket@, key@),
{
    let request =
        PutObjectRequest { bucket: bucket.to_string(), key: key.to_string(), ..Default::default() };
    request.get_presigned_url(region, credentials, &PreSignedRequestOption::default())
}

/// `get_presigned_url` of an `UploadPartRequest` for this bucket, key, upload
/// and part, all else left at its default, with the default expiry. The URL
/// depends on the time of the call. Claimed of it: what is claimed of the URL
/// to get an object; the parameter `uploadId` comes last in the query, with
/// the identifier as it is where no character of it would be escaped; and the
/// parameter `partNumber` comes right before it, with the number in base ten
/// where it is 1 or more.
#[verifier::external_body]
fn presigned_upload_part_url(
    region: &Region,
    credentials: &AwsCredentials,
    bucket: &str,
    key: &str,
    upload_id: &str,
    part_number: i64,
) -> (url: String)
    ensures
        signed_for_part(url@, bucket@, key@, upload_id@, part_number),
{
    let request = UploadPartRequest {
        bucket: bucket.to_string(),
        key: key.to_string(),
        upload_id: upload_id.to_string(),
        part_number,
        ..Default::default()
    };
    request.get_presigned_url(region, credentials, &PreSignedRequestOption::default())
}

/// Signs `operation` on the object `key` of `bucket`, for the store and with
/// the credentials of the configuration. The URL is good for an hour from the
/// call.
pub fn sign(s3_configuration: &S3Configuration, operation: &Operation, bucket: &str, key: &str) -> (url:
    String)
    requires
        signable(operation@, bucket@, key@),
    ensures
        signed_url(url@, operation@, bucket@, key@),
{
    let region = s3_configuration.signing_region();
    let credentials = s3_configuration.credentials();
    match operation {
        Operation::Get => presigned_get_url(&region, &credentials, bucket, key),
        Operation::Put => presigned_put_url(&region, &credentials, bucket, key),
        Operation::UploadPart { upload_id, part_number } => presigned_upload_part_url(
            &region,
            &credentials,
            bucket,
            key,
            upload_id.as_str(),
            *part_number,
        ),
    }
}

} // verus!
