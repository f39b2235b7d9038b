//! Directory listings: the store answers with full keys and common prefixes,
//! and the listing gives each of them relative to the prefix that was asked for.

use crate::encoding::{lemma_boundary_after_prefix, lemma_encode_concat};
use crate::error::{result_view, Error, ErrorView};
use crate::request::{optional, optional_parameter, required, required_parameter, Method};
use crate::response::{
    ok_json_response, to_ok_json_response, Body, BodyView, Response, ResponseView,
};
use crate::routes::{is_path, path_is, Route, RouteMatch, RouteMatchView, RouteView};
use crate::store::{
    outcome_view, ListObjectsOutput, ListObjectsOutputView, StoreFailure, StoreFailureView,
    StoreRequest, StoreRequestView,
};
use vstd::prelude::*;
use vstd::string::*;
use vstd::utf8::*;

verus! {

/// The query of a listing request.
#[derive(Debug, Clone, PartialEq, Eq)]
pub struct ListObjectsQueryParameters {
    pub bucket: String,
    pub prefix: Option<String>,
}

pub struct ListObjectsQueryParametersView {
    pub bucket: Seq<char>,
    pub prefix: Option<Seq<char>>,
}

impl View for ListObjectsQueryParameters {
    type V = ListObjectsQueryParametersView;

    open spec fn view(&self) -> ListObjectsQueryParametersView {
        ListObjectsQueryParametersView { bucket: self.bucket@, prefix: self.prefix.deep_view() }
    }
}

/// What the query of a listing request asks for: the bucket, which stands
/// once in the query and is not empty, and the prefix, which may be left out
/// and stands at most once.
pub open spec fn listing_of(query: Seq<(Seq<char>, Seq<char>)>) -> Option<
    ListObjectsQueryParametersView,
> {
    match (required_parameter(query, "bucket"@), optional_parameter(query, "prefix"@)) {
        (Some(bucket), Some(prefix)) => if bucket.len() > 0 {
            Some(ListObjectsQueryParametersView { bucket, prefix })
        } else {
            None
        },
        _ => None,
    }
}

/// What the route `GET objects` makes of a request.
pub open spec fn route_of(
    method: Method,
    segments: Seq<Seq<char>>,
    query: Seq<(Seq<char>, Seq<char>)>,
) -> RouteMatchView {
    if method == Method::Get && is_path(segments, "objects"@) {
        match listing_of(query) {
            Some(parameters) => RouteMatchView::Matched(RouteView::ListObjects(parameters)),
            None => RouteMatchView::Invalid,
        }
    } else {
        RouteMatchView::NoMatch
    }
}

/// The route `GET objects`, with the bucket in the query, and the prefix where
/// one is wanted.
pub fn route(method: Method, segments: &Vec<String>, query: &Vec<(String, String)>) -> (matched:
    RouteMatch)
    ensures
        matched@ == route_of(method, segments.deep_view(), query.deep_view()),
{
    if matches!(method, Method::Get) && path_is(segments, "objects") {
        match (required(query, "bucket"), optional(query, "prefix")) {
            (Some(bucket), Some(prefix)) => {
                if bucket.as_str().is_empty() {
                    RouteMatch::Invalid
                } else {
                    RouteMatch::Matched(
                        Route::ListObjects(ListObjectsQueryParameters { bucket, prefix }),
                    )
                }
            },
            _ => RouteMatch::Invalid,
        }
    } else {
        RouteMatch::NoMatch
    }
}

/// A listing, as it is sent to the caller.
pub type ListObjectsResponse = Vec<Object>;

/// One line of a listing: a path relative to the listed prefix, and whether it
/// names a directory (a common prefix of the store) or an object.
#[derive(Debug, Clone, PartialEq, Eq)]
pub struct Object {
    pub path: String,
    pub is_dir: bool,
}

pub struct ObjectView {
    pub path: Seq<char>,
    pub is_dir: bool,
}

impl View for Object {
    type V = ObjectView;

    open spec fn view(&self) -> ObjectView {
        ObjectView { path: self.path@, is_dir: self.is_dir }
    }
}

impl DeepView for Object {
    type V = ObjectView;

    open spec fn deep_view(&self) -> ObjectView {
        self@
    }
}

/// The bytes of a key as the store returned it; a key that is absent counts as empty.
pub open spec fn key_bytes(path: Option<Seq<char>>) -> Seq<u8> {
    match path {
        Some(key) => encode_utf8(key),
        None => Seq::empty(),
    }
}

/// The number of bytes that are cut from the start of every key: the length of
/// the prefix in bytes, and nothing when no prefix was asked for.
pub open spec fn prefix_length(prefix: Option<Seq<char>>) -> int {
    match prefix {
        Some(p) => encode_utf8(p).len() as int,
        None => 0,
    }
}

/// Whether the prefix can be cut from the key: the key is at least as long as
/// the prefix, in bytes, and the cut does not fall inside a character.
pub open spec fn strippable(path: Option<Seq<char>>, prefix: Option<Seq<char>>) -> bool {
    is_char_boundary(key_bytes(path), prefix_length(prefix))
}

/// The key without its first `prefix_length(prefix)` bytes.
pub open spec fn relative_path(path: Option<Seq<char>>, prefix: Option<Seq<char>>) -> Seq<char> {
    decode_utf8(key_bytes(path).skip(prefix_length(prefix)))
}

/// The listing entry of one key: none where nothing is left of the key once
/// the prefix is cut, which is the marker of the listed directory itself.
pub open spec fn entry(
    path: Option<Seq<char>>,
    prefix: Option<Seq<char>>,
    is_dir: bool,
) -> Option<ObjectView> {
    let relative = relative_path(path, prefix);
    if relative.len() == 0 {
        None
    } else {
        Some(ObjectView { path: relative, is_dir })
    }
}

/// The entries of a run of keys, in the order of the keys, without those whose
/// relative path is empty.
pub open spec fn entries(
    keys: Seq<Option<Seq<char>>>,
    prefix: Option<Seq<char>>,
    is_dir: bool,
) -> Seq<ObjectView>
    decreases keys.len(),
{
    if keys.len() == 0 {
        Seq::empty()
    } else {
        let before = entries(keys.drop_last(), prefix, is_dir);
        match entry(keys.last(), prefix, is_dir) {
            Some(object) => before.push(object),
            None => before,
        }
    }
}

/// Whether the prefix can be cut from every key of a run.
pub open spec fn all_strippable(keys: Seq<Option<Seq<char>>>, prefix: Option<Seq<char>>) -> bool {
    forall|i: int| 0 <= i < keys.len() ==> strippable(#[trigger] keys[i], prefix)
}

/// The length in bytes of what is cut from every key.
fn prefix_len(prefix: &Option<String>) -> (len: usize)
    ensures
        len == prefix_length(prefix.deep_view()),
{
    match prefix {
        Some(p) => p.as_str().as_bytes().len(),
        None => 0,
    }
}

impl Object {
    /// Tells whether `build` accepts this key under this prefix.
    pub fn can_build(path: &Option<String>, prefix: &Option<String>) -> (accepted: bool)
        ensures
            accepted == strippable(path.deep_view(), prefix.deep_view()),
    {
        let prefix_len = prefix_len(prefix);
        match path {
            Some(key) => key.as_str().is_char_boundary(prefix_len),
            None => {
                proof {
                    is_char_boundary_start_end_of_seq(Seq::<u8>::empty());
                }
                prefix_len == 0
            },
        }
    }

    /// Makes the listing entry of a key that the store returned.
    pub fn build(path: &Option<String>, prefix: &Option<String>, is_dir: bool) -> (object: Option<
        Self,
    >)
        requires
            strippable(path.deep_view(), prefix.deep_view()),
        ensures
            object.deep_view() == entry(path.deep_view(), prefix.deep_view(), is_dir),
    {
        let prefix_len = prefix_len(prefix);
        let key: &str = match path {
            Some(key) => key.as_str(),
            None => {
                proof {
                    reveal_strlit("");
                }
                ""
            },
        };
        assert(key.spec_bytes() =~= key_bytes(path.deep_view()));
        let (_, rest) = key.split_at(prefix_len);
        proof {
            encode_utf8_decode_utf8(rest@);
        }
        if rest.is_empty() {
            return None;
        }
        Some(Object { path: rest.to_owned(), is_dir })
    }
}

/// The keys of a list that may be absent.
pub open spec fn keys_of(list: Option<Seq<Option<Seq<char>>>>) -> Seq<Option<Seq<char>>> {
    match list {
        Some(keys) => keys,
        None => Seq::empty(),
    }
}

/// Whether the prefix can be cut from every key and every common prefix of an
/// answer of the store.
pub open spec fn listable(output: ListObjectsOutputView, prefix: Option<Seq<char>>) -> bool {
    &&& all_strippable(keys_of(output.contents), prefix)
    &&& all_strippable(keys_of(output.common_prefixes), prefix)
}

/// The listing that is made of an answer of the store: the objects in the
/// order of their keys, then the directories in the order of the common
/// prefixes.
pub open spec fn listing(output: ListObjectsOutputView, prefix: Option<Seq<char>>) -> Seq<
    ObjectView,
> {
    entries(keys_of(output.contents), prefix, false) + entries(
        keys_of(output.common_prefixes),
        prefix,
        true,
    )
}

/// The call that lists a bucket under a prefix, one level deep.
pub open spec fn list_request(bucket: Seq<char>, prefix: Option<Seq<char>>) -> StoreRequestView {
    StoreRequestView::ListObjects { bucket, delimiter: Some("/"@), prefix }
}

/// What the caller is told of the outcome of a listing.
pub open spec fn listed(
    prefix: Option<Seq<char>>,
    outcome: Result<ListObjectsOutputView, StoreFailureView>,
) -> Result<ResponseView, ErrorView> {
    match outcome {
        Ok(output) => Ok(ok_json_response(BodyView::Objects(listing(output, prefix)))),
        Err(StoreFailureView::Connection(cause)) => Err(ErrorView::S3ConnectionError(cause)),
        Err(StoreFailureView::Operation(cause)) => Err(ErrorView::ListObjectsError(cause)),
    }
}

fn can_build_all(keys: &Option<Vec<Option<String>>>, prefix: &Option<String>) -> (accepted: bool)
    ensures
        accepted == all_strippable(keys_of(keys.deep_view()), prefix.deep_view()),
{
    match keys {
        None => true,
        Some(list) => {
            let ghost all = keys_of(keys.deep_view());
            assert(all == list.deep_view());
            let mut i: usize = 0;
            while i < list.len()
                invariant
                    i <= list.len(),
                    all == list.deep_view(),
                    all == keys_of(keys.deep_view()),
                    forall|j: int| 0 <= j < i ==> strippable(#[trigger] all[j], prefix.deep_view()),
                decreases list.len() - i,
            {
                if !Object::can_build(&list[i], prefix) {
                    assert(!strippable(all[i as int], prefix.deep_view()));
                    return false;
                }
                i += 1;
            }
            true
        },
    }
}

/// Adds the entries of a run of keys to a listing.
fn append_entries(
    objects: &mut Vec<Object>,
    keys: &Option<Vec<Option<String>>>,
    prefix: &Option<String>,
    is_dir: bool,
)
    requires
        all_strippable(keys_of(keys.deep_view()), prefix.deep_view()),
    ensures
        final(objects).deep_view() == old(objects).deep_view() + entries(
            keys_of(keys.deep_view()),
            prefix.deep_view(),
            is_dir,
        ),
{
    match keys {
        None => {
            assert(objects.deep_view() =~= old(objects).deep_view() + Seq::<ObjectView>::empty());
        },
        Some(keys) => {
            let ghost all = keys.deep_view();
            let ghost before = objects.deep_view();
            let mut i: usize = 0;
            assert(all.take(0) =~= Seq::empty());
            assert(objects.deep_view() =~= before + Seq::<ObjectView>::empty());
            while i < keys.len()
                invariant
                    i <= keys.len(),
                    all == keys.deep_view(),
                    all_strippable(all, prefix.deep_view()),
                    objects.deep_view() == before + entries(
                        all.take(i as int),
                        prefix.deep_view(),
                        is_dir,
                    ),
                decreases keys.len() - i,
            {
                let ghost so_far = objects.deep_view();
                assert(all.take(i + 1).drop_last() =~= all.take(i as int));
                assert(all.take(i + 1).last() == all[i as int]);
                assert(strippable(all[i as int], prefix.deep_view()));
                match Object::build(&keys[i], prefix, is_dir) {
                    Some(object) => {
                        objects.push(object);
                        assert(objects.deep_view() =~= so_far.push(object.deep_view()));
                        assert(objects.deep_view() =~= before + entries(
                            all.take(i + 1),
                            prefix.deep_view(),
                            is_dir,
                        ));
                    },
                    None => {},
                }
                i += 1;
            }
            assert(all.take(keys.len() as int) =~= all);
        },
    }
}

/// Tells whether `handle_list_objects` accepts this answer of the store for a
/// listing under this prefix.
pub fn can_list(output: &ListObjectsOutput, source_prefix: &Option<String>) -> (accepted: bool)
    ensures
        accepted == listable(output@, source_prefix.deep_view()),
{
    can_build_all(&output.contents, source_prefix) && can_build_all(
        &output.common_prefixes,
        source_prefix,
    )
}

/// The call to the store that a listing begins with.
pub fn list_objects_request(bucket: String, source_prefix: Option<String>) -> (request:
    StoreRequest)
    ensures
        request@ == list_request(bucket@, source_prefix.deep_view()),
{
    StoreRequest::ListObjects {
        bucket,
        delimiter: Some("/".to_owned()),
        prefix: source_prefix,
    }
}

/// Makes the answer to a listing request of the outcome of the call to the
/// store: the listing as JSON, or the failure of the call.
pub fn handle_list_objects(
    source_prefix: &Option<String>,
    outcome: Result<ListObjectsOutput, StoreFailure>,
) -> (result: Result<Response, Error>)
    requires
        outcome matches Ok(output) ==> listable(output@, source_prefix.deep_view()),
    ensures
        result_view(result) == listed(source_prefix.deep_view(), outcome_view(outcome)),
{
    match outcome {
        Ok(output) => {
            let mut objects: Vec<Object> = Vec::new();
            assert(objects.deep_view() =~= Seq::<ObjectView>::empty());
            append_entries(&mut objects, &output.contents, source_prefix, false);
            append_entries(&mut objects, &output.common_prefixes, source_prefix, true);
            assert(objects.deep_view() =~= listing(output@, source_prefix.deep_view()));
            Ok(to_ok_json_response(Body::Objects(objects)))
        },
        Err(StoreFailure::Connection(cause)) => Err(Error::S3ConnectionError(cause)),
        Err(StoreFailure::Operation(cause)) => Err(Error::ListObjectsError(cause)),
    }
}

/// A key that starts with the prefix can be cut, and what is left of it is
/// what follows the prefix: its entry is that remainder, and there is no
/// entry for the prefix itself.
pub proof fn lemma_entry_of_prefixed_key(prefix: Seq<char>, rest: Seq<char>, is_dir: bool)
    ensures
        strippable(Some(prefix + rest), Some(prefix)),
        relative_path(Some(prefix + rest), Some(prefix)) == rest,
        entry(Some(prefix + rest), Some(prefix), is_dir) == if rest.len() == 0 {
            None
        } else {
            Some(ObjectView { path: rest, is_dir })
        },
{
    lemma_encode_concat(prefix, rest);
    lemma_boundary_after_prefix(prefix, rest);
    assert((encode_utf8(prefix) + encode_utf8(rest)).skip(encode_utf8(prefix).len() as int)
        =~= encode_utf8(rest));
    encode_utf8_decode_utf8(rest);
}

/// An answer of the store can be listed if each of its keys and of its common
/// prefixes is there and starts with the prefix that was asked for.
pub proof fn lemma_keys_under_the_prefix_are_listable(
    output: ListObjectsOutputView,
    prefix: Seq<char>,
)
    requires
        forall|i: int|
            0 <= i < keys_of(output.contents).len() ==> (#[trigger] keys_of(
                output.contents,
            )[i] matches Some(key) && prefix.is_prefix_of(key)),
        forall|i: int|
            0 <= i < keys_of(output.common_prefixes).len() ==> (#[trigger] keys_of(
                output.common_prefixes,
            )[i] matches Some(key) && prefix.is_prefix_of(key)),
    ensures
        listable(output, Some(prefix)),
{
    assert forall|key: Seq<char>| prefix.is_prefix_of(key) implies strippable(
        Some(key),
        Some(prefix),
    ) by {
        let rest = key.skip(prefix.len() as int);
        assert(key =~= prefix + rest);
        lemma_entry_of_prefixed_key(prefix, rest, false);
    }
    assert forall|i: int| 0 <= i < keys_of(output.contents).len() implies strippable(
        #[trigger] keys_of(output.contents)[i],
        Some(prefix),
    ) by {
        assert(prefix.is_prefix_of(keys_of(output.contents)[i]->0));
    }
    assert forall|i: int| 0 <= i < keys_of(output.common_prefixes).len() implies strippable(
        #[trigger] keys_of(output.common_prefixes)[i],
        Some(prefix),
    ) by {
        assert(prefix.is_prefix_of(keys_of(output.common_prefixes)[i]->0));
    }
}

/// Without a prefix, or with an empty one, every key can be cut and is its own
/// relative path.
pub proof fn lemma_entry_without_prefix(key: Seq<char>, prefix: Option<Seq<char>>, is_dir: bool)
    requires
        prefix matches Some(p) ==> p.len() == 0,
    ensures
        strippable(Some(key), prefix),
        relative_path(Some(key), prefix) == key,
{
    encode_utf8_valid_utf8(key);
    assert(encode_utf8(key).skip(0) =~= encode_utf8(key));
    encode_utf8_decode_utf8(key);
}

/// Every entry of a run of keys names a child: its path is not empty, it is a
/// directory exactly if the run is one of common prefixes, and there are no
/// more entries than keys.
pub proof fn lemma_entries_name_children(
    keys: Seq<Option<Seq<char>>>,
    prefix: Option<Seq<char>>,
    is_dir: bool,
)
    ensures
        entries(keys, prefix, is_dir).len() <= keys.len(),
        forall|i: int|
            0 <= i < entries(keys, prefix, is_dir).len() ==> {
                &&& (#[trigger] entries(keys, prefix, is_dir)[i]).path.len() > 0
                &&& entries(keys, prefix, is_dir)[i].is_dir == is_dir
            },
    decreases keys.len(),
{
    if keys.len() > 0 {
        lemma_entries_name_children(keys.drop_last(), prefix, is_dir);
    }
}

/// In a listing the objects come before the directories, and no entry has an
/// empty path.
pub proof fn lemma_objects_before_directories(
    output: ListObjectsOutputView,
    prefix: Option<Seq<char>>,
)
    ensures
        forall|i: int, j: int|
            0 <= i < j < listing(output, prefix).len() && (#[trigger] listing(
                output,
                prefix,
            )[i]).is_dir ==> (#[trigger] listing(output, prefix)[j]).is_dir,
        forall|i: int|
            0 <= i < listing(output, prefix).len() ==> (#[trigger] listing(
                output,
                prefix,
            )[i]).path.len() > 0,
        listing(output, prefix).len() <= keys_of(output.contents).len() + keys_of(
            output.common_prefixes,
        ).len(),
{
    lemma_entries_name_children(keys_of(output.contents), prefix, false);
    lemma_entries_name_children(keys_of(output.common_prefixes), prefix, true);
}

/// Where the store has nothing under the prefix, the listing is empty and the
/// answer is still a success.
pub proof fn lemma_listing_of_nothing(output: ListObjectsOutputView, prefix: Option<Seq<char>>)
    requires
        keys_of(output.contents).len() == 0,
        keys_of(output.common_prefixes).len() == 0,
    ensures
        listable(output, prefix),
        listed(prefix, Ok(output)) == Ok::<ResponseView, ErrorView>(
            ok_json_response(BodyView::Objects(Seq::empty())),
        ),
{
    assert(listing(output, prefix) =~= Seq::empty());
}

} // verus!
