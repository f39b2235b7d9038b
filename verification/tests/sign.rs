use s3_signer::sign::{sign, Operation};
use s3_signer::S3Configuration;

fn aws() -> S3Configuration {
    S3Configuration::new("AKIDEXAMPLE", "secret", "us-east-1").unwrap()
}

#[test]
fn signed_get_url_holds_bucket_and_key() {
    let url = sign(&aws(), &Operation::Get, "my-bucket", "dir/file.txt");
    assert!(url.starts_with("https://s3.us-east-1.amazonaws.com/my-bucket/dir/file.txt?"));
    assert!(url.contains("X-Amz-Signature="));
    assert!(url.contains("X-Amz-Expires=3600"));
}

#[test]
fn signed_part_url_ends_with_the_upload_id() {
    let operation = Operation::UploadPart {
        upload_id: "abc.DEF_123-x~".to_string(),
        part_number: 7,
    };
    let url = sign(&aws(), &operation, "my-bucket", "dir/file.txt");
    assert!(url.contains("/my-bucket/dir/file.txt?"));
    assert!(url.ends_with("&X-Amz-SignedHeaders=host&partNumber=7&uploadId=abc.DEF_123-x~"));
}

#[test]
fn custom_endpoint_gives_the_scheme_and_the_host() {
    let configuration =
        S3Configuration::new_with_hostname("key", "secret", "label", "http://localhost:9000");
    let url = sign(&configuration, &Operation::Put, "b", "k");
    assert!(url.starts_with("http://localhost:9000/b/k?"));
}

#[test]
fn unknown_region_is_refused() {
    let refused = S3Configuration::new("key", "secret", "nowhere-1");
    assert_eq!(refused.err().map(|unknown| unknown.name), Some("nowhere-1".to_string()));
}

#[test]
fn get_and_put_urls_differ_and_name_the_object() {
    let get = sign(&aws(), &Operation::Get, "bucket", "a/b/c.txt");
    let put = sign(&aws(), &Operation::Put, "bucket", "a/b/c.txt");
    assert_ne!(get, put);
    for url in [get, put] {
        assert!(url.starts_with("https://"));
        assert!(url.contains("/bucket/a/b/c.txt?"));
    }
}

#[test]
fn characters_that_are_not_plain_are_escaped() {
    let url = sign(&aws(), &Operation::Get, "bucket", "a b/é");
    assert!(url.contains("/bucket/a%20b/%C3%A9?"));
    let operation = Operation::UploadPart {
        upload_id: "a/b+c".to_string(),
        part_number: 1,
    };
    let url = sign(&aws(), &operation, "bucket", "key");
    assert!(url.ends_with("&uploadId=a%2Fb%2Bc"));
}

#[test]
fn endpoint_with_a_path_comes_before_the_object() {
    let configuration =
        S3Configuration::new_with_hostname("key", "secret", "label", "https://host.example/s3");
    let url = sign(&configuration, &Operation::Get, "b", "k");
    assert!(url.starts_with("https://host.example/s3/b/k?"));
}

#[test]
fn every_endpoint_gives_an_http_url_with_the_object_and_the_expiry() {
    for endpoint in [
        "",
        "localhost",
        "host:9000",
        "ftp://files.example",
        "http://host/a/b/",
        "https://host.example/with space/é",
        "://",
        "http://",
    ] {
        let configuration = S3Configuration::new_with_hostname("key", "secret", "label", endpoint);
        let operation = Operation::UploadPart {
            upload_id: "id-1".to_string(),
            part_number: 9,
        };
        for operation in [Operation::Get, Operation::Put, operation] {
            let url = sign(&configuration, &operation, "bucket", "dir/key_1.txt");
            assert!(
                url.starts_with("http://") || url.starts_with("https://"),
                "{}",
                url
            );
            assert!(url.contains("/bucket/dir/key_1.txt?"), "{}", url);
            assert!(url.contains("X-Amz-Expires=3600"), "{}", url);
            if let Operation::UploadPart { .. } = operation {
                assert!(url.ends_with("&uploadId=id-1"), "{}", url);
            }
        }
    }
}

#[test]
fn every_region_of_aws_gives_an_https_url() {
    for region in ["us-east-1", "cn-north-1", "eu-south-1", "us-gov-west-1"] {
        let configuration = S3Configuration::new("key", "secret", region).unwrap();
        let url = sign(&configuration, &Operation::Get, "bucket", "key");
        assert!(url.starts_with("https://s3."), "{}", url);
        assert!(url.contains("/bucket/key?"), "{}", url);
    }
}

#[test]
fn part_number_is_written_in_base_ten_before_the_upload() {
    for (part_number, written) in [
        (1, "1"),
        (9, "9"),
        (10, "10"),
        (10000, "10000"),
        (i64::MAX, "9223372036854775807"),
    ] {
        let operation = Operation::UploadPart {
            upload_id: "u".to_string(),
            part_number,
        };
        let url = sign(&aws(), &operation, "bucket", "key");
        assert!(
            url.ends_with(&format!("&partNumber={}&uploadId=u", written)),
            "{}",
            url
        );
    }
}
