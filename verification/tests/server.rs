use s3_signer::error::{handle_rejection, Rejection};
use s3_signer::multipart_upload::{AbortOrCompleteUploadBody, CompletedUploadPart};
use s3_signer::objects::Object;
use s3_signer::request::{Method, Request};
use s3_signer::response::{Body, Response};
use s3_signer::server::{can_conclude, conclude, options, reply, root, serve, Step};
use s3_signer::store::{
    CompletedPart, CreateMultipartUploadOutput, ListObjectsOutput, StoreFailure, StoreOutput,
    StoreRequest,
};
use s3_signer::{Error, S3Configuration};

fn configuration() -> S3Configuration {
    S3Configuration::new("AKIDEXAMPLE", "secret", "us-east-1").unwrap()
}

fn request(method: Method, path: &str, pairs: &[(&str, &str)]) -> Request {
    Request {
        method,
        path: path.to_string(),
        query: pairs
            .iter()
            .map(|(name, value)| (name.to_string(), value.to_string()))
            .collect(),
        body: None,
    }
}

fn begin(request: Request) -> Result<Step, Rejection> {
    serve(&configuration(), "1.2.3", request)
}

fn respond(step: Result<Step, Rejection>) -> Response {
    match step {
        Ok(Step::Respond(response)) => response,
        other => panic!("no answer yet: {:?}", other),
    }
}

fn call(step: Result<Step, Rejection>) -> StoreRequest {
    match step {
        Ok(Step::Call(request)) => request,
        other => panic!("no call: {:?}", other),
    }
}

fn header<'a>(response: &'a Response, name: &str) -> Option<&'a str> {
    response
        .headers
        .iter()
        .find(|(header, _)| header == name)
        .map(|(_, value)| value.as_str())
}

fn allows_any_origin(response: &Response) -> bool {
    header(response, "access-control-allow-origin") == Some("*")
        && header(response, "access-control-allow-headers") == Some("*")
        && header(response, "access-control-allow-methods")
            == Some("GET, POST, PUT, DELETE, PATCH, OPTIONS")
}

const OBJECT: [(&str, &str); 2] = [("bucket", "b"), ("path", "dir/key.txt")];

#[test]
fn get_object_redirects_to_a_signed_url() {
    let response = respond(begin(request(Method::Get, "/api/object", &OBJECT)));
    assert_eq!(response.status, 302);
    assert_eq!(response.body, Body::Empty);
    assert!(allows_any_origin(&response));
    let location = header(&response, "location").unwrap();
    assert!(location.starts_with("https://s3.us-east-1.amazonaws.com/b/dir/key.txt?"));
    assert!(location.contains("X-Amz-Signature="));
}

#[test]
fn create_object_redirects_to_a_signed_url() {
    let response = respond(begin(request(Method::Post, "/api/objects", &OBJECT)));
    assert_eq!(response.status, 302);
    assert!(allows_any_origin(&response));
    let location = header(&response, "location").unwrap();
    assert!(location.starts_with("https://s3.us-east-1.amazonaws.com/b/dir/key.txt?"));
}

#[test]
fn get_and_put_urls_of_one_object_differ() {
    let get = respond(begin(request(Method::Get, "/api/object", &OBJECT)));
    let put = respond(begin(request(Method::Post, "/api/objects", &OBJECT)));
    assert_ne!(header(&get, "location"), header(&put, "location"));
}

#[test]
fn listing_is_served_in_two_steps() {
    let asked = request(
        Method::Get,
        "/api/objects",
        &[("bucket", "b"), ("prefix", "a/")],
    );
    let pending = call(begin(asked));
    assert_eq!(
        pending,
        StoreRequest::ListObjects {
            bucket: "b".to_string(),
            delimiter: Some("/".to_string()),
            prefix: Some("a/".to_string()),
        }
    );
    let outcome = Ok(StoreOutput::ListObjects(ListObjectsOutput {
        contents: Some(vec![Some("a/b.txt".to_string())]),
        common_prefixes: Some(vec![Some("a/c/".to_string())]),
    }));
    assert!(can_conclude(&pending, &outcome));
    let response = reply(conclude(&pending, outcome));
    assert_eq!(response.status, 200);
    assert!(allows_any_origin(&response));
    assert_eq!(header(&response, "content-type"), Some("application/json"));
    assert_eq!(
        response.body,
        Body::Objects(vec![
            Object {
                path: "b.txt".to_string(),
                is_dir: false
            },
            Object {
                path: "c/".to_string(),
                is_dir: true
            },
        ])
    );
}

#[test]
fn listing_failure_is_an_internal_error() {
    let pending = call(begin(request(Method::Get, "/api/objects", &[("bucket", "b")])));
    let outcome = Err(StoreFailure::Operation("AccessDenied".to_string()));
    assert!(can_conclude(&pending, &outcome));
    let failed = conclude(&pending, outcome);
    assert_eq!(
        failed,
        Err(Error::ListObjectsError("AccessDenied".to_string()))
    );
    let response = reply(failed);
    assert_eq!(response.status, 500);
    assert_eq!(response.body, Body::Empty);
    assert!(allows_any_origin(&response));
}

#[test]
fn upload_is_created_in_two_steps() {
    let pending = call(begin(request(Method::Post, "/api/multipart-upload", &OBJECT)));
    assert_eq!(
        pending,
        StoreRequest::CreateMultipartUpload {
            bucket: "b".to_string(),
            key: "dir/key.txt".to_string(),
        }
    );
    let outcome = Ok(StoreOutput::CreateMultipartUpload(
        CreateMultipartUploadOutput {
            upload_id: Some("upload-1".to_string()),
        },
    ));
    assert!(can_conclude(&pending, &outcome));
    let response = reply(conclude(&pending, outcome));
    assert_eq!(response.status, 200);
    match response.body {
        Body::CreateUpload(created) => assert_eq!(created.upload_id, "upload-1"),
        other => panic!("{:?}", other),
    }
}

#[test]
fn upload_without_an_identifier_is_an_internal_error() {
    let pending = call(begin(request(Method::Post, "/api/multipart-upload", &OBJECT)));
    let outcome = Ok(StoreOutput::CreateMultipartUpload(
        CreateMultipartUploadOutput { upload_id: None },
    ));
    let response = reply(conclude(&pending, outcome));
    assert_eq!(response.status, 500);
}

#[test]
fn part_url_is_answered_at_once() {
    let response = respond(begin(request(
        Method::Get,
        "/api/multipart-upload/upload-1/part/5",
        &OBJECT,
    )));
    assert_eq!(response.status, 200);
    assert!(allows_any_origin(&response));
    assert_eq!(header(&response, "content-type"), Some("application/json"));
    match response.body {
        Body::PartUpload(part) => {
            assert!(part.presigned_url.contains("/b/dir/key.txt?"));
            assert!(part.presigned_url.contains("&partNumber=5&"));
            assert!(part.presigned_url.ends_with("&uploadId=upload-1"));
        }
        other => panic!("{:?}", other),
    }
}

#[test]
fn completion_is_served_in_two_steps() {
    let mut asked = request(Method::Post, "/api/multipart-upload/upload-1", &OBJECT);
    asked.body = Some(AbortOrCompleteUploadBody::Complete {
        parts: vec![
            CompletedUploadPart {
                number: 1,
                etag: "a".to_string(),
            },
            CompletedUploadPart {
                number: 2,
                etag: "b".to_string(),
            },
        ],
    });
    let pending = call(begin(asked));
    assert_eq!(
        pending,
        StoreRequest::CompleteMultipartUpload {
            bucket: "b".to_string(),
            key: "dir/key.txt".to_string(),
            upload_id: "upload-1".to_string(),
            parts: vec![
                CompletedPart {
                    e_tag: Some("a".to_string()),
                    part_number: Some(1)
                },
                CompletedPart {
                    e_tag: Some("b".to_string()),
                    part_number: Some(2)
                },
            ],
        }
    );
    let response = reply(conclude(&pending, Ok(StoreOutput::CompleteMultipartUpload)));
    assert_eq!(response.status, 200);
    assert_eq!(response.body, Body::Empty);
    assert!(allows_any_origin(&response));
}

#[test]
fn completion_without_parts_reaches_the_store() {
    let mut asked = request(Method::Post, "/api/multipart-upload/upload-1", &OBJECT);
    asked.body = Some(AbortOrCompleteUploadBody::Complete { parts: vec![] });
    let pending = call(begin(asked));
    assert_eq!(
        pending,
        StoreRequest::CompleteMultipartUpload {
            bucket: "b".to_string(),
            key: "dir/key.txt".to_string(),
            upload_id: "upload-1".to_string(),
            parts: vec![],
        }
    );
    let failed = conclude(
        &pending,
        Err(StoreFailure::Operation("MalformedXML".to_string())),
    );
    assert_eq!(
        failed,
        Err(Error::MultipartUploadCompletionError(
            "MalformedXML".to_string()
        ))
    );
    assert_eq!(reply(failed).status, 500);
}

#[test]
fn abortion_is_served_in_two_steps() {
    let mut asked = request(Method::Post, "/api/multipart-upload/upload-1", &OBJECT);
    asked.body = Some(AbortOrCompleteUploadBody::Abort);
    let pending = call(begin(asked));
    assert_eq!(
        pending,
        StoreRequest::AbortMultipartUpload {
            bucket: "b".to_string(),
            key: "dir/key.txt".to_string(),
            upload_id: "upload-1".to_string(),
        }
    );
    let response = reply(conclude(&pending, Ok(StoreOutput::AbortMultipartUpload)));
    assert_eq!(response.status, 200);
    assert_eq!(response.body, Body::Empty);
}

#[test]
fn abortion_of_an_unknown_upload_is_not_a_success() {
    let mut asked = request(Method::Post, "/api/multipart-upload/unknown", &OBJECT);
    asked.body = Some(AbortOrCompleteUploadBody::Abort);
    let pending = call(begin(asked));
    let failed = conclude(
        &pending,
        Err(StoreFailure::Operation("NoSuchUpload".to_string())),
    );
    assert_eq!(
        failed,
        Err(Error::MultipartUploadAbortionError(
            "NoSuchUpload".to_string()
        ))
    );
    let response = reply(failed);
    assert_eq!(response.status, 500);
    assert_ne!(response.status, 200);
}

#[test]
fn missing_bucket_is_refused_before_any_call() {
    let without: [(&str, &str); 1] = [("path", "key")];
    let routes = [
        (Method::Get, "/api/object"),
        (Method::Post, "/api/objects"),
        (Method::Get, "/api/objects"),
        (Method::Post, "/api/multipart-upload"),
        (Method::Get, "/api/multipart-upload/upload-1/part/1"),
        (Method::Post, "/api/multipart-upload/upload-1"),
    ];
    for (method, path) in routes {
        let mut asked = request(method, path, &without);
        asked.body = Some(AbortOrCompleteUploadBody::Abort);
        let refused = begin(asked);
        assert_eq!(refused, Err(Rejection::InvalidRequest));
        let response = handle_rejection(&refused.unwrap_err());
        assert_eq!(response.status, 422);
        assert!(allows_any_origin(&response));
    }
}

#[test]
fn unknown_route_is_not_found() {
    let refused = begin(request(Method::Get, "/api/unknown", &OBJECT));
    assert_eq!(refused, Err(Rejection::NotFound));
    assert_eq!(handle_rejection(&Rejection::NotFound).status, 404);
}

#[test]
fn options_answers_ok_with_the_cross_origin_headers() {
    let response = respond(begin(request(Method::Options, "/api/objects", &[])));
    assert_eq!(response.status, 200);
    assert_eq!(response.body, Body::Empty);
    assert!(allows_any_origin(&response));
    assert_eq!(response, options());
}

#[test]
fn root_answers_the_banner() {
    let response = respond(begin(request(Method::Get, "/", &[])));
    assert_eq!(response.status, 200);
    assert!(allows_any_origin(&response));
    assert_eq!(
        header(&response, "content-type"),
        Some("text/plain; charset=utf-8")
    );
    assert_eq!(
        response.body,
        Body::Text("S3 Signer (version 1.2.3)\nAPI documentation on: /swagger-ui/".to_string())
    );
    assert_eq!(response, root("1.2.3"));
}

#[test]
fn outcome_of_another_call_is_not_accepted() {
    let pending = StoreRequest::AbortMultipartUpload {
        bucket: "b".to_string(),
        key: "k".to_string(),
        upload_id: "u".to_string(),
    };
    assert!(can_conclude(&pending, &Ok(StoreOutput::AbortMultipartUpload)));
    assert!(!can_conclude(&pending, &Ok(StoreOutput::CompleteMultipartUpload)));
    assert!(can_conclude(
        &pending,
        &Err(StoreFailure::Connection("tls".to_string()))
    ));
    let listing = StoreRequest::ListObjects {
        bucket: "b".to_string(),
        delimiter: Some("/".to_string()),
        prefix: Some("a/".to_string()),
    };
    let short = Ok(StoreOutput::ListObjects(ListObjectsOutput {
        contents: Some(vec![Some("a".to_string())]),
        common_prefixes: None,
    }));
    assert!(!can_conclude(&listing, &short));
    assert!(!can_conclude(&listing, &Ok(StoreOutput::AbortMultipartUpload)));
}

#[test]
fn reply_keeps_the_answer_of_a_handler() {
    let answer = options();
    assert_eq!(reply(Ok(answer.clone())), answer);
    assert_eq!(reply(Err(Error::JsonError("x".to_string()))).status, 500);
}
