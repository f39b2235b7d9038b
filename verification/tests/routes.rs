use s3_signer::error::Rejection;
use s3_signer::multipart_upload::{
    AbortOrCompleteUploadBody, AbortOrCompleteUploadQueryParameters, CompletedUploadPart,
    CreateUploadQueryParameters, PartUploadQueryParameters,
};
use s3_signer::objects::{ListObjectsQueryParameters, SignQueryParameters};
use s3_signer::request::{optional, required, segments, Method, Request};
use s3_signer::routes::{dispatch, object_parameters, routes, Route, RouteMatch};

fn query(pairs: &[(&str, &str)]) -> Vec<(String, String)> {
    pairs
        .iter()
        .map(|(name, value)| (name.to_string(), value.to_string()))
        .collect()
}

fn request(method: Method, path: &str, pairs: &[(&str, &str)]) -> Request {
    Request {
        method,
        path: path.to_string(),
        query: query(pairs),
        body: None,
    }
}

fn with_body(mut request: Request, body: AbortOrCompleteUploadBody) -> Request {
    request.body = Some(body);
    request
}

const OBJECT: [(&str, &str); 2] = [("bucket", "b"), ("path", "dir/key.txt")];

#[test]
fn get_object_is_routed() {
    let selected = dispatch(request(Method::Get, "/api/object", &OBJECT));
    assert_eq!(
        selected,
        Ok(Route::GetObject(SignQueryParameters {
            bucket: "b".to_string(),
            path: "dir/key.txt".to_string(),
        }))
    );
}

#[test]
fn create_object_is_routed() {
    let selected = dispatch(request(Method::Post, "/api/objects", &OBJECT));
    assert_eq!(
        selected,
        Ok(Route::CreateObject(SignQueryParameters {
            bucket: "b".to_string(),
            path: "dir/key.txt".to_string(),
        }))
    );
}

#[test]
fn list_objects_is_routed_with_and_without_a_prefix() {
    let selected = dispatch(request(
        Method::Get,
        "/api/objects",
        &[("bucket", "b"), ("prefix", "a/")],
    ));
    assert_eq!(
        selected,
        Ok(Route::ListObjects(ListObjectsQueryParameters {
            bucket: "b".to_string(),
            prefix: Some("a/".to_string()),
        }))
    );
    let selected = dispatch(request(Method::Get, "/api/objects", &[("bucket", "b")]));
    assert_eq!(
        selected,
        Ok(Route::ListObjects(ListObjectsQueryParameters {
            bucket: "b".to_string(),
            prefix: None,
        }))
    );
    let selected = dispatch(request(
        Method::Get,
        "/api/objects",
        &[("prefix", ""), ("bucket", "b")],
    ));
    assert_eq!(
        selected,
        Ok(Route::ListObjects(ListObjectsQueryParameters {
            bucket: "b".to_string(),
            prefix: Some("".to_string()),
        }))
    );
}

#[test]
fn create_upload_is_routed() {
    let selected = dispatch(request(Method::Post, "/api/multipart-upload", &OBJECT));
    assert_eq!(
        selected,
        Ok(Route::CreateUpload(CreateUploadQueryParameters {
            bucket: "b".to_string(),
            path: "dir/key.txt".to_string(),
        }))
    );
}

#[test]
fn part_upload_is_routed() {
    let selected = dispatch(request(
        Method::Get,
        "/api/multipart-upload/upload-1/part/12",
        &OBJECT,
    ));
    assert_eq!(
        selected,
        Ok(Route::PartUpload {
            upload_id: "upload-1".to_string(),
            part_number: 12,
            parameters: PartUploadQueryParameters {
                bucket: "b".to_string(),
                path: "dir/key.txt".to_string(),
            },
        })
    );
}

#[test]
fn abort_and_complete_are_routed_by_the_body() {
    let abort = with_body(
        request(Method::Post, "/api/multipart-upload/upload-1", &OBJECT),
        AbortOrCompleteUploadBody::Abort,
    );
    assert_eq!(
        dispatch(abort),
        Ok(Route::AbortOrCompleteUpload {
            upload_id: "upload-1".to_string(),
            parameters: AbortOrCompleteUploadQueryParameters {
                bucket: "b".to_string(),
                path: "dir/key.txt".to_string(),
            },
            body: AbortOrCompleteUploadBody::Abort,
        })
    );
    let parts = vec![CompletedUploadPart {
        number: 1,
        etag: "e".to_string(),
    }];
    let complete = with_body(
        request(Method::Post, "/api/multipart-upload/upload-1", &OBJECT),
        AbortOrCompleteUploadBody::Complete {
            parts: parts.clone(),
        },
    );
    assert_eq!(
        dispatch(complete),
        Ok(Route::AbortOrCompleteUpload {
            upload_id: "upload-1".to_string(),
            parameters: AbortOrCompleteUploadQueryParameters {
                bucket: "b".to_string(),
                path: "dir/key.txt".to_string(),
            },
            body: AbortOrCompleteUploadBody::Complete { parts },
        })
    );
}

#[test]
fn options_is_answered_on_every_path() {
    for path in ["/", "", "/api/objects", "/nowhere/at/all", "/api/multipart-upload/x"] {
        assert_eq!(dispatch(request(Method::Options, path, &[])), Ok(Route::Options));
    }
}

#[test]
fn root_is_the_banner() {
    assert_eq!(dispatch(request(Method::Get, "/", &[])), Ok(Route::Root));
    assert_eq!(dispatch(request(Method::Get, "", &[])), Ok(Route::Root));
    assert_eq!(
        dispatch(request(Method::Post, "/", &[])),
        Err(Rejection::NotFound)
    );
}

#[test]
fn unknown_routes_are_not_found() {
    let unknown = [
        (Method::Get, "/object"),
        (Method::Get, "/api"),
        (Method::Get, "/api/"),
        (Method::Get, "/api/nothing"),
        (Method::Get, "/api/object/more"),
        (Method::Get, "/api//object"),
        (Method::Get, "/api/objects//"),
        (Method::Get, "//api/objects"),
        (Method::Get, "/API/objects"),
        (Method::Put, "/api/objects"),
        (Method::Delete, "/api/object"),
        (Method::Post, "/api/object"),
        (Method::Head, "/api/objects"),
        (Method::Patch, "/api/multipart-upload"),
        (Method::Other, "/api/multipart-upload"),
        (Method::Get, "/api/multipart-upload"),
        (Method::Get, "/api/multipart-upload/upload-1"),
        (Method::Put, "/api/multipart-upload/upload-1/part/1"),
        (Method::Post, "/api/multipart-upload/upload-1/part/1"),
        (Method::Get, "/api/multipart-upload/upload-1/parts/1"),
        (Method::Get, "/api/multipart-upload/upload-1/part/1/more"),
        (Method::Get, "/api/multipart-upload/upload-1/part"),
        (Method::Delete, "/api/multipart-upload/upload-1"),
    ];
    for (method, path) in unknown {
        assert_eq!(
            dispatch(request(method, path, &OBJECT)),
            Err(Rejection::NotFound),
            "{:?} {}",
            method,
            path
        );
    }
}

#[test]
fn trailing_slash_is_tolerated() {
    assert!(matches!(
        dispatch(request(Method::Get, "/api/objects/", &[("bucket", "b")])),
        Ok(Route::ListObjects(_))
    ));
    assert!(matches!(
        dispatch(request(Method::Post, "/api/multipart-upload/", &OBJECT)),
        Ok(Route::CreateUpload(_))
    ));
}

#[test]
fn missing_bucket_is_unprocessable_on_every_route() {
    let without: [(&str, &str); 1] = [("path", "key")];
    let routes = [
        (Method::Get, "/api/object"),
        (Method::Post, "/api/objects"),
        (Method::Get, "/api/objects"),
        (Method::Post, "/api/multipart-upload"),
        (Method::Get, "/api/multipart-upload/upload-1/part/1"),
        (Method::Post, "/api/multipart-upload/upload-1"),
    ];
    for (method, path) in routes {
        let asked = with_body(request(method, path, &without), AbortOrCompleteUploadBody::Abort);
        assert_eq!(
            dispatch(asked),
            Err(Rejection::InvalidRequest),
            "{:?} {}",
            method,
            path
        );
    }
}

#[test]
fn missing_path_is_unprocessable_where_an_object_is_named() {
    let without: [(&str, &str); 1] = [("bucket", "b")];
    let routes = [
        (Method::Get, "/api/object"),
        (Method::Post, "/api/objects"),
        (Method::Post, "/api/multipart-upload"),
        (Method::Get, "/api/multipart-upload/upload-1/part/1"),
        (Method::Post, "/api/multipart-upload/upload-1"),
    ];
    for (method, path) in routes {
        let asked = with_body(request(method, path, &without), AbortOrCompleteUploadBody::Abort);
        assert_eq!(dispatch(asked), Err(Rejection::InvalidRequest));
    }
}

#[test]
fn empty_or_repeated_parameters_are_unprocessable() {
    let invalid: [&[(&str, &str)]; 5] = [
        &[("bucket", ""), ("path", "key")],
        &[("bucket", "b"), ("path", "")],
        &[("bucket", "b"), ("bucket", "b"), ("path", "key")],
        &[("bucket", "b"), ("path", "key"), ("path", "other")],
        &[],
    ];
    for pairs in invalid {
        assert_eq!(
            dispatch(request(Method::Get, "/api/object", pairs)),
            Err(Rejection::InvalidRequest)
        );
    }
    assert_eq!(
        dispatch(request(
            Method::Get,
            "/api/objects",
            &[("bucket", "b"), ("prefix", "a/"), ("prefix", "b/")]
        )),
        Err(Rejection::InvalidRequest)
    );
    assert_eq!(
        dispatch(request(Method::Get, "/api/objects", &[("bucket", "")])),
        Err(Rejection::InvalidRequest)
    );
}

#[test]
fn parameters_that_no_route_reads_are_ignored() {
    let selected = dispatch(request(
        Method::Get,
        "/api/object",
        &[("other", "x"), ("bucket", "b"), ("Bucket", "B"), ("path", "k")],
    ));
    assert_eq!(
        selected,
        Ok(Route::GetObject(SignQueryParameters {
            bucket: "b".to_string(),
            path: "k".to_string(),
        }))
    );
}

#[test]
fn malformed_part_number_is_unprocessable() {
    for part in ["0", "-1", "x", "1x", "1.5", " 1", "9223372036854775808", "+", "１"] {
        let path = format!("/api/multipart-upload/upload-1/part/{}", part);
        assert_eq!(
            dispatch(request(Method::Get, &path, &OBJECT)),
            Err(Rejection::InvalidRequest),
            "{}",
            part
        );
    }
}

#[test]
fn part_number_is_read_in_base_ten() {
    for (part, number) in [
        ("1", 1),
        ("10000", 10000),
        ("+7", 7),
        ("007", 7),
        ("9223372036854775807", i64::MAX),
    ] {
        let path = format!("/api/multipart-upload/upload-1/part/{}", part);
        match dispatch(request(Method::Get, &path, &OBJECT)) {
            Ok(Route::PartUpload { part_number, .. }) => assert_eq!(part_number, number),
            other => panic!("{:?}", other),
        }
    }
}

#[test]
fn empty_upload_identifier_is_unprocessable() {
    assert_eq!(
        dispatch(request(
            Method::Get,
            "/api/multipart-upload//part/1",
            &OBJECT
        )),
        Err(Rejection::InvalidRequest)
    );
}

#[test]
fn missing_body_is_unprocessable() {
    assert_eq!(
        dispatch(request(
            Method::Post,
            "/api/multipart-upload/upload-1",
            &OBJECT
        )),
        Err(Rejection::InvalidRequest)
    );
}

#[test]
fn routes_of_the_api_take_the_path_under_the_root() {
    let path = vec!["objects".to_string()];
    let matched = routes(Method::Get, &path, &query(&[("bucket", "b")]), None);
    assert!(matches!(matched, RouteMatch::Matched(Route::ListObjects(_))));
    let matched = routes(Method::Get, &path, &query(&[]), None);
    assert_eq!(matched, RouteMatch::Invalid);
    let matched = routes(Method::Delete, &path, &query(&[("bucket", "b")]), None);
    assert_eq!(matched, RouteMatch::NoMatch);
}

#[test]
fn segments_are_what_stands_between_the_slashes() {
    let of = |path: &str| segments(path);
    assert_eq!(of("/api/objects"), vec!["api", "objects"]);
    assert_eq!(of("api/objects"), vec!["api", "objects"]);
    assert_eq!(of("/api/objects/"), vec!["api", "objects"]);
    assert_eq!(of("/api//objects"), vec!["api", "", "objects"]);
    assert_eq!(of("/api/objects//"), vec!["api", "objects", ""]);
    assert_eq!(of("//"), vec![""]);
    assert_eq!(of("/"), Vec::<String>::new());
    assert_eq!(of(""), Vec::<String>::new());
    assert_eq!(of("/été/日本"), vec!["été", "日本"]);
}

#[test]
fn required_parameter_stands_once() {
    let pairs = query(&[("a", "1"), ("b", "2"), ("a", "3"), ("c", "")]);
    assert_eq!(required(&pairs, "b"), Some("2".to_string()));
    assert_eq!(required(&pairs, "c"), Some("".to_string()));
    assert_eq!(required(&pairs, "a"), None);
    assert_eq!(required(&pairs, "d"), None);
}

#[test]
fn optional_parameter_stands_at_most_once() {
    let pairs = query(&[("a", "1"), ("b", "2"), ("a", "3")]);
    assert_eq!(optional(&pairs, "b"), Some(Some("2".to_string())));
    assert_eq!(optional(&pairs, "d"), Some(None));
    assert_eq!(optional(&pairs, "a"), None);
}

#[test]
fn object_parameters_are_the_bucket_and_the_key() {
    assert_eq!(
        object_parameters(&query(&OBJECT)),
        Some(("b".to_string(), "dir/key.txt".to_string()))
    );
    assert_eq!(object_parameters(&query(&[("bucket", "b")])), None);
}
