use s3_signer::error::{handle_rejection, ErrorClass, Rejection};
use s3_signer::response::Body;
use s3_signer::Error;

fn cause() -> String {
    "cause".to_string()
}

#[test]
fn message_names_what_was_being_done() {
    assert_eq!(Error::HttpError(cause()).message(), "HTTP: cause");
    assert_eq!(Error::JsonError(cause()).message(), "JSON: cause");
    assert_eq!(
        Error::ListObjectsError(cause()).message(),
        "Objects listing: cause"
    );
    assert_eq!(
        Error::MultipartUploadAbortionError(cause()).message(),
        "Multipart upload abortion: cause"
    );
    assert_eq!(
        Error::MultipartUploadCompletionError(cause()).message(),
        "Multipart upload completion: cause"
    );
    assert_eq!(
        Error::MultipartUploadCreationError(cause()).message(),
        "Multipart upload creation: cause"
    );
    assert_eq!(
        Error::S3ConnectionError(cause()).message(),
        "Cannot create S3 client: cause"
    );
    assert_eq!(Error::UriError(cause()).message(), "URI: cause");
}

#[test]
fn message_quotes_a_cause_of_the_gateway_s_own_wording() {
    assert_eq!(
        Error::MultipartUploadError("Invalid multipart upload creation response".to_string())
            .message(),
        "Multipart upload: \"Invalid multipart upload creation response\""
    );
    assert_eq!(
        Error::SignatureError("bad \"key\"\n".to_string()).message(),
        "Signature: \"bad \\\"key\\\"\\n\""
    );
}

#[test]
fn class_tells_who_is_at_fault() {
    assert_eq!(Error::HttpError(cause()).class(), ErrorClass::Response);
    assert_eq!(Error::JsonError(cause()).class(), ErrorClass::Response);
    assert_eq!(
        Error::ListObjectsError(cause()).class(),
        ErrorClass::BackendOperation
    );
    assert_eq!(
        Error::MultipartUploadAbortionError(cause()).class(),
        ErrorClass::BackendOperation
    );
    assert_eq!(
        Error::MultipartUploadCompletionError(cause()).class(),
        ErrorClass::BackendOperation
    );
    assert_eq!(
        Error::MultipartUploadCreationError(cause()).class(),
        ErrorClass::BackendOperation
    );
    assert_eq!(
        Error::MultipartUploadError(cause()).class(),
        ErrorClass::ProtocolViolation
    );
    assert_eq!(
        Error::S3ConnectionError(cause()).class(),
        ErrorClass::Configuration
    );
    assert_eq!(
        Error::SignatureError(cause()).class(),
        ErrorClass::Configuration
    );
    assert_eq!(Error::UriError(cause()).class(), ErrorClass::Configuration);
}

#[test]
fn rejection_is_answered_with_its_status_and_no_body() {
    let not_found = handle_rejection(&Rejection::NotFound);
    assert_eq!(not_found.status, 404);
    assert_eq!(not_found.body, Body::Empty);
    let invalid = handle_rejection(&Rejection::InvalidRequest);
    assert_eq!(invalid.status, 422);
    assert_eq!(invalid.body, Body::Empty);
    let failed = handle_rejection(&Rejection::Failure(Error::ListObjectsError(cause())));
    assert_eq!(failed.status, 500);
    assert_eq!(failed.body, Body::Empty);
    for response in [not_found, invalid, failed] {
        assert_eq!(response.headers.len(), 3);
        assert_eq!(
            response.headers[1],
            ("access-control-allow-origin".to_string(), "*".to_string())
        );
    }
}
