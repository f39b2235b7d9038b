//! What can go wrong while a request is served, and what the caller is told.

use crate::response::{
    status_response, to_status_response, Response, ResponseView, INTERNAL_SERVER_ERROR, NOT_FOUND,
    UNPROCESSABLE_ENTITY,
};
use vstd::prelude::*;
use vstd::string::*;

verus! {

/// A failure while a request is served. Where the cause is an error of the
/// store's client or of the HTTP layer, the variant holds that error as text.
#[derive(Debug, Clone, PartialEq, Eq)]
pub enum Error {
    HttpError(String),
    JsonError(String),
    ListObjectsError(String),
    MultipartUploadError(String),
    MultipartUploadAbortionError(String),
    MultipartUploadCompletionError(String),
    MultipartUploadCreationError(String),
    S3ConnectionError(String),
    SignatureError(String),
    UriError(String),
}

pub enum ErrorView {
    HttpError(Seq<char>),
    JsonError(Seq<char>),
    ListObjectsError(Seq<char>),
    MultipartUploadError(Seq<char>),
    MultipartUploadAbortionError(Seq<char>),
    MultipartUploadCompletionError(Seq<char>),
    MultipartUploadCreationError(Seq<char>),
    S3ConnectionError(Seq<char>),
    SignatureError(Seq<char>),
    UriError(Seq<char>),
}

impl View for Error {
    type V = ErrorView;

    open spec fn view(&self) -> ErrorView {
        match self {
            Error::HttpError(cause) => ErrorView::HttpError(cause@),
            Error::JsonError(cause) => ErrorView::JsonError(cause@),
            Error::ListObjectsError(cause) => ErrorView::ListObjectsError(cause@),
            Error::MultipartUploadError(cause) => ErrorView::MultipartUploadError(cause@),
            Error::MultipartUploadAbortionError(cause) => ErrorView::MultipartUploadAbortionError(
                cause@,
            ),
            Error::MultipartUploadCompletionError(cause) => ErrorView::MultipartUploadCompletionError(
                cause@,
            ),
            Error::MultipartUploadCreationError(cause) => ErrorView::MultipartUploadCreationError(
                cause@,
            ),
            Error::S3ConnectionError(cause) => ErrorView::S3ConnectionError(cause@),
            Error::SignatureError(cause) => ErrorView::SignatureError(cause@),
            Error::UriError(cause) => ErrorView::UriError(cause@),
        }
    }
}

/// The kinds of failure, by who is at fault.
#[derive(Debug, Clone, Copy, PartialEq, Eq, Structural)]
pub enum ErrorClass {
    /// The gateway cannot reach or address the store as it is configured.
    Configuration,
    /// The store reported that an operation failed.
    BackendOperation,
    /// The store reported success and left out what it owed.
    ProtocolViolation,
    /// The answer could not be written.
    Response,
}

/// The class of each failure.
pub open spec fn class_of(error: ErrorView) -> ErrorClass {
    match error {
        ErrorView::HttpError(_) => ErrorClass::Response,
        ErrorView::JsonError(_) => ErrorClass::Response,
        ErrorView::ListObjectsError(_) => ErrorClass::BackendOperation,
        ErrorView::MultipartUploadError(_) => ErrorClass::ProtocolViolation,
        ErrorView::MultipartUploadAbortionError(_) => ErrorClass::BackendOperation,
        ErrorView::MultipartUploadCompletionError(_) => ErrorClass::BackendOperation,
        ErrorView::MultipartUploadCreationError(_) => ErrorClass::BackendOperation,
        ErrorView::S3ConnectionError(_) => ErrorClass::Configuration,
        ErrorView::SignatureError(_) => ErrorClass::Configuration,
        ErrorView::UriError(_) => ErrorClass::Configuration,
    }
}

/// What `Debug` writes for a `str`: the text between double quotes, with the
/// characters escaped that a string literal would escape.
pub uninterp spec fn debug_quoted(text: Seq<char>) -> Seq<char>;

/// `Debug` for `str`, through `format!`. The result is the text quoted and
/// escaped as `Debug` does it, which `debug_quoted` names.
#[verifier::external_body]
fn quoted(text: &str) -> (quoted: String)
    ensures
        quoted@ == debug_quoted(text@),
{
    format!("{:?}", text)
}

/// The line that describes a failure: what was being done, then the cause.
/// A cause that the gateway worded itself is quoted.
pub open spec fn message_of(error: ErrorView) -> Seq<char> {
    match error {
        ErrorView::HttpError(cause) => "HTTP: "@ + cause,
        ErrorView::JsonError(cause) => "JSON: "@ + cause,
        ErrorView::ListObjectsError(cause) => "Objects listing: "@ + cause,
        ErrorView::MultipartUploadError(cause) => "Multipart upload: "@ + debug_quoted(cause),
        ErrorView::MultipartUploadAbortionError(cause) => "Multipart upload abortion: "@ + cause,
        ErrorView::MultipartUploadCompletionError(cause) => "Multipart upload completion: "@
            + cause,
        ErrorView::MultipartUploadCreationError(cause) => "Multipart upload creation: "@ + cause,
        ErrorView::S3ConnectionError(cause) => "Cannot create S3 client: "@ + cause,
        ErrorView::SignatureError(cause) => "Signature: "@ + debug_quoted(cause),
        ErrorView::UriError(cause) => "URI: "@ + cause,
    }
}

fn describe(context: &str, cause: &str) -> (line: String)
    ensures
        line@ == context@ + cause@,
{
    context.to_owned().concat(cause)
}

impl Error {
    /// The line that describes this failure in a log.
    pub fn message(&self) -> (line: String)
        ensures
            line@ == message_of(self@),
    {
        match self {
            Error::HttpError(cause) => describe("HTTP: ", cause.as_str()),
            Error::JsonError(cause) => describe("JSON: ", cause.as_str()),
            Error::ListObjectsError(cause) => describe("Objects listing: ", cause.as_str()),
            Error::MultipartUploadError(cause) => {
                let cause = quoted(cause.as_str());
                describe("Multipart upload: ", cause.as_str())
            },
            Error::MultipartUploadAbortionError(cause) => describe(
                "Multipart upload abortion: ",
                cause.as_str(),
            ),
            Error::MultipartUploadCompletionError(cause) => describe(
                "Multipart upload completion: ",
                cause.as_str(),
            ),
            Error::MultipartUploadCreationError(cause) => describe(
                "Multipart upload creation: ",
                cause.as_str(),
            ),
            Error::S3ConnectionError(cause) => describe("Cannot create S3 client: ", cause.as_str()),
            Error::SignatureError(cause) => {
                let cause = quoted(cause.as_str());
                describe("Signature: ", cause.as_str())
            },
            Error::UriError(cause) => describe("URI: ", cause.as_str()),
        }
    }

    /// The class of this failure.
    pub fn class(&self) -> (class: ErrorClass)
        ensures
            class == class_of(self@),
    {
        match self {
            Error::HttpError(_) => ErrorClass::Response,
            Error::JsonError(_) => ErrorClass::Response,
            Error::ListObjectsError(_) => ErrorClass::BackendOperation,
            Error::MultipartUploadError(_) => ErrorClass::ProtocolViolation,
            Error::MultipartUploadAbortionError(_) => ErrorClass::BackendOperation,
            Error::MultipartUploadCompletionError(_) => ErrorClass::BackendOperation,
            Error::MultipartUploadCreationError(_) => ErrorClass::BackendOperation,
            Error::S3ConnectionError(_) => ErrorClass::Configuration,
            Error::SignatureError(_) => ErrorClass::Configuration,
            Error::UriError(_) => ErrorClass::Configuration,
        }
    }
}

/// The result of a handler, as the contracts see it.
pub open spec fn result_view(result: Result<Response, Error>) -> Result<ResponseView, ErrorView> {
    match result {
        Ok(response) => Ok(response@),
        Err(error) => Err(error@),
    }
}

/// Why a request got no answer from a handler.
#[derive(Debug, Clone, PartialEq, Eq)]
pub enum Rejection {
    /// No route takes the request.
    NotFound,
    /// A route takes the request, and a parameter that it needs is missing or malformed.
    InvalidRequest,
    /// The handler failed.
    Failure(Error),
}

pub enum RejectionView {
    NotFound,
    InvalidRequest,
    Failure(ErrorView),
}

impl View for Rejection {
    type V = RejectionView;

    open spec fn view(&self) -> RejectionView {
        match self {
            Rejection::NotFound => RejectionView::NotFound,
            Rejection::InvalidRequest => RejectionView::InvalidRequest,
            Rejection::Failure(error) => RejectionView::Failure(error@),
        }
    }
}

/// The status that tells the caller of a rejection.
pub open spec fn rejection_status(rejection: RejectionView) -> u16 {
    match rejection {
        RejectionView::NotFound => NOT_FOUND,
        RejectionView::InvalidRequest => UNPROCESSABLE_ENTITY,
        RejectionView::Failure(_) => INTERNAL_SERVER_ERROR,
    }
}

/// Answers a rejected request: the status of the rejection, and no body.
pub fn handle_rejection(rejection: &Rejection) -> (response: Response)
    ensures
        response@ == status_response(rejection_status(rejection@)),
{
    match rejection {
        Rejection::NotFound => to_status_response(NOT_FOUND),
        Rejection::InvalidRequest => to_status_response(UNPROCESSABLE_ENTITY),
        Rejection::Failure(_) => to_status_response(INTERNAL_SERVER_ERROR),
    }
}

} // verus!
