//! First phase: the store opens a multipart upload and names it.

use crate::error::{result_view, Error, ErrorView};
use crate::request::Method;
use crate::response::{
    ok_json_response, to_ok_json_response, Body, BodyView, Response, ResponseView,
};
use crate::routes::{
    is_path, object_of, object_parameters, path_is, Route, RouteMatch, RouteMatchView, RouteView,
};
use crate::store::{
    outcome_view, CreateMultipartUploadOutput, CreateMultipartUploadOutputView, StoreFailure,
    StoreFailureView, StoreRequest, StoreRequestView,
};
use vstd::prelude::*;

verus! {

/// The query of a request to create a multipart upload.
#[derive(Debug, Clone, PartialEq, Eq)]
pub struct CreateUploadQueryParameters {
    pub bucket: String,
    pub path: String,
}

pub struct CreateUploadQueryParametersView {
    pub bucket: Seq<char>,
    pub path: Seq<char>,
}

impl View for CreateUploadQueryParameters {
    type V = CreateUploadQueryParametersView;

    open spec fn view(&self) -> CreateUploadQueryParametersView {
        CreateUploadQueryParametersView { bucket: self.bucket@, path: self.path@ }
    }
}

/// What the caller gets back: the identifier that the store gave the upload.
#[derive(Debug, Clone, PartialEq, Eq)]
pub struct CreateUploadResponse {
    pub upload_id: String,
}

pub struct CreateUploadResponseView {
    pub upload_id: Seq<char>,
}

impl View for CreateUploadResponse {
    type V = CreateUploadResponseView;

    open spec fn view(&self) -> CreateUploadResponseView {
        CreateUploadResponseView { upload_id: self.upload_id@ }
    }
}

/// What the route `POST multipart-upload` makes of a request.
pub open spec fn route_of(
    method: Method,
    segments: Seq<Seq<char>>,
    query: Seq<(Seq<char>, Seq<char>)>,
) -> RouteMatchView {
    if method == Method::Post && is_path(segments, "multipart-upload"@) {
        match object_of(query) {
            Some((bucket, path)) => RouteMatchView::Matched(
                RouteView::CreateUpload(CreateUploadQueryParametersView { bucket, path }),
            ),
            None => RouteMatchView::Invalid,
        }
    } else {
        RouteMatchView::NoMatch
    }
}

/// The route `POST multipart-upload`, with the bucket and the key in the query.
pub fn route(method: Method, segments: &Vec<String>, query: &Vec<(String, String)>) -> (matched:
    RouteMatch)
    ensures
        matched@ == route_of(method, segments.deep_view(), query.deep_view()),
{
    if matches!(method, Method::Post) && path_is(segments, "multipart-upload") {
        match object_parameters(query) {
            Some((bucket, path)) => RouteMatch::Matched(
                Route::CreateUpload(CreateUploadQueryParameters { bucket, path }),
            ),
            None => RouteMatch::Invalid,
        }
    } else {
        RouteMatch::NoMatch
    }
}

/// The call that opens an upload of the object `key` of `bucket`.
pub open spec fn create_request(bucket: Seq<char>, key: Seq<char>) -> StoreRequestView {
    StoreRequestView::CreateMultipartUpload { bucket, key }
}

/// What the caller is told of the outcome of a creation: the identifier that
/// the store gave, as JSON; a failure where the store gave none, or failed.
pub open spec fn created(
    outcome: Result<CreateMultipartUploadOutputView, StoreFailureView>,
) -> Result<ResponseView, ErrorView> {
    match outcome {
        Ok(output) => match output.upload_id {
            Some(upload_id) => Ok(
                ok_json_response(BodyView::CreateUpload(CreateUploadResponseView { upload_id })),
            ),
            None => Err(
                ErrorView::MultipartUploadError("Invalid multipart upload creation response"@),
            ),
        },
        Err(StoreFailureView::Connection(cause)) => Err(ErrorView::S3ConnectionError(cause)),
        Err(StoreFailureView::Operation(cause)) => Err(
            ErrorView::MultipartUploadCreationError(cause),
        ),
    }
}

/// The call to the store that the creation of an upload begins with.
pub fn create_multipart_upload_request(bucket: String, key: String) -> (request: StoreRequest)
    ensures
        request@ == create_request(bucket@, key@),
{
    StoreRequest::CreateMultipartUpload { bucket, key }
}

/// Makes the answer to a creation request of the outcome of the call to the
/// store.
pub fn handle_create_multipart_upload(
    outcome: Result<CreateMultipartUploadOutput, StoreFailure>,
) -> (result: Result<Response, Error>)
    ensures
        result_view(result) == created(outcome_view(outcome)),
{
    match outcome {
        Ok(output) => match output.upload_id {
            Some(upload_id) => {
                let body_response = CreateUploadResponse { upload_id };
                Ok(to_ok_json_response(Body::CreateUpload(body_response)))
            },
            None => Err(
                Error::MultipartUploadError(
                    "Invalid multipart upload creation response".to_owned(),
                ),
            ),
        },
        Err(StoreFailure::Connection(cause)) => Err(Error::S3ConnectionError(cause)),
        Err(StoreFailure::Operation(cause)) => Err(Error::MultipartUploadCreationError(cause)),
    }
}

} // verus!
