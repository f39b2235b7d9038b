//! Last phase: the upload is completed from its parts, or aborted.

use crate::error::{result_view, Error, ErrorView};
use crate::request::Method;
use crate::response::{base_response, request_builder, Response, ResponseView};
use crate::routes::{
    object_of, object_parameters, Route, RouteMatch, RouteMatchView, RouteView,
};
use crate::store::{
    outcome_view, CompletedPart, CompletedPartView, StoreFailure, StoreFailureView, StoreRequest,
    StoreRequestView,
};
use crate::text::same_text;
use vstd::prelude::*;
use vstd::string::*;

verus! {

/// The query of a request to abort or complete a multipart upload.
#[derive(Debug, Clone, PartialEq, Eq)]
pub struct AbortOrCompleteUploadQueryParameters {
    pub bucket: String,
    pub path: String,
}

pub struct AbortOrCompleteUploadQueryParametersView {
    pub bucket: Seq<char>,
    pub path: Seq<char>,
}

impl View for AbortOrCompleteUploadQueryParameters {
    type V = AbortOrCompleteUploadQueryParametersView;

    open spec fn view(&self) -> AbortOrCompleteUploadQueryParametersView {
        AbortOrCompleteUploadQueryParametersView { bucket: self.bucket@, path: self.path@ }
    }
}

/// One uploaded part as the caller reports it: its number and the tag that
/// the store gave it.
#[derive(Debug, Clone, PartialEq, Eq)]
pub struct CompletedUploadPart {
    pub number: i64,
    pub etag: String,
}

pub struct CompletedUploadPartView {
    pub number: i64,
    pub etag: Seq<char>,
}

impl View for CompletedUploadPart {
    type V = CompletedUploadPartView;

    open spec fn view(&self) -> CompletedUploadPartView {
        CompletedUploadPartView { number: self.number, etag: self.etag@ }
    }
}

impl DeepView for CompletedUploadPart {
    type V = CompletedUploadPartView;

    open spec fn deep_view(&self) -> CompletedUploadPartView {
        self@
    }
}

/// The body of a request to abort or complete a multipart upload.
#[derive(Debug, Clone, PartialEq, Eq)]
pub enum AbortOrCompleteUploadBody {
    Abort,
    Complete { parts: Vec<CompletedUploadPart> },
}

pub enum AbortOrCompleteUploadBodyView {
    Abort,
    Complete { parts: Seq<CompletedUploadPartView> },
}

impl View for AbortOrCompleteUploadBody {
    type V = AbortOrCompleteUploadBodyView;

    open spec fn view(&self) -> AbortOrCompleteUploadBodyView {
        match self {
            AbortOrCompleteUploadBody::Abort => AbortOrCompleteUploadBodyView::Abort,
            AbortOrCompleteUploadBody::Complete { parts } => AbortOrCompleteUploadBodyView::Complete {
                parts: parts.deep_view(),
            },
        }
    }
}

impl DeepView for AbortOrCompleteUploadBody {
    type V = AbortOrCompleteUploadBodyView;

    open spec fn deep_view(&self) -> AbortOrCompleteUploadBodyView {
        self@
    }
}

/// Whether the segments of a path have the shape of the path of an upload:
/// `multipart-upload`, then the upload.
pub open spec fn is_upload_path(segments: Seq<Seq<char>>) -> bool {
    segments.len() == 2 && segments[0] == "multipart-upload"@
}

/// What the route `POST multipart-upload/{upload}` makes of a request. The
/// upload is named by a segment that is not empty, and the body says to abort
/// or to complete.
pub open spec fn route_of(
    method: Method,
    segments: Seq<Seq<char>>,
    query: Seq<(Seq<char>, Seq<char>)>,
    body: Option<AbortOrCompleteUploadBodyView>,
) -> RouteMatchView {
    if method == Method::Post && is_upload_path(segments) {
        match (object_of(query), body) {
            (Some((bucket, path)), Some(body)) => if segments[1].len() > 0 {
                RouteMatchView::Matched(
                    RouteView::AbortOrCompleteUpload {
                        upload_id: segments[1],
                        parameters: AbortOrCompleteUploadQueryParametersView { bucket, path },
                        body,
                    },
                )
            } else {
                RouteMatchView::Invalid
            },
            _ => RouteMatchView::Invalid,
        }
    } else {
        RouteMatchView::NoMatch
    }
}

/// The route `POST multipart-upload/{upload}`, with the bucket and the key in
/// the query and the action in the body.
pub fn route(
    method: Method,
    segments: &Vec<String>,
    query: &Vec<(String, String)>,
    body: Option<AbortOrCompleteUploadBody>,
) -> (matched: RouteMatch)
    ensures
        matched@ == route_of(method, segments.deep_view(), query.deep_view(), body.deep_view()),
{
    if matches!(method, Method::Post) && segments.len() == 2 && same_text(
        segments[0].as_str(),
        "multipart-upload",
    ) {
        match (object_parameters(query), body) {
            (Some((bucket, path)), Some(body)) => {
                if segments[1].as_str().is_empty() {
                    RouteMatch::Invalid
                } else {
                    RouteMatch::Matched(
                        Route::AbortOrCompleteUpload {
                            upload_id: segments[1].clone(),
                            parameters: AbortOrCompleteUploadQueryParameters { bucket, path },
                            body,
                        },
                    )
                }
            },
            _ => RouteMatch::Invalid,
        }
    } else {
        RouteMatch::NoMatch
    }
}

/// A part as the store takes it: the number and the tag that the caller
/// reported, both present.
pub open spec fn completed_part(part: CompletedUploadPartView) -> CompletedPartView {
    CompletedPartView { e_tag: Some(part.etag), part_number: Some(part.number) }
}

impl From<CompletedUploadPart> for CompletedPart {
    fn from(part: CompletedUploadPart) -> (converted: Self) {
        Self { part_number: Some(part.number), e_tag: Some(part.etag) }
    }
}

impl vstd::std_specs::convert::FromSpecImpl<CompletedUploadPart> for CompletedPart {
    open spec fn obeys_from_spec() -> bool {
        true
    }

    open spec fn from_spec(part: CompletedUploadPart) -> Self {
        CompletedPart { part_number: Some(part.number), e_tag: Some(part.etag) }
    }
}

/// The call that gives up an upload.
pub open spec fn abort_request(
    bucket: Seq<char>,
    key: Seq<char>,
    upload_id: Seq<char>,
) -> StoreRequestView {
    StoreRequestView::AbortMultipartUpload { bucket, key, upload_id }
}

/// The call that completes an upload: it names every part that the caller
/// reported, once, in the caller's order, and no other.
pub open spec fn complete_request(
    bucket: Seq<char>,
    key: Seq<char>,
    upload_id: Seq<char>,
    parts: Seq<CompletedUploadPartView>,
) -> StoreRequestView {
    StoreRequestView::CompleteMultipartUpload {
        bucket,
        key,
        upload_id,
        parts: parts.map_values(|part: CompletedUploadPartView| completed_part(part)),
    }
}

/// What the caller is told of the outcome of an abortion: OK without a body,
/// or the failure.
pub open spec fn aborted(outcome: Result<(), StoreFailureView>) -> Result<
    ResponseView,
    ErrorView,
> {
    match outcome {
        Ok(_) => Ok(base_response()),
        Err(StoreFailureView::Connection(cause)) => Err(ErrorView::S3ConnectionError(cause)),
        Err(StoreFailureView::Operation(cause)) => Err(
            ErrorView::MultipartUploadAbortionError(cause),
        ),
    }
}

/// What the caller is told of the outcome of a completion: OK without a body,
/// or the failure.
pub open spec fn completed(outcome: Result<(), StoreFailureView>) -> Result<
    ResponseView,
    ErrorView,
> {
    match outcome {
        Ok(_) => Ok(base_response()),
        Err(StoreFailureView::Connection(cause)) => Err(ErrorView::S3ConnectionError(cause)),
        Err(StoreFailureView::Operation(cause)) => Err(
            ErrorView::MultipartUploadCompletionError(cause),
        ),
    }
}

/// The call to the store that an abortion begins with.
pub fn abort_multipart_upload_request(bucket: String, key: String, upload_id: String) -> (request:
    StoreRequest)
    ensures
        request@ == abort_request(bucket@, key@, upload_id@),
{
    StoreRequest::AbortMultipartUpload { bucket, key, upload_id }
}

/// Makes the answer to an abortion request of the outcome of the call to the
/// store.
pub fn handle_abort_multipart_upload(outcome: Result<(), StoreFailure>) -> (result: Result<
    Response,
    Error,
>)
    ensures
        result_view(result) == aborted(outcome_view(outcome)),
{
    match outcome {
        Ok(_) => Ok(request_builder()),
        Err(StoreFailure::Connection(cause)) => Err(Error::S3ConnectionError(cause)),
        Err(StoreFailure::Operation(cause)) => Err(Error::MultipartUploadAbortionError(cause)),
    }
}

/// The call to the store that a completion begins with. The parts are handed
/// on as the caller gave them: none is checked, added, dropped or moved.
pub fn complete_multipart_upload_request(
    bucket: String,
    key: String,
    upload_id: String,
    body: Vec<CompletedUploadPart>,
) -> (request: StoreRequest)
    ensures
        request@ == complete_request(bucket@, key@, upload_id@, body.deep_view()),
{
    let ghost reported = body.deep_view();
    let ghost expected = reported.map_values(
        |part: CompletedUploadPartView| completed_part(part),
    );
    let mut parts: Vec<CompletedPart> = Vec::new();
    for part in iter: body
        invariant
            iter.seq() == body@,
            reported == body.deep_view(),
            expected == reported.map_values(|part: CompletedUploadPartView| completed_part(part)),
            parts.deep_view() == expected.take(iter.index()),
    {
        let ghost before = parts.deep_view();
        parts.push(CompletedPart::from(part));
        assert(parts.deep_view() =~= before.push(completed_part(part@)));
        assert(expected.take(iter.index() + 1) =~= expected.take(iter.index()).push(
            expected[iter.index()],
        ));
    }
    assert(expected.take(expected.len() as int) =~= expected);
    StoreRequest::CompleteMultipartUpload { bucket, key, upload_id, parts }
}

/// Makes the answer to a completion request of the outcome of the call to the
/// store.
pub fn handle_complete_multipart_upload(outcome: Result<(), StoreFailure>) -> (result: Result<
    Response,
    Error,
>)
    ensures
        result_view(result) == completed(outcome_view(outcome)),
{
    match outcome {
        Ok(_) => Ok(request_builder()),
        Err(StoreFailure::Connection(cause)) => Err(Error::S3ConnectionError(cause)),
        Err(StoreFailure::Operation(cause)) => Err(Error::MultipartUploadCompletionError(cause)),
    }
}

} // verus!
