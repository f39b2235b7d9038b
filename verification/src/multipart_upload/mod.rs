//! The three phases of a multipart upload: create it, sign the upload of each
//! part, then complete or abort it. Nothing is kept between two requests: the
//! caller carries the upload's identifier and the parts from one to the next.

use crate::multipart_upload::abort_or_complete::AbortOrCompleteUploadBodyView;
use crate::request::Method;
use crate::routes::{or, RouteMatch, RouteMatchView};
use vstd::prelude::*;

pub mod abort_or_complete;
pub mod create;
pub mod part_upload_url;

pub use abort_or_complete::{
    AbortOrCompleteUploadBody, AbortOrCompleteUploadQueryParameters, CompletedUploadPart,
};
pub use create::{CreateUploadQueryParameters, CreateUploadResponse};
pub use part_upload_url::{PartUploadQueryParameters, PartUploadResponse};

verus! {

/// What the routes of the multipart uploads make of a request: the first of
/// them that takes it.
pub open spec fn routes_of(
    method: Method,
    segments: Seq<Seq<char>>,
    query: Seq<(Seq<char>, Seq<char>)>,
    body: Option<AbortOrCompleteUploadBodyView>,
) -> RouteMatchView {
    or(
        create::route_of(method, segments, query),
        or(
            part_upload_url::route_of(method, segments, query),
            abort_or_complete::route_of(method, segments, query, body),
        ),
    )
}

/// The routes of the multipart uploads: create one, sign a part, abort or
/// complete one.
pub fn routes(
    method: Method,
    segments: &Vec<String>,
    query: &Vec<(String, String)>,
    body: Option<AbortOrCompleteUploadBody>,
) -> (matched: RouteMatch)
    ensures
        matched@ == routes_of(method, segments.deep_view(), query.deep_view(), body.deep_view()),
{
    let matched = create::route(method, segments, query);
    if !matches!(matched, RouteMatch::NoMatch) {
        return matched;
    }
    let matched = part_upload_url::route(method, segments, query);
    if !matches!(matched, RouteMatch::NoMatch) {
        return matched;
    }
    abort_or_complete::route(method, segments, query, body)
}

} // verus!
