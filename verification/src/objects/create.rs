//! The signed URL to write an object.

use crate::objects::get::redirection_target;
use crate::objects::{SignQueryParameters, SignQueryParametersView};
use crate::request::Method;
use crate::routes::{
    is_path, object_of, object_parameters, path_is, Route, RouteMatch, RouteMatchView, RouteView,
};
use crate::response::{redirect_response, to_redirect_response, Response};
use crate::s3_configuration::S3Configuration;
use crate::sign::{sign, signable, signed_url, Operation, OperationView};
use vstd::prelude::*;

verus! {

/// What the route `POST objects` makes of a request.
pub open spec fn route_of(
    method: Method,
    segments: Seq<Seq<char>>,
    query: Seq<(Seq<char>, Seq<char>)>,
) -> RouteMatchView {
    if method == Method::Post && is_path(segments, "objects"@) {
        match object_of(query) {
            Some((bucket, path)) => RouteMatchView::Matched(
                RouteView::CreateObject(SignQueryParametersView { bucket, path }),
            ),
            None => RouteMatchView::Invalid,
        }
    } else {
        RouteMatchView::NoMatch
    }
}

/// The route `POST objects`, with the bucket and the key in the query.
pub fn route(method: Method, segments: &Vec<String>, query: &Vec<(String, String)>) -> (matched:
    RouteMatch)
    ensures
        matched@ == route_of(method, segments.deep_view(), query.deep_view()),
{
    if matches!(method, Method::Post) && path_is(segments, "objects") {
        match object_parameters(query) {
            Some((bucket, path)) => RouteMatch::Matched(
                Route::CreateObject(SignQueryParameters { bucket, path }),
            ),
            None => RouteMatch::Invalid,
        }
    } else {
        RouteMatch::NoMatch
    }
}

/// Answers a request to create an object: a redirection to a URL signed for
/// writing it.
pub fn handle_create_object_signed_url(
    s3_configuration: &S3Configuration,
    bucket: String,
    key: String,
) -> (response: Response)
    requires
        signable(OperationView::Put, bucket@, key@),
    ensures
        response@ == redirect_response(redirection_target(response@)),
        signed_url(redirection_target(response@), OperationView::Put, bucket@, key@),
{
    let presigned_url = sign(s3_configuration, &Operation::Put, bucket.as_str(), key.as_str());
    to_redirect_response(presigned_url.as_str())
}

} // verus!
