//! The signed URL to read an object.

use crate::objects::{SignQueryParameters, SignQueryParametersView};
use crate::request::Method;
use crate::response::{redirect_response, to_redirect_response, Response, ResponseView};
use crate::routes::{
    is_path, object_of, object_parameters, path_is, Route, RouteMatch, RouteMatchView, RouteView,
};
use crate::s3_configuration::S3Configuration;
use crate::sign::{sign, signable, signed_url, Operation, OperationView};
use vstd::prelude::*;

verus! {

/// What the route `GET object` makes of a request.
pub open spec fn route_of(
    method: Method,
    segments: Seq<Seq<char>>,
    query: Seq<(Seq<char>, Seq<char>)>,
) -> RouteMatchView {
    if method == Method::Get && is_path(segments, "object"@) {
        match object_of(query) {
            Some((bucket, path)) => RouteMatchView::Matched(
                RouteView::GetObject(SignQueryParametersView { bucket, path }),
            ),
            None => RouteMatchView::Invalid,
        }
    } else {
        RouteMatchView::NoMatch
    }
}

/// The route `GET object`, with the bucket and the key in the query.
pub fn route(method: Method, segments: &Vec<String>, query: &Vec<(String, String)>) -> (matched:
    RouteMatch)
    ensures
        matched@ == route_of(method, segments.deep_view(), query.deep_view()),
{
    if matches!(method, Method::Get) && path_is(segments, "object") {
        match object_parameters(query) {
            Some((bucket, path)) => RouteMatch::Matched(
                Route::GetObject(SignQueryParameters { bucket, path }),
            ),
            None => RouteMatch::Invalid,
        }
    } else {
        RouteMatch::NoMatch
    }
}

/// Where a redirection leads: its last header.
pub open spec fn redirection_target(response: ResponseView) -> Seq<char> {
    response.headers.last().1
}

/// Answers a request to read an object: a redirection to a URL signed for
/// reading it.
pub fn handle_get_object_signed_url(
    s3_configuration: &S3Configuration,
    bucket: String,
    key: String,
) -> (response: Response)
    requires
        signable(OperationView::Get, bucket@, key@),
    ensures
        response@ == redirect_response(redirection_target(response@)),
        signed_url(redirection_target(response@), OperationView::Get, bucket@, key@),
{
    let presigned_url = sign(s3_configuration, &Operation::Get, bucket.as_str(), key.as_str());
    to_redirect_response(presigned_url.as_str())
}

} // verus!
