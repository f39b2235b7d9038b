//! Single objects, and the listing of the objects under a prefix.

use crate::request::Method;
use crate::routes::{or, RouteMatch, RouteMatchView};
use vstd::prelude::*;

pub mod create;
pub mod get;
pub mod list;

pub use list::{ListObjectsQueryParameters, ListObjectsResponse, Object};

verus! {

/// The query of a request for the signed URL of one object.
#[derive(Debug, Clone, PartialEq, Eq)]
pub struct SignQueryParameters {
    pub bucket: String,
    pub path: String,
}

pub struct SignQueryParametersView {
    pub bucket: Seq<char>,
    pub path: Seq<char>,
}

impl View for SignQueryParameters {
    type V = SignQueryParametersView;

    open spec fn view(&self) -> SignQueryParametersView {
        SignQueryParametersView { bucket: self.bucket@, path: self.path@ }
    }
}

/// What the routes of the objects make of a request: the first of them that
/// takes it.
pub open spec fn routes_of(
    method: Method,
    segments: Seq<Seq<char>>,
    query: Seq<(Seq<char>, Seq<char>)>,
) -> RouteMatchView {
    or(
        get::route_of(method, segments, query),
        or(create::route_of(method, segments, query), list::route_of(method, segments, query)),
    )
}

/// The routes of the objects: read one, write one, list them.
pub fn routes(method: Method, segments: &Vec<String>, query: &Vec<(String, String)>) -> (matched:
    RouteMatch)
    ensures
        matched@ == routes_of(method, segments.deep_view(), query.deep_view()),
{
    let matched = get::route(method, segments, query);
    if !matches!(matched, RouteMatch::NoMatch) {
        return matched;
    }
    let matched = create::route(method, segments, query);
    if !matches!(matched, RouteMatch::NoMatch) {
        return matched;
    }
    list::route(method, segments, query)
}

} // verus!
