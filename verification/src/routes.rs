//! Which handler takes a request. Every route stands for one method and one
//! shape of path; a request whose method and path fit a route is taken by it,
//! and refused as invalid there where a parameter that the route needs is
//! missing or malformed.

use crate::error::{Rejection, RejectionView};
use crate::multipart_upload::abort_or_complete::{
    AbortOrCompleteUploadBody, AbortOrCompleteUploadBodyView, AbortOrCompleteUploadQueryParameters,
    AbortOrCompleteUploadQueryParametersView,
};
use crate::multipart_upload::create::{
    CreateUploadQueryParameters, CreateUploadQueryParametersView,
};
use crate::multipart_upload::part_upload_url::{
    PartUploadQueryParameters, PartUploadQueryParametersView,
};
use crate::objects::list::{ListObjectsQueryParameters, ListObjectsQueryParametersView};
use crate::objects::{SignQueryParameters, SignQueryParametersView};
use crate::request::{
    path_segments, required, required_parameter, segments, Method, Request, RequestView,
};
use crate::text::same_text;
use vstd::prelude::*;
use vstd::string::*;

verus! {

/// The first segment of the path of every route of the API.
pub const API_ROOT_PATH: &'static str = "api";

/// A handler, with the parameters that it was asked with.
#[derive(Debug, Clone, PartialEq, Eq)]
pub enum Route {
    /// The banner of the gateway.
    Root,
    /// What a page of another origin asks before it calls.
    Options,
    /// The signed URL to read an object.
    GetObject(SignQueryParameters),
    /// The signed URL to write an object.
    CreateObject(SignQueryParameters),
    /// The listing of the objects under a prefix.
    ListObjects(ListObjectsQueryParameters),
    /// The creation of a multipart upload.
    CreateUpload(CreateUploadQueryParameters),
    /// The signed URL to write a part of an upload.
    PartUpload { upload_id: String, part_number: i64, parameters: PartUploadQueryParameters },
    /// The abortion or the completion of an upload.
    AbortOrCompleteUpload {
        upload_id: String,
        parameters: AbortOrCompleteUploadQueryParameters,
        body: AbortOrCompleteUploadBody,
    },
}

pub enum RouteView {
    Root,
    Options,
    GetObject(SignQueryParametersView),
    CreateObject(SignQueryParametersView),
    ListObjects(ListObjectsQueryParametersView),
    CreateUpload(CreateUploadQueryParametersView),
    PartUpload {
        upload_id: Seq<char>,
        part_number: i64,
        parameters: PartUploadQueryParametersView,
    },
    AbortOrCompleteUpload {
        upload_id: Seq<char>,
        parameters: AbortOrCompleteUploadQueryParametersView,
        body: AbortOrCompleteUploadBodyView,
    },
}

impl View for Route {
    type V = RouteView;

    open spec fn view(&self) -> RouteView {
        match self {
            Route::Root => RouteView::Root,
            Route::Options => RouteView::Options,
            Route::GetObject(parameters) => RouteView::GetObject(parameters@),
            Route::CreateObject(parameters) => RouteView::CreateObject(parameters@),
            Route::ListObjects(parameters) => RouteView::ListObjects(parameters@),
            Route::CreateUpload(parameters) => RouteView::CreateUpload(parameters@),
            Route::PartUpload { upload_id, part_number, parameters } => RouteView::PartUpload {
                upload_id: upload_id@,
                part_number: *part_number,
                parameters: parameters@,
            },
            Route::AbortOrCompleteUpload { upload_id, parameters, body } => {
                RouteView::AbortOrCompleteUpload {
                    upload_id: upload_id@,
                    parameters: parameters@,
                    body: body@,
                }
            },
        }
    }
}

/// What a route makes of a request.
#[derive(Debug, Clone, PartialEq, Eq)]
pub enum RouteMatch {
    /// The method or the path is not the route's.
    NoMatch,
    /// The request is the route's, and a parameter is missing or malformed.
    Invalid,
    /// The request is the route's, with these parameters.
    Matched(Route),
}

pub enum RouteMatchView {
    NoMatch,
    Invalid,
    Matched(RouteView),
}

impl View for RouteMatch {
    type V = RouteMatchView;

    open spec fn view(&self) -> RouteMatchView {
        match self {
            RouteMatch::NoMatch => RouteMatchView::NoMatch,
            RouteMatch::Invalid => RouteMatchView::Invalid,
            RouteMatch::Matched(route) => RouteMatchView::Matched(route@),
        }
    }
}

/// The first of two routes that takes the request.
pub open spec fn or(first: RouteMatchView, second: RouteMatchView) -> RouteMatchView {
    if first is NoMatch {
        second
    } else {
        first
    }
}

/// The bucket and the key that the query of a request names: each stands once
/// in the query, under `bucket` and under `path`, and neither is empty.
pub open spec fn object_of(query: Seq<(Seq<char>, Seq<char>)>) -> Option<(Seq<char>, Seq<char>)> {
    match (required_parameter(query, "bucket"@), required_parameter(query, "path"@)) {
        (Some(bucket), Some(path)) => if bucket.len() > 0 && path.len() > 0 {
            Some((bucket, path))
        } else {
            None
        },
        _ => None,
    }
}

/// Reads the bucket and the key that a query names.
pub fn object_parameters(query: &Vec<(String, String)>) -> (object: Option<(String, String)>)
    ensures
        object.deep_view() == object_of(query.deep_view()),
{
    match (required(query, "bucket"), required(query, "path")) {
        (Some(bucket), Some(path)) => {
            if bucket.as_str().is_empty() || path.as_str().is_empty() {
                None
            } else {
                Some((bucket, path))
            }
        },
        _ => None,
    }
}

/// Whether the segments of a path are exactly one name.
pub open spec fn is_path(segments: Seq<Seq<char>>, name: Seq<char>) -> bool {
    segments.len() == 1 && segments[0] == name
}

/// Tells whether the segments of a path are exactly one name.
pub fn path_is(segments: &Vec<String>, name: &str) -> (same: bool)
    ensures
        same == is_path(segments.deep_view(), name@),
{
    segments.len() == 1 && same_text(segments[0].as_str(), name)
}

/// What the routes of the API make of a request, the API root apart: those
/// of the multipart uploads, then those of the objects.
pub open spec fn routes_of(
    method: Method,
    segments: Seq<Seq<char>>,
    query: Seq<(Seq<char>, Seq<char>)>,
    body: Option<AbortOrCompleteUploadBodyView>,
) -> RouteMatchView {
    or(
        crate::multipart_upload::routes_of(method, segments, query, body),
        crate::objects::routes_of(method, segments, query),
    )
}

/// The routes of the API.
pub fn routes(
    method: Method,
    segments: &Vec<String>,
    query: &Vec<(String, String)>,
    body: Option<AbortOrCompleteUploadBody>,
) -> (matched: RouteMatch)
    ensures
        matched@ == routes_of(method, segments.deep_view(), query.deep_view(), body.deep_view()),
{
    let matched = crate::multipart_upload::routes(method, segments, query, body);
    if !matches!(matched, RouteMatch::NoMatch) {
        return matched;
    }
    crate::objects::routes(method, segments, query)
}

/// The handler that takes a request, or why none does. `OPTIONS` is answered
/// on every path, the banner is at the root, and the API is under
/// `API_ROOT_PATH`. A request that no route takes is not found; one that a
/// route takes without the parameters it needs is invalid.
pub open spec fn route_of(request: RequestView) -> Result<RouteView, RejectionView> {
    let segments = path_segments(request.path);
    if request.method == Method::Options {
        Ok(RouteView::Options)
    } else if segments.len() == 0 {
        if request.method == Method::Get {
            Ok(RouteView::Root)
        } else {
            Err(RejectionView::NotFound)
        }
    } else if segments[0] == API_ROOT_PATH@ {
        match routes_of(request.method, segments.skip(1), request.query, request.body) {
            RouteMatchView::Matched(route) => Ok(route),
            RouteMatchView::Invalid => Err(RejectionView::InvalidRequest),
            RouteMatchView::NoMatch => Err(RejectionView::NotFound),
        }
    } else {
        Err(RejectionView::NotFound)
    }
}

/// Whether a handler has been given what it needs: a bucket and a key that
/// are not empty, and for an upload its identifier, and for a part a number
/// from 1 on.
pub open spec fn well_formed(route: RouteView) -> bool {
    match route {
        RouteView::Root => true,
        RouteView::Options => true,
        RouteView::GetObject(parameters) => parameters.bucket.len() > 0 && parameters.path.len()
            > 0,
        RouteView::CreateObject(parameters) => parameters.bucket.len() > 0
            && parameters.path.len() > 0,
        RouteView::ListObjects(parameters) => parameters.bucket.len() > 0,
        RouteView::CreateUpload(parameters) => parameters.bucket.len() > 0
            && parameters.path.len() > 0,
        RouteView::PartUpload { upload_id, part_number, parameters } => {
            &&& parameters.bucket.len() > 0
            &&& parameters.path.len() > 0
            &&& upload_id.len() > 0
            &&& part_number >= 1
        },
        RouteView::AbortOrCompleteUpload { upload_id, parameters, body } => {
            &&& parameters.bucket.len() > 0
            &&& parameters.path.len() > 0
            &&& upload_id.len() > 0
        },
    }
}

/// Whether the method and the path of a request are those of a route of the
/// API, whatever its query and its body hold.
pub open spec fn is_api_route(method: Method, segments: Seq<Seq<char>>) -> bool {
    ||| method == Method::Get && is_path(segments, "object"@)
    ||| method == Method::Post && is_path(segments, "objects"@)
    ||| method == Method::Get && is_path(segments, "objects"@)
    ||| method == Method::Post && is_path(segments, "multipart-upload"@)
    ||| method == Method::Get && crate::multipart_upload::part_upload_url::is_part_path(segments)
    ||| method == Method::Post && crate::multipart_upload::abort_or_complete::is_upload_path(
        segments,
    )
}

/// Every handler that is selected has been given what it needs.
pub proof fn lemma_selected_route_is_well_formed(request: RequestView)
    ensures
        route_of(request) matches Ok(route) ==> well_formed(route),
{
}

/// One where a route takes a request, zero where it answers `NoMatch`.
pub open spec fn taken(matched: RouteMatchView) -> nat {
    if matched is NoMatch {
        0
    } else {
        1
    }
}

/// How many routes of the API take a request.
pub open spec fn takers(
    method: Method,
    segments: Seq<Seq<char>>,
    query: Seq<(Seq<char>, Seq<char>)>,
    body: Option<AbortOrCompleteUploadBodyView>,
) -> nat {
    taken(crate::objects::get::route_of(method, segments, query)) + taken(
        crate::objects::create::route_of(method, segments, query),
    ) + taken(crate::objects::list::route_of(method, segments, query)) + taken(
        crate::multipart_upload::create::route_of(method, segments, query),
    ) + taken(crate::multipart_upload::part_upload_url::route_of(method, segments, query)) + taken(
        crate::multipart_upload::abort_or_complete::route_of(method, segments, query, body),
    )
}

/// No request is taken by two routes, and the requests that a route takes are
/// those whose method and path are a route's: the routes together answer
/// `NoMatch` for all others, and only for them.
pub proof fn lemma_at_most_one_route(
    method: Method,
    segments: Seq<Seq<char>>,
    query: Seq<(Seq<char>, Seq<char>)>,
    body: Option<AbortOrCompleteUploadBodyView>,
)
    ensures
        takers(method, segments, query, body) <= 1,
        takers(method, segments, query, body) == 1 <==> is_api_route(method, segments),
        routes_of(method, segments, query, body) is NoMatch <==> !is_api_route(method, segments),
{
    reveal_strlit("object");
    reveal_strlit("objects");
    reveal_strlit("multipart-upload");
    if is_path(segments, "object"@) && is_path(segments, "objects"@) {
        assert("object"@.len() != "objects"@.len());
    }
    if is_path(segments, "objects"@) && is_path(segments, "multipart-upload"@) {
        assert("objects"@.len() != "multipart-upload"@.len());
    }
    if is_path(segments, "object"@) && is_path(segments, "multipart-upload"@) {
        assert("object"@.len() != "multipart-upload"@.len());
    }
}

/// A request to a route of the API whose query does not name the bucket, or
/// names it more than once, is refused as invalid, whatever else it holds.
pub proof fn lemma_missing_bucket_is_invalid(request: RequestView)
    requires
        request.method != Method::Options,
        path_segments(request.path).len() > 0,
        path_segments(request.path)[0] == API_ROOT_PATH@,
        is_api_route(request.method, path_segments(request.path).skip(1)),
        required_parameter(request.query, "bucket"@) is None,
    ensures
        route_of(request) == Err::<RouteView, RejectionView>(RejectionView::InvalidRequest),
{
    let segments = path_segments(request.path).skip(1);
    lemma_at_most_one_route(request.method, segments, request.query, request.body);
}

/// What `dispatch` gives, as the contracts see it.
pub open spec fn selection_view(selected: Result<Route, Rejection>) -> Result<
    RouteView,
    RejectionView,
> {
    match selected {
        Ok(route) => Ok(route@),
        Err(rejection) => Err(rejection@),
    }
}

/// Selects the handler of a request.
pub fn dispatch(request: Request) -> (selected: Result<Route, Rejection>)
    ensures
        selection_view(selected) == route_of(request@),
{
    let Request { method, path, query, body } = request;
    if matches!(method, Method::Options) {
        return Ok(Route::Options);
    }
    let mut segments = segments(path.as_str());
    if segments.len() == 0 {
        return if matches!(method, Method::Get) {
            Ok(Route::Root)
        } else {
            Err(Rejection::NotFound)
        };
    }
    if !same_text(segments[0].as_str(), API_ROOT_PATH) {
        return Err(Rejection::NotFound);
    }
    let ghost all = segments.deep_view();
    segments.remove(0);
    assert(segments.deep_view() =~= all.skip(1));
    match routes(method, &segments, &query, body) {
        RouteMatch::Matched(route) => Ok(route),
        RouteMatch::Invalid => Err(Rejection::InvalidRequest),
        RouteMatch::NoMatch => Err(Rejection::NotFound),
    }
}

} // verus!
