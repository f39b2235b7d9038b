//! What the gateway answers: a status, headers and a body, as plain values.

use crate::multipart_upload::create::{CreateUploadResponse, CreateUploadResponseView};
use crate::multipart_upload::part_upload_url::{PartUploadResponse, PartUploadResponseView};
use crate::objects::list::{Object, ObjectView};
use vstd::prelude::*;

verus! {

pub const OK: u16 = 200;

pub const FOUND: u16 = 302;

pub const NOT_FOUND: u16 = 404;

pub const UNPROCESSABLE_ENTITY: u16 = 422;

pub const INTERNAL_SERVER_ERROR: u16 = 500;

/// The body of a response. A value that is sent as JSON is kept as the value.
#[derive(Debug, Clone, PartialEq, Eq)]
pub enum Body {
    Empty,
    Text(String),
    Objects(Vec<Object>),
    CreateUpload(CreateUploadResponse),
    PartUpload(PartUploadResponse),
}

pub enum BodyView {
    Empty,
    Text(Seq<char>),
    Objects(Seq<ObjectView>),
    CreateUpload(CreateUploadResponseView),
    PartUpload(PartUploadResponseView),
}

impl View for Body {
    type V = BodyView;

    open spec fn view(&self) -> BodyView {
        match self {
            Body::Empty => BodyView::Empty,
            Body::Text(text) => BodyView::Text(text@),
            Body::Objects(objects) => BodyView::Objects(objects.deep_view()),
            Body::CreateUpload(response) => BodyView::CreateUpload(response@),
            Body::PartUpload(response) => BodyView::PartUpload(response@),
        }
    }
}

/// A response of the gateway.
#[derive(Debug, Clone, PartialEq, Eq)]
pub struct Response {
    pub status: u16,
    pub headers: Vec<(String, String)>,
    pub body: Body,
}

pub struct ResponseView {
    pub status: u16,
    pub headers: Seq<(Seq<char>, Seq<char>)>,
    pub body: BodyView,
}

impl View for Response {
    type V = ResponseView;

    open spec fn view(&self) -> ResponseView {
        ResponseView { status: self.status, headers: self.headers.deep_view(), body: self.body@ }
    }
}

/// The headers that let a page of any origin call the gateway.
pub open spec fn cors_headers() -> Seq<(Seq<char>, Seq<char>)> {
    seq![
        ("access-control-allow-headers"@, "*"@),
        ("access-control-allow-origin"@, "*"@),
        ("access-control-allow-methods"@, "GET, POST, PUT, DELETE, PATCH, OPTIONS"@),
    ]
}

/// Whether a response starts with the cross-origin headers.
pub open spec fn allows_any_origin(response: ResponseView) -> bool {
    cors_headers().is_prefix_of(response.headers)
}

/// The response that every other one is made from: OK, the cross-origin
/// headers, no body.
pub open spec fn base_response() -> ResponseView {
    ResponseView { status: OK, headers: cors_headers(), body: BodyView::Empty }
}

/// OK with a body that is sent as JSON.
pub open spec fn ok_json_response(body: BodyView) -> ResponseView {
    ResponseView {
        status: OK,
        headers: cors_headers().push(("content-type"@, "application/json"@)),
        body,
    }
}

/// A redirection to `url`.
pub open spec fn redirect_response(url: Seq<char>) -> ResponseView {
    ResponseView {
        status: FOUND,
        headers: cors_headers().push(("location"@, url)),
        body: BodyView::Empty,
    }
}

/// A response that only tells a status.
pub open spec fn status_response(status: u16) -> ResponseView {
    ResponseView { status, headers: cors_headers(), body: BodyView::Empty }
}

fn header(name: &str, value: &str) -> (header: (String, String))
    ensures
        header.deep_view() == (name@, value@),
{
    (name.to_owned(), value.to_owned())
}

pub fn request_builder() -> (response: Response)
    ensures
        response@ == base_response(),
{
    let mut headers: Vec<(String, String)> = Vec::new();
    headers.push(header("access-control-allow-headers", "*"));
    headers.push(header("access-control-allow-origin", "*"));
    headers.push(header("access-control-allow-methods", "GET, POST, PUT, DELETE, PATCH, OPTIONS"));
    assert(headers.deep_view() =~= cors_headers());
    Response { status: OK, headers, body: Body::Empty }
}

pub fn to_ok_json_response(body: Body) -> (response: Response)
    ensures
        response@ == ok_json_response(body@),
{
    let mut response = request_builder();
    response.headers.push(header("content-type", "application/json"));
    response.body = body;
    assert(response.headers.deep_view() =~= cors_headers().push(
        ("content-type"@, "application/json"@),
    ));
    response
}

pub fn to_redirect_response(url: &str) -> (response: Response)
    ensures
        response@ == redirect_response(url@),
{
    let mut response = request_builder();
    response.headers.push(header("location", url));
    response.status = FOUND;
    assert(response.headers.deep_view() =~= cors_headers().push(("location"@, url@)));
    response
}

pub fn to_status_response(status: u16) -> (response: Response)
    ensures
        response@ == status_response(status),
{
    let mut response = request_builder();
    response.status = status;
    response
}

} // verus!
