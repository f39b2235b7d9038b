//! Second phase: a signed URL for the upload of one part.

use crate::request::Method;
use crate::response::{ok_json_response, to_ok_json_response, Body, BodyView, Response};
use crate::routes::{
    object_of, object_parameters, Route, RouteMatch, RouteMatchView, RouteView,
};
use crate::s3_configuration::S3Configuration;
use crate::sign::{sign, signable, signed_url, Operation, OperationView};
use crate::number::{parse_positive, positive_number};
use crate::text::same_text;
use vstd::prelude::*;
use vstd::string::*;

verus! {

/// The query of a request for the upload URL of a part.
#[derive(Debug, Clone, PartialEq, Eq)]
pub struct PartUploadQueryParameters {
    pub bucket: String,
    pub path: String,
}

pub struct PartUploadQueryParametersView {
    pub bucket: Seq<char>,
    pub path: Seq<char>,
}

impl View for PartUploadQueryParameters {
    type V = PartUploadQueryParametersView;

    open spec fn view(&self) -> PartUploadQueryParametersView {
        PartUploadQueryParametersView { bucket: self.bucket@, path: self.path@ }
    }
}

/// What the caller gets back: the URL to send the part to.
#[derive(Debug, Clone, PartialEq, Eq)]
pub struct PartUploadResponse {
    pub presigned_url: String,
}

pub struct PartUploadResponseView {
    pub presigned_url: Seq<char>,
}

impl View for PartUploadResponse {
    type V = PartUploadResponseView;

    open spec fn view(&self) -> PartUploadResponseView {
        PartUploadResponseView { presigned_url: self.presigned_url@ }
    }
}

/// Whether the segments of a path have the shape of the path of a part:
/// `multipart-upload`, the upload, `part`, the part.
pub open spec fn is_part_path(segments: Seq<Seq<char>>) -> bool {
    segments.len() == 4 && segments[0] == "multipart-upload"@ && segments[2] == "part"@
}

/// What the route `GET multipart-upload/{upload}/part/{part}` makes of a
/// request. The upload is named by a segment that is not empty, and the part
/// by a number from 1 on.
pub open spec fn route_of(
    method: Method,
    segments: Seq<Seq<char>>,
    query: Seq<(Seq<char>, Seq<char>)>,
) -> RouteMatchView {
    if method == Method::Get && is_part_path(segments) {
        match (positive_number(segments[3]), object_of(query)) {
            (Some(part_number), Some((bucket, path))) => if segments[1].len() > 0 {
                RouteMatchView::Matched(
                    RouteView::PartUpload {
                        upload_id: segments[1],
                        part_number,
                        parameters: PartUploadQueryParametersView { bucket, path },
                    },
                )
            } else {
                RouteMatchView::Invalid
            },
            _ => RouteMatchView::Invalid,
        }
    } else {
        RouteMatchView::NoMatch
    }
}

/// The route `GET multipart-upload/{upload}/part/{part}`, with the bucket and
/// the key in the query.
pub fn route(method: Method, segments: &Vec<String>, query: &Vec<(String, String)>) -> (matched:
    RouteMatch)
    ensures
        matched@ == route_of(method, segments.deep_view(), query.deep_view()),
{
    if matches!(method, Method::Get) && segments.len() == 4 && same_text(
        segments[0].as_str(),
        "multipart-upload",
    ) && same_text(segments[2].as_str(), "part") {
        match (parse_positive(segments[3].as_str()), object_parameters(query)) {
            (Some(part_number), Some((bucket, path))) => {
                if segments[1].as_str().is_empty() {
                    RouteMatch::Invalid
                } else {
                    RouteMatch::Matched(
                        Route::PartUpload {
                            upload_id: segments[1].clone(),
                            part_number,
                            parameters: PartUploadQueryParameters { bucket, path },
                        },
                    )
                }
            },
            _ => RouteMatch::Invalid,
        }
    } else {
        RouteMatch::NoMatch
    }
}

/// Answers a request for the upload URL of a part: the URL signed for writing
/// that part of that upload, as JSON. No part is refused for its number or its
/// order, and nothing is kept of the request.
pub fn handle_part_upload_presigned_url(
    s3_configuration: &S3Configuration,
    bucket: String,
    key: String,
    upload_id: String,
    part_number: i64,
) -> (response: Response)
    requires
        signable(OperationView::UploadPart { upload_id: upload_id@, part_number }, bucket@, key@),
    ensures
        response@ == ok_json_response(response@.body),
        response@.body matches BodyView::PartUpload(part) && signed_url(
            part.presigned_url,
            OperationView::UploadPart { upload_id: upload_id@, part_number },
            bucket@,
            key@,
        ),
{
    let operation = Operation::UploadPart { upload_id, part_number };
    let presigned_url = sign(s3_configuration, &operation, bucket.as_str(), key.as_str());
    let response = PartUploadResponse { presigned_url };
    to_ok_json_response(Body::PartUpload(response))
}

} // verus!
