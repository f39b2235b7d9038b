//! The gateway, one request at a time. A request is served in one step where
//! the answer needs nothing of the store, and in two where it does: first the
//! call that is to be made, then, of its outcome, the answer. Nothing is kept
//! from one request to the next, and nothing between the two steps but the
//! call itself.

use crate::error::{handle_rejection, rejection_status, Error, ErrorView, Rejection, RejectionView};
use crate::multipart_upload::abort_or_complete::{
    abort_multipart_upload_request, abort_request, aborted, complete_multipart_upload_request,
    complete_request, completed, handle_abort_multipart_upload, handle_complete_multipart_upload,
    AbortOrCompleteUploadBody, AbortOrCompleteUploadBodyView,
};
use crate::multipart_upload::create::{
    create_multipart_upload_request, create_request, created, handle_create_multipart_upload,
};
use crate::multipart_upload::part_upload_url::handle_part_upload_presigned_url;
use crate::objects::create::handle_create_object_signed_url;
use crate::objects::get::{handle_get_object_signed_url, redirection_target};
use crate::objects::list::{
    can_list, handle_list_objects, list_objects_request, list_request, listable, listed,
};
use crate::request::{Request, RequestView};
use crate::response::{
    allows_any_origin, base_response, cors_headers, ok_json_response, redirect_response,
    request_builder, status_response, Body, BodyView, Response, ResponseView,
    INTERNAL_SERVER_ERROR, OK,
};
use crate::routes::{
    dispatch, lemma_selected_route_is_well_formed, route_of, Route, RouteView,
};
use crate::s3_configuration::S3Configuration;
use crate::sign::{signed_url, OperationView};
use crate::store::{
    StoreFailure, StoreFailureView, StoreOutput, StoreOutputView, StoreRequest, StoreRequestView,
};
use vstd::prelude::*;
use vstd::string::*;

verus! {

/// What is to be done next for a request.
#[derive(Debug, Clone, PartialEq, Eq)]
pub enum Step {
    /// Send this answer: the request is served.
    Respond(Response),
    /// Make this call to the store, and hand its outcome to `conclude`.
    Call(StoreRequest),
}

pub enum StepView {
    Respond(ResponseView),
    Call(StoreRequestView),
}

impl View for Step {
    type V = StepView;

    open spec fn view(&self) -> StepView {
        match self {
            Step::Respond(response) => StepView::Respond(response@),
            Step::Call(request) => StepView::Call(request@),
        }
    }
}

/// The banner of the gateway: its name and its version, and where the API is
/// documented.
pub open spec fn banner(version: Seq<char>) -> Seq<char> {
    "S3 Signer (version "@ + version + ")\nAPI documentation on: /swagger-ui/"@
}

/// The answer at the root: the banner, as plain text.
pub open spec fn root_response(version: Seq<char>) -> ResponseView {
    ResponseView {
        status: OK,
        headers: cors_headers().push(("content-type"@, "text/plain; charset=utf-8"@)),
        body: BodyView::Text(banner(version)),
    }
}

/// Answers a request for the root.
pub fn root(version: &str) -> (response: Response)
    ensures
        response@ == root_response(version@),
{
    let text = "S3 Signer (version ".to_owned().concat(version).concat(
        ")\nAPI documentation on: /swagger-ui/",
    );
    let mut response = request_builder();
    response.headers.push(("content-type".to_owned(), "text/plain; charset=utf-8".to_owned()));
    response.body = Body::Text(text);
    assert(response.headers.deep_view() =~= cors_headers().push(
        ("content-type"@, "text/plain; charset=utf-8"@),
    ));
    response
}

/// Answers an `OPTIONS` request: OK, with the headers that every answer has.
pub fn options() -> (response: Response)
    ensures
        response@ == base_response(),
{
    request_builder()
}

/// Whether a step is the one that a handler begins with. A handler that signs
/// answers at once, with a URL of which `signed_url` holds; one that needs the
/// store gives the call to make, which is fixed by the request.
pub open spec fn begins(route: RouteView, version: Seq<char>, step: StepView) -> bool {
    match route {
        RouteView::Root => step == StepView::Respond(root_response(version)),
        RouteView::Options => step == StepView::Respond(base_response()),
        RouteView::GetObject(parameters) => {
            &&& step matches StepView::Respond(response)
            &&& response == redirect_response(redirection_target(response))
            &&& signed_url(
                redirection_target(response),
                OperationView::Get,
                parameters.bucket,
                parameters.path,
            )
        },
        RouteView::CreateObject(parameters) => {
            &&& step matches StepView::Respond(response)
            &&& response == redirect_response(redirection_target(response))
            &&& signed_url(
                redirection_target(response),
                OperationView::Put,
                parameters.bucket,
                parameters.path,
            )
        },
        RouteView::ListObjects(parameters) => step == StepView::Call(
            list_request(parameters.bucket, parameters.prefix),
        ),
        RouteView::CreateUpload(parameters) => step == StepView::Call(
            create_request(parameters.bucket, parameters.path),
        ),
        RouteView::PartUpload { upload_id, part_number, parameters } => {
            &&& step matches StepView::Respond(response)
            &&& response == ok_json_response(response.body)
            &&& response.body matches BodyView::PartUpload(part)
            &&& signed_url(
                part.presigned_url,
                OperationView::UploadPart { upload_id, part_number },
                parameters.bucket,
                parameters.path,
            )
        },
        RouteView::AbortOrCompleteUpload { upload_id, parameters, body } => match body {
            AbortOrCompleteUploadBodyView::Abort => step == StepView::Call(
                abort_request(parameters.bucket, parameters.path, upload_id),
            ),
            AbortOrCompleteUploadBodyView::Complete { parts } => step == StepView::Call(
                complete_request(parameters.bucket, parameters.path, upload_id, parts),
            ),
        },
    }
}

/// Whether a result is the one that serving a request begins with: the
/// rejection where no handler is selected, else the first step of the handler.
pub open spec fn serves(
    request: RequestView,
    version: Seq<char>,
    served: Result<StepView, RejectionView>,
) -> bool {
    match route_of(request) {
        Ok(route) => served matches Ok(step) && begins(route, version, step),
        Err(rejection) => served == Err::<StepView, RejectionView>(rejection),
    }
}

/// What `serve` gives, as the contracts see it.
pub open spec fn served_view(served: Result<Step, Rejection>) -> Result<StepView, RejectionView> {
    match served {
        Ok(step) => Ok(step@),
        Err(rejection) => Err(rejection@),
    }
}

/// Begins to serve a request: selects its handler and takes the first step.
pub fn serve(s3_configuration: &S3Configuration, version: &str, request: Request) -> (served:
    Result<Step, Rejection>)
    ensures
        serves(request@, version@, served_view(served)),
{
    proof {
        lemma_selected_route_is_well_formed(request@);
    }
    match dispatch(request) {
        Err(rejection) => Err(rejection),
        Ok(Route::Root) => Ok(Step::Respond(root(version))),
        Ok(Route::Options) => Ok(Step::Respond(options())),
        Ok(Route::GetObject(parameters)) => Ok(
            Step::Respond(
                handle_get_object_signed_url(s3_configuration, parameters.bucket, parameters.path),
            ),
        ),
        Ok(Route::CreateObject(parameters)) => Ok(
            Step::Respond(
                handle_create_object_signed_url(
                    s3_configuration,
                    parameters.bucket,
                    parameters.path,
                ),
            ),
        ),
        Ok(Route::ListObjects(parameters)) => Ok(
            Step::Call(list_objects_request(parameters.bucket, parameters.prefix)),
        ),
        Ok(Route::CreateUpload(parameters)) => Ok(
            Step::Call(create_multipart_upload_request(parameters.bucket, parameters.path)),
        ),
        Ok(Route::PartUpload { upload_id, part_number, parameters }) => Ok(
            Step::Respond(
                handle_part_upload_presigned_url(
                    s3_configuration,
                    parameters.bucket,
                    parameters.path,
                    upload_id,
                    part_number,
                ),
            ),
        ),
        Ok(Route::AbortOrCompleteUpload { upload_id, parameters, body }) => match body {
            AbortOrCompleteUploadBody::Abort => Ok(
                Step::Call(
                    abort_multipart_upload_request(parameters.bucket, parameters.path, upload_id),
                ),
            ),
            AbortOrCompleteUploadBody::Complete { parts } => Ok(
                Step::Call(
                    complete_multipart_upload_request(
                        parameters.bucket,
                        parameters.path,
                        upload_id,
                        parts,
                    ),
                ),
            ),
        },
    }
}

/// Whether an answer of the store is the answer to a call: it is of the kind
/// of the call, and for a listing, the prefix can be cut from every key.
pub open spec fn answers(request: StoreRequestView, output: StoreOutputView) -> bool {
    match (request, output) {
        (
            StoreRequestView::ListObjects { bucket, delimiter, prefix },
            StoreOutputView::ListObjects(listing),
        ) => listable(listing, prefix),
        (
            StoreRequestView::CreateMultipartUpload { .. },
            StoreOutputView::CreateMultipartUpload(_),
        ) => true,
        (
            StoreRequestView::CompleteMultipartUpload { .. },
            StoreOutputView::CompleteMultipartUpload,
        ) => true,
        (
            StoreRequestView::AbortMultipartUpload { .. },
            StoreOutputView::AbortMultipartUpload,
        ) => true,
        _ => false,
    }
}

/// What the caller is told of the outcome of a call: what the handler of the
/// call makes of it.
pub open spec fn concluded(
    request: StoreRequestView,
    outcome: Result<StoreOutputView, StoreFailureView>,
) -> Result<ResponseView, ErrorView> {
    match request {
        StoreRequestView::ListObjects { bucket, delimiter, prefix } => listed(
            prefix,
            match outcome {
                Ok(output) => Ok(output->ListObjects_0),
                Err(failure) => Err(failure),
            },
        ),
        StoreRequestView::CreateMultipartUpload { .. } => created(
            match outcome {
                Ok(output) => Ok(output->CreateMultipartUpload_0),
                Err(failure) => Err(failure),
            },
        ),
        StoreRequestView::CompleteMultipartUpload { .. } => completed(
            match outcome {
                Ok(_) => Ok(()),
                Err(failure) => Err(failure),
            },
        ),
        StoreRequestView::AbortMultipartUpload { .. } => aborted(
            match outcome {
                Ok(_) => Ok(()),
                Err(failure) => Err(failure),
            },
        ),
    }
}

/// Tells whether `conclude` accepts this outcome for this call.
pub fn can_conclude(request: &StoreRequest, outcome: &Result<StoreOutput, StoreFailure>) -> (accepted:
    bool)
    ensures
        accepted == (outcome matches Ok(output) ==> answers(request@, output@)),
{
    match outcome {
        Err(_) => true,
        Ok(output) => match (request, output) {
            (StoreRequest::ListObjects { prefix, .. }, StoreOutput::ListObjects(listing)) => {
                can_list(listing, prefix)
            },
            (
                StoreRequest::CreateMultipartUpload { .. },
                StoreOutput::CreateMultipartUpload(_),
            ) => true,
            (
                StoreRequest::CompleteMultipartUpload { .. },
                StoreOutput::CompleteMultipartUpload,
            ) => true,
            (StoreRequest::AbortMultipartUpload { .. }, StoreOutput::AbortMultipartUpload) => true,
            _ => false,
        },
    }
}

/// Ends a request that needed the store: makes the answer of the outcome of
/// the call, or tells the failure.
pub fn conclude(request: &StoreRequest, outcome: Result<StoreOutput, StoreFailure>) -> (result:
    Result<Response, Error>)
    requires
        outcome matches Ok(output) ==> answers(request@, output@),
    ensures
        crate::error::result_view(result) == concluded(
            request@,
            crate::store::outcome_view(outcome),
        ),
{
    match request {
        StoreRequest::ListObjects { prefix, .. } => {
            let outcome = match outcome {
                Ok(StoreOutput::ListObjects(listing)) => Ok(listing),
                Ok(_) => {
                    proof {
                        assert(false);
                    }
                    vstd::pervasive::unreached()
                },
                Err(failure) => Err(failure),
            };
            handle_list_objects(prefix, outcome)
        },
        StoreRequest::CreateMultipartUpload { .. } => {
            let outcome = match outcome {
                Ok(StoreOutput::CreateMultipartUpload(output)) => Ok(output),
                Ok(_) => {
                    proof {
                        assert(false);
                    }
                    vstd::pervasive::unreached()
                },
                Err(failure) => Err(failure),
            };
            handle_create_multipart_upload(outcome)
        },
        StoreRequest::CompleteMultipartUpload { .. } => {
            let outcome = match outcome {
                Ok(_) => Ok(()),
                Err(failure) => Err(failure),
            };
            handle_complete_multipart_upload(outcome)
        },
        StoreRequest::AbortMultipartUpload { .. } => {
            let outcome = match outcome {
                Ok(_) => Ok(()),
                Err(failure) => Err(failure),
            };
            handle_abort_multipart_upload(outcome)
        },
    }
}

/// What the caller gets in the end: the answer of the handler, or the status
/// of the failure.
pub open spec fn reply_of(result: Result<ResponseView, ErrorView>) -> ResponseView {
    match result {
        Ok(response) => response,
        Err(error) => status_response(INTERNAL_SERVER_ERROR),
    }
}

/// Makes the answer of the result of a handler.
pub fn reply(result: Result<Response, Error>) -> (response: Response)
    ensures
        response@ == reply_of(crate::error::result_view(result)),
{
    match result {
        Ok(response) => response,
        Err(error) => handle_rejection(&Rejection::Failure(error)),
    }
}

/// Every answer of the gateway starts with the cross-origin headers: the
/// answer of a handler that signs, the answer that is made of the outcome of a
/// call, and the answer to a rejection.
pub proof fn lemma_every_answer_allows_any_origin(
    route: RouteView,
    version: Seq<char>,
    step: StepView,
    request: StoreRequestView,
    outcome: Result<StoreOutputView, StoreFailureView>,
    rejection: RejectionView,
)
    ensures
        begins(route, version, step) && step is Respond ==> allows_any_origin(step->Respond_0),
        allows_any_origin(reply_of(concluded(request, outcome))),
        allows_any_origin(status_response(rejection_status(rejection))),
{
}

/// A request that is refused reaches no handler and no call to the store: the
/// caller is told not found or unprocessable, and that is all.
pub proof fn lemma_refused_request_reaches_no_store(
    request: RequestView,
    version: Seq<char>,
    served: Result<StepView, RejectionView>,
)
    requires
        route_of(request) is Err,
        serves(request, version, served),
    ensures
        served is Err,
        served->Err_0 is NotFound || served->Err_0 is InvalidRequest,
        served->Err_0 is InvalidRequest ==> rejection_status(served->Err_0)
            == crate::response::UNPROCESSABLE_ENTITY,
        served->Err_0 is NotFound ==> rejection_status(served->Err_0) == crate::response::NOT_FOUND,
{
}

/// A request to a route of the API without the bucket in its query is told
/// unprocessable, and nothing is asked of the store.
pub proof fn lemma_missing_bucket_is_unprocessable(
    request: RequestView,
    version: Seq<char>,
    served: Result<StepView, RejectionView>,
)
    requires
        request.method != crate::request::Method::Options,
        crate::request::path_segments(request.path).len() > 0,
        crate::request::path_segments(request.path)[0] == crate::routes::API_ROOT_PATH@,
        crate::routes::is_api_route(
            request.method,
            crate::request::path_segments(request.path).skip(1),
        ),
        crate::request::required_parameter(request.query, "bucket"@) is None,
        serves(request, version, served),
    ensures
        served == Err::<StepView, RejectionView>(RejectionView::InvalidRequest),
        status_response(rejection_status(RejectionView::InvalidRequest)).status == 422,
{
    crate::routes::lemma_missing_bucket_is_invalid(request);
}

/// The URL of a part is answered at once, whatever the part and whatever else
/// was asked before or is asked meanwhile: the answer is OK, nothing is asked
/// of the store, and nothing but the request and the configuration is read.
pub proof fn lemma_part_url_is_answered_at_once(
    upload_id: Seq<char>,
    part_number: i64,
    parameters: crate::multipart_upload::part_upload_url::PartUploadQueryParametersView,
    version: Seq<char>,
    step: StepView,
)
    requires
        begins(RouteView::PartUpload { upload_id, part_number, parameters }, version, step),
    ensures
        step matches StepView::Respond(response) && response.status == OK,
{
}

/// A completion is handed to the store with the parts that the caller
/// reported, be they none: the gateway asks for no least number of parts. If
/// the store then fails the call, the caller is told that the completion
/// failed, with the cause that the store gave.
pub proof fn lemma_completion_is_forwarded(
    upload_id: Seq<char>,
    parameters: crate::multipart_upload::abort_or_complete::AbortOrCompleteUploadQueryParametersView,
    parts: Seq<crate::multipart_upload::abort_or_complete::CompletedUploadPartView>,
    version: Seq<char>,
    step: StepView,
    cause: Seq<char>,
)
    requires
        begins(
            RouteView::AbortOrCompleteUpload {
                upload_id,
                parameters,
                body: AbortOrCompleteUploadBodyView::Complete { parts },
            },
            version,
            step,
        ),
    ensures
        step matches StepView::Call(
            StoreRequestView::CompleteMultipartUpload {
                bucket,
                key,
                upload_id: named,
                parts: handed,
            },
        ) && {
            &&& bucket == parameters.bucket
            &&& key == parameters.path
            &&& named == upload_id
            &&& handed.len() == parts.len()
            &&& forall|i: int|
                0 <= i < parts.len() ==> #[trigger] handed[i]
                    == crate::multipart_upload::abort_or_complete::completed_part(parts[i])
        },
        concluded(step->Call_0, Err(StoreFailureView::Operation(cause))) == Err::<
            ResponseView,
            ErrorView,
        >(ErrorView::MultipartUploadCompletionError(cause)),
        crate::error::class_of(ErrorView::MultipartUploadCompletionError(cause))
            == crate::error::ErrorClass::BackendOperation,
{
}

/// A failure of the store to abort an upload is told as it is: the caller
/// gets the status of a failure, never that of a success, and the cause is the
/// one that the store gave.
pub proof fn lemma_abortion_failure_is_told(
    bucket: Seq<char>,
    key: Seq<char>,
    upload_id: Seq<char>,
    cause: Seq<char>,
)
    ensures
        concluded(
            abort_request(bucket, key, upload_id),
            Err(StoreFailureView::Operation(cause)),
        ) == Err::<ResponseView, ErrorView>(ErrorView::MultipartUploadAbortionError(cause)),
        crate::error::class_of(ErrorView::MultipartUploadAbortionError(cause))
            == crate::error::ErrorClass::BackendOperation,
        reply_of(
            concluded(
                abort_request(bucket, key, upload_id),
                Err(StoreFailureView::Operation(cause)),
            ),
        ).status == INTERNAL_SERVER_ERROR,
        INTERNAL_SERVER_ERROR != OK,
{
}

/// The URL that is signed for a part of an upload names the upload that the
/// store created: where the identifier that the store gave is plain, every URL
/// signed for a part of that upload ends with it.
pub proof fn lemma_part_url_names_the_created_upload(
    output: crate::store::CreateMultipartUploadOutputView,
    upload_id: Seq<char>,
    part_number: i64,
    bucket: Seq<char>,
    key: Seq<char>,
    url: Seq<char>,
)
    requires
        created(Ok(output)) == Ok::<ResponseView, ErrorView>(
            ok_json_response(
                BodyView::CreateUpload(
                    crate::multipart_upload::create::CreateUploadResponseView { upload_id },
                ),
            ),
        ),
        crate::sign::plain_value(upload_id),
        signed_url(url, OperationView::UploadPart { upload_id, part_number }, bucket, key),
    ensures
        output.upload_id == Some(upload_id),
        crate::sign::ends_with(url, "&uploadId="@ + upload_id),
{
}

} // verus!
