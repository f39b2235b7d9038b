//! The calls that the gateway makes to the store and the answers that come
//! back, as plain values. The gateway decides which call to make and what to
//! tell the caller of its outcome; making the call is left to whoever holds
//! the connection.

use vstd::prelude::*;

verus! {

/// One part of an upload as the store takes it on completion.
#[derive(Debug, Clone, PartialEq, Eq)]
pub struct CompletedPart {
    pub e_tag: Option<String>,
    pub part_number: Option<i64>,
}

pub struct CompletedPartView {
    pub e_tag: Option<Seq<char>>,
    pub part_number: Option<i64>,
}

impl View for CompletedPart {
    type V = CompletedPartView;

    open spec fn view(&self) -> CompletedPartView {
        CompletedPartView { e_tag: self.e_tag.deep_view(), part_number: self.part_number }
    }
}

impl DeepView for CompletedPart {
    type V = CompletedPartView;

    open spec fn deep_view(&self) -> CompletedPartView {
        self@
    }
}

/// A call to the store.
#[derive(Debug, Clone, PartialEq, Eq)]
pub enum StoreRequest {
    /// List the keys under a prefix, grouped at the delimiter.
    ListObjects { bucket: String, delimiter: Option<String>, prefix: Option<String> },
    /// Open a multipart upload of an object.
    CreateMultipartUpload { bucket: String, key: String },
    /// Make the object of an upload from its parts.
    CompleteMultipartUpload {
        bucket: String,
        key: String,
        upload_id: String,
        parts: Vec<CompletedPart>,
    },
    /// Give an upload up.
    AbortMultipartUpload { bucket: String, key: String, upload_id: String },
}

pub enum StoreRequestView {
    ListObjects { bucket: Seq<char>, delimiter: Option<Seq<char>>, prefix: Option<Seq<char>> },
    CreateMultipartUpload { bucket: Seq<char>, key: Seq<char> },
    CompleteMultipartUpload {
        bucket: Seq<char>,
        key: Seq<char>,
        upload_id: Seq<char>,
        parts: Seq<CompletedPartView>,
    },
    AbortMultipartUpload { bucket: Seq<char>, key: Seq<char>, upload_id: Seq<char> },
}

impl View for StoreRequest {
    type V = StoreRequestView;

    open spec fn view(&self) -> StoreRequestView {
        match self {
            StoreRequest::ListObjects { bucket, delimiter, prefix } => StoreRequestView::ListObjects {
                bucket: bucket@,
                delimiter: delimiter.deep_view(),
                prefix: prefix.deep_view(),
            },
            StoreRequest::CreateMultipartUpload { bucket, key } => {
                StoreRequestView::CreateMultipartUpload { bucket: bucket@, key: key@ }
            },
            StoreRequest::CompleteMultipartUpload { bucket, key, upload_id, parts } => {
                StoreRequestView::CompleteMultipartUpload {
                    bucket: bucket@,
                    key: key@,
                    upload_id: upload_id@,
                    parts: parts.deep_view(),
                }
            },
            StoreRequest::AbortMultipartUpload { bucket, key, upload_id } => {
                StoreRequestView::AbortMultipartUpload {
                    bucket: bucket@,
                    key: key@,
                    upload_id: upload_id@,
                }
            },
        }
    }
}

/// The answer of the store to a listing: the keys of the objects directly
/// under the prefix, and the prefixes that stand for one level of directories.
/// Each list, and each key in it, may be absent.
#[derive(Debug, Clone, PartialEq, Eq)]
pub struct ListObjectsOutput {
    pub contents: Option<Vec<Option<String>>>,
    pub common_prefixes: Option<Vec<Option<String>>>,
}

pub struct ListObjectsOutputView {
    pub contents: Option<Seq<Option<Seq<char>>>>,
    pub common_prefixes: Option<Seq<Option<Seq<char>>>>,
}

impl View for ListObjectsOutput {
    type V = ListObjectsOutputView;

    open spec fn view(&self) -> ListObjectsOutputView {
        ListObjectsOutputView {
            contents: self.contents.deep_view(),
            common_prefixes: self.common_prefixes.deep_view(),
        }
    }
}

/// The answer of the store to the creation of an upload.
#[derive(Debug, Clone, PartialEq, Eq)]
pub struct CreateMultipartUploadOutput {
    pub upload_id: Option<String>,
}

pub struct CreateMultipartUploadOutputView {
    pub upload_id: Option<Seq<char>>,
}

impl View for CreateMultipartUploadOutput {
    type V = CreateMultipartUploadOutputView;

    open spec fn view(&self) -> CreateMultipartUploadOutputView {
        CreateMultipartUploadOutputView { upload_id: self.upload_id.deep_view() }
    }
}

/// How a call to the store failed.
#[derive(Debug, Clone, PartialEq, Eq)]
pub enum StoreFailure {
    /// No client could be made for the store; the call was not made.
    Connection(String),
    /// The call was made and failed.
    Operation(String),
}

pub enum StoreFailureView {
    Connection(Seq<char>),
    Operation(Seq<char>),
}

impl View for StoreFailure {
    type V = StoreFailureView;

    open spec fn view(&self) -> StoreFailureView {
        match self {
            StoreFailure::Connection(cause) => StoreFailureView::Connection(cause@),
            StoreFailure::Operation(cause) => StoreFailureView::Operation(cause@),
        }
    }
}

/// The outcome of a call to the store, as the contracts see it.
pub open spec fn outcome_view<T: View>(outcome: Result<T, StoreFailure>) -> Result<
    T::V,
    StoreFailureView,
> {
    match outcome {
        Ok(output) => Ok(output@),
        Err(failure) => Err(failure@),
    }
}

/// The answer of the store to a call that it carried out.
#[derive(Debug, Clone, PartialEq, Eq)]
pub enum StoreOutput {
    ListObjects(ListObjectsOutput),
    CreateMultipartUpload(CreateMultipartUploadOutput),
    CompleteMultipartUpload,
    AbortMultipartUpload,
}

pub enum StoreOutputView {
    ListObjects(ListObjectsOutputView),
    CreateMultipartUpload(CreateMultipartUploadOutputView),
    CompleteMultipartUpload,
    AbortMultipartUpload,
}

impl View for StoreOutput {
    type V = StoreOutputView;

    open spec fn view(&self) -> StoreOutputView {
        match self {
            StoreOutput::ListObjects(output) => StoreOutputView::ListObjects(output@),
            StoreOutput::CreateMultipartUpload(output) => StoreOutputView::CreateMultipartUpload(
                output@,
            ),
            StoreOutput::CompleteMultipartUpload => StoreOutputView::CompleteMultipartUpload,
            StoreOutput::AbortMultipartUpload => StoreOutputView::AbortMultipartUpload,
        }
    }
}

} // verus!
