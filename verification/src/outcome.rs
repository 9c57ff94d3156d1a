//! How an upload ends: the reference path of the stored asset, or one of
//! the failures of the service, each with its HTTP status and body.

use vstd::prelude::*;
use vstd::string::StringExecFns;

verus! {

/// Why a request was bad.
#[derive(Clone, Copy, Debug, PartialEq, Eq, Structural)]
pub enum BadRequestCause {
    /// The multipart body could not be read or decoded.
    MalformedBody,
    /// The body held no field.
    NoFile,
}

/// The failures of an upload.
#[derive(Clone, Copy, Debug, PartialEq, Eq, Structural)]
pub enum UploadError {
    /// The declared subtype is none of the accepted ones. No file was created.
    UnsupportedMediaType,
    /// The field grew past the size ceiling while it was streamed.
    PayloadTooLarge,
    BadRequest(BadRequestCause),
    /// The file could not be created or written. The message of this
    /// failure is a general one: the host knows the cause and may say more.
    InternalStorageError,
}

/// The failure of a retrieval.
#[derive(Clone, Copy, Debug, PartialEq, Eq, Structural)]
pub enum RetrievalError {
    /// The name does not resolve to a readable file.
    NotFound,
}

/// The result of one upload request.
#[derive(Debug, PartialEq, Eq)]
pub enum Outcome {
    /// The asset was stored; the text is its reference path.
    Stored(String),
    Failed(UploadError),
}

/// `Outcome` with its path as a sequence of characters.
pub enum OutcomeView {
    Stored(Seq<char>),
    Failed(UploadError),
}

impl View for Outcome {
    type V = OutcomeView;

    open spec fn view(&self) -> OutcomeView {
        match self {
            Outcome::Stored(path) => OutcomeView::Stored(path@),
            Outcome::Failed(error) => OutcomeView::Failed(*error),
        }
    }
}

/// The HTTP status of each failure.
pub open spec fn error_status(error: UploadError) -> u16 {
    match error {
        UploadError::UnsupportedMediaType => 415,
        UploadError::PayloadTooLarge => 413,
        UploadError::BadRequest(_) => 400,
        UploadError::InternalStorageError => 500,
    }
}

/// The response body of each failure.
pub open spec fn error_message(error: UploadError) -> Seq<char> {
    match error {
        UploadError::UnsupportedMediaType => "Only JPEG, PNG, and GIF images are allowed"@,
        UploadError::PayloadTooLarge => "File size exceeds limit"@,
        UploadError::BadRequest(BadRequestCause::MalformedBody) =>
            "Failed to process the uploaded file"@,
        UploadError::BadRequest(BadRequestCause::NoFile) => "No file uploaded in the body"@,
        UploadError::InternalStorageError => "Internal Server Error"@,
    }
}

/// The HTTP status of an outcome: 200 for a stored asset.
pub open spec fn outcome_status(outcome: OutcomeView) -> u16 {
    match outcome {
        OutcomeView::Stored(_) => 200,
        OutcomeView::Failed(error) => error_status(error),
    }
}

/// The response body of an outcome: the reference path of a stored asset,
/// the message of a failure.
pub open spec fn outcome_body(outcome: OutcomeView) -> Seq<char> {
    match outcome {
        OutcomeView::Stored(path) => path,
        OutcomeView::Failed(error) => error_message(error),
    }
}

impl UploadError {
    /// The HTTP status that reports this failure.
    pub fn status(&self) -> (r: u16)
        ensures
            r == error_status(*self),
    {
        match self {
            UploadError::UnsupportedMediaType => 415,
            UploadError::PayloadTooLarge => 413,
            UploadError::BadRequest(_) => 400,
            UploadError::InternalStorageError => 500,
        }
    }

    /// The response body that reports this failure.
    pub fn message(&self) -> (r: &'static str)
        ensures
            r@ == error_message(*self),
    {
        match self {
            UploadError::UnsupportedMediaType => "Only JPEG, PNG, and GIF images are allowed",
            UploadError::PayloadTooLarge => "File size exceeds limit",
            UploadError::BadRequest(BadRequestCause::MalformedBody) =>
                "Failed to process the uploaded file",
            UploadError::BadRequest(BadRequestCause::NoFile) => "No file uploaded in the body",
            UploadError::InternalStorageError => "Internal Server Error",
        }
    }
}

impl RetrievalError {
    /// The HTTP status that reports this failure.
    pub fn status(&self) -> (r: u16)
        ensures
            r == 404,
    {
        404
    }
}

impl Outcome {
    /// The HTTP status of the response.
    pub fn status(&self) -> (r: u16)
        ensures
            r == outcome_status(self@),
    {
        match self {
            Outcome::Stored(_) => 200,
            Outcome::Failed(error) => error.status(),
        }
    }

    /// The body of the response.
    pub fn body(&self) -> (r: String)
        ensures
            r@ == outcome_body(self@),
    {
        match self {
            Outcome::Stored(path) => path.clone(),
            Outcome::Failed(error) => String::from_str(error.message()),
        }
    }
}

} // verus!
