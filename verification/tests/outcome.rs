use cdn::outcome::{BadRequestCause, Outcome, RetrievalError, UploadError};

#[test]
fn stored_is_ok_with_the_path_as_body() {
    let outcome = Outcome::Stored(String::from("/uploads/a.png"));
    assert_eq!(outcome.status(), 200);
    assert_eq!(outcome.body(), "/uploads/a.png");
}

#[test]
fn unsupported_media_type_is_415() {
    let error = UploadError::UnsupportedMediaType;
    assert_eq!(error.status(), 415);
    assert_eq!(error.message(), "Only JPEG, PNG, and GIF images are allowed");
    assert_eq!(Outcome::Failed(error).status(), 415);
    assert_eq!(Outcome::Failed(error).body(), "Only JPEG, PNG, and GIF images are allowed");
}

#[test]
fn payload_too_large_is_413() {
    let error = UploadError::PayloadTooLarge;
    assert_eq!(error.status(), 413);
    assert_eq!(error.message(), "File size exceeds limit");
    assert_eq!(Outcome::Failed(error).status(), 413);
    assert_eq!(Outcome::Failed(error).body(), "File size exceeds limit");
}

#[test]
fn malformed_body_is_400() {
    let error = UploadError::BadRequest(BadRequestCause::MalformedBody);
    assert_eq!(error.status(), 400);
    assert_eq!(error.message(), "Failed to process the uploaded file");
    assert_eq!(Outcome::Failed(error).status(), 400);
    assert_eq!(Outcome::Failed(error).body(), "Failed to process the uploaded file");
}

#[test]
fn no_file_is_400() {
    let error = UploadError::BadRequest(BadRequestCause::NoFile);
    assert_eq!(error.status(), 400);
    assert_eq!(error.message(), "No file uploaded in the body");
    assert_eq!(Outcome::Failed(error).status(), 400);
    assert_eq!(Outcome::Failed(error).body(), "No file uploaded in the body");
}

#[test]
fn storage_error_is_500() {
    let error = UploadError::InternalStorageError;
    assert_eq!(error.status(), 500);
    assert_eq!(error.message(), "Internal Server Error");
    assert_eq!(Outcome::Failed(error).status(), 500);
}

#[test]
fn not_found_is_404() {
    assert_eq!(RetrievalError::NotFound.status(), 404);
}
