use localtube::error::AppError;

#[test]
fn internal_error_keeps_display_text() {
    match AppError::internal("disk on fire") {
        AppError::Internal(message) => assert_eq!(message, "disk on fire"),
        other => panic!("unexpected {:?}", other),
    }
    match AppError::internal(42) {
        AppError::Internal(message) => assert_eq!(message, "42"),
        other => panic!("unexpected {:?}", other),
    }
}

#[test]
fn status_codes_follow_error_kinds() {
    assert_eq!(AppError::InvalidVideoId.status_code(), 400);
    assert_eq!(AppError::MetadataUnavailable.status_code(), 404);
    assert_eq!(AppError::SessionNotFound.status_code(), 404);
    assert_eq!(AppError::MediaNotReady.status_code(), 409);
    assert_eq!(AppError::MediaAcquisitionFailed("x".into()).status_code(), 422);
    assert_eq!(AppError::MediaProcessingFailed("x".into()).status_code(), 422);
    assert_eq!(AppError::MediaAcquisitionTimeout.status_code(), 422);
    assert_eq!(AppError::YtDlpMetadataFailed("x".into()).status_code(), 422);
    assert_eq!(AppError::YtDlpAcquisitionFailed("x".into()).status_code(), 422);
    assert_eq!(AppError::UnsupportedMedia.status_code(), 422);
    assert_eq!(AppError::YtDlpExecutionFailed("x".into()).status_code(), 500);
    assert_eq!(AppError::YtDlpNotInstalled.status_code(), 500);
    assert_eq!(AppError::Configuration("x".into()).status_code(), 500);
    assert_eq!(AppError::Internal("x".into()).status_code(), 500);
}

#[test]
fn public_messages_hide_details() {
    assert_eq!(
        AppError::MediaAcquisitionFailed("secret path".into()).public_message(),
        "The media could not be acquired."
    );
    assert_eq!(
        AppError::Internal("secret".into()).public_message(),
        "An internal error occurred."
    );
    assert_eq!(
        AppError::InvalidVideoId.public_message(),
        "The supplied video identifier is invalid."
    );
    assert_eq!(
        AppError::YtDlpNotInstalled.public_message(),
        "The yt-dlp executable is not available on this system."
    );
}

#[test]
fn messages_include_details() {
    assert_eq!(
        AppError::MediaAcquisitionFailed("ffmpeg exited unsuccessfully".into()).message(),
        "media acquisition failed: ffmpeg exited unsuccessfully"
    );
    assert_eq!(
        AppError::Configuration("bad".into()).message(),
        "invalid application configuration: bad"
    );
    assert_eq!(AppError::SessionNotFound.message(), "playback session was not found");
}

#[test]
fn error_page_wraps_public_message() {
    assert_eq!(
        AppError::MediaNotReady.error_page(),
        "<!doctype html><html><body><h1>Unable to prepare video</h1><p>The media is still being prepared.</p></body></html>"
    );
}
