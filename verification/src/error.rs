//! The errors the service reports, their HTTP status codes and the messages
//! shown to users and to operators.

use vstd::prelude::*;

use crate::text::{owned, push_str};

verus! {

/// Every failure the service distinguishes.
#[derive(Debug)]
pub enum AppError {
    InvalidVideoId,
    MetadataUnavailable,
    MediaAcquisitionFailed(String),
    MediaProcessingFailed(String),
    MediaAcquisitionTimeout,
    YtDlpNotInstalled,
    YtDlpMetadataFailed(String),
    YtDlpAcquisitionFailed(String),
    YtDlpExecutionFailed(String),
    UnsupportedMedia,
    SessionNotFound,
    MediaNotReady,
    Configuration(String),
    Internal(String),
}

/// The message shown to users for each error; it never includes details.
pub open spec fn public_message_spec(e: AppError) -> Seq<char> {
    match e {
        AppError::InvalidVideoId => "The supplied video identifier is invalid."@,
        AppError::MetadataUnavailable => "No authorized media matched that video identifier."@,
        AppError::MediaAcquisitionFailed(_)
        | AppError::MediaProcessingFailed(_)
        | AppError::MediaAcquisitionTimeout
        | AppError::YtDlpMetadataFailed(_)
        | AppError::YtDlpAcquisitionFailed(_)
        | AppError::YtDlpExecutionFailed(_)
        | AppError::UnsupportedMedia => "The media could not be acquired."@,
        AppError::YtDlpNotInstalled => "The yt-dlp executable is not available on this system."@,
        AppError::SessionNotFound => "The playback session does not exist or has expired."@,
        AppError::MediaNotReady => "The media is still being prepared."@,
        AppError::Configuration(_) | AppError::Internal(_) => "An internal error occurred."@,
    }
}

/// The HTTP status code each error is answered with.
pub open spec fn status_code_spec(e: AppError) -> u16 {
    match e {
        AppError::InvalidVideoId => 400,
        AppError::MetadataUnavailable | AppError::SessionNotFound => 404,
        AppError::MediaNotReady => 409,
        AppError::MediaAcquisitionFailed(_)
        | AppError::MediaProcessingFailed(_)
        | AppError::MediaAcquisitionTimeout
        | AppError::YtDlpMetadataFailed(_)
        | AppError::YtDlpAcquisitionFailed(_)
        | AppError::UnsupportedMedia => 422,
        AppError::YtDlpExecutionFailed(_)
        | AppError::YtDlpNotInstalled
        | AppError::Configuration(_)
        | AppError::Internal(_) => 500,
    }
}

/// The operator-facing description of each error.
pub open spec fn message_spec(e: AppError) -> Seq<char> {
    match e {
        AppError::InvalidVideoId => "invalid video identifier"@,
        AppError::MetadataUnavailable => "video metadata is unavailable"@,
        AppError::MediaAcquisitionFailed(d) => "media acquisition failed: "@ + d@,
        AppError::MediaProcessingFailed(d) => "media processing failed: "@ + d@,
        AppError::MediaAcquisitionTimeout => "media acquisition timed out"@,
        AppError::YtDlpNotInstalled => "yt-dlp executable was not found"@,
        AppError::YtDlpMetadataFailed(d) => "yt-dlp metadata failed: "@ + d@,
        AppError::YtDlpAcquisitionFailed(d) => "yt-dlp acquisition failed: "@ + d@,
        AppError::YtDlpExecutionFailed(d) => "yt-dlp execution failed: "@ + d@,
        AppError::UnsupportedMedia => "unsupported media"@,
        AppError::SessionNotFound => "playback session was not found"@,
        AppError::MediaNotReady => "media is not ready"@,
        AppError::Configuration(d) => "invalid application configuration: "@ + d@,
        AppError::Internal(d) => "internal error: "@ + d@,
    }
}

/// The HTML page an error is answered with.
pub open spec fn error_page_spec(e: AppError) -> Seq<char> {
    "<!doctype html><html><body><h1>Unable to prepare video</h1><p>"@ + public_message_spec(e)
        + "</p></body></html>"@
}

impl AppError {
    /// An internal error that carries the display text of `error`.
    pub fn internal(error: impl std::fmt::Display) -> (r: Self)
        ensures
            r matches AppError::Internal(d) && vstd::string::to_string_from_display_ensures(&error, d),
    {
        AppError::Internal(error.to_string())
    }

    /// The message shown to users.
    pub fn public_message(&self) -> (r: &'static str)
        ensures
            r@ == public_message_spec(*self),
    {
        match self {
            AppError::InvalidVideoId => "The supplied video identifier is invalid.",
            AppError::MetadataUnavailable => "No authorized media matched that video identifier.",
            AppError::MediaAcquisitionFailed(_)
            | AppError::MediaProcessingFailed(_)
            | AppError::MediaAcquisitionTimeout
            | AppError::YtDlpMetadataFailed(_)
            | AppError::YtDlpAcquisitionFailed(_)
            | AppError::YtDlpExecutionFailed(_)
            | AppError::UnsupportedMedia => "The media could not be acquired.",
            AppError::YtDlpNotInstalled => "The yt-dlp executable is not available on this system.",
            AppError::SessionNotFound => "The playback session does not exist or has expired.",
            AppError::MediaNotReady => "The media is still being prepared.",
            AppError::Configuration(_) | AppError::Internal(_) => "An internal error occurred.",
        }
    }

    /// The HTTP status code of the response.
    pub fn status_code(&self) -> (r: u16)
        ensures
            r == status_code_spec(*self),
    {
        match self {
            AppError::InvalidVideoId => 400,
            AppError::MetadataUnavailable | AppError::SessionNotFound => 404,
            AppError::MediaNotReady => 409,
            AppError::MediaAcquisitionFailed(_)
            | AppError::MediaProcessingFailed(_)
            | AppError::MediaAcquisitionTimeout
            | AppError::YtDlpMetadataFailed(_)
            | AppError::YtDlpAcquisitionFailed(_)
            | AppError::UnsupportedMedia => 422,
            AppError::YtDlpExecutionFailed(_)
            | AppError::YtDlpNotInstalled
            | AppError::Configuration(_)
            | AppError::Internal(_) => 500,
        }
    }

    /// The operator-facing description, as the error's display text.
    pub fn message(&self) -> (r: String)
        ensures
            r@ == message_spec(*self),
    {
        match self {
            AppError::InvalidVideoId => owned("invalid video identifier"),
            AppError::MetadataUnavailable => owned("video metadata is unavailable"),
            AppError::MediaAcquisitionFailed(d) => {
                let mut s = owned("media acquisition failed: ");
                push_str(&mut s, d.as_str());
                s
            },
            AppError::MediaProcessingFailed(d) => {
                let mut s = owned("media processing failed: ");
                push_str(&mut s, d.as_str());
                s
            },
            AppError::MediaAcquisitionTimeout => owned("media acquisition timed out"),
            AppError::YtDlpNotInstalled => owned("yt-dlp executable was not found"),
            AppError::YtDlpMetadataFailed(d) => {
                let mut s = owned("yt-dlp metadata failed: ");
                push_str(&mut s, d.as_str());
                s
            },
            AppError::YtDlpAcquisitionFailed(d) => {
                let mut s = owned("yt-dlp acquisition failed: ");
                push_str(&mut s, d.as_str());
                s
            },
            AppError::YtDlpExecutionFailed(d) => {
                let mut s = owned("yt-dlp execution failed: ");
                push_str(&mut s, d.as_str());
                s
            },
            AppError::UnsupportedMedia => owned("unsupported media"),
            AppError::SessionNotFound => owned("playback session was not found"),
            AppError::MediaNotReady => owned("media is not ready"),
            AppError::Configuration(d) => {
                let mut s = owned("invalid application configuration: ");
                push_str(&mut s, d.as_str());
                s
            },
            AppError::Internal(d) => {
                let mut s = owned("internal error: ");
                push_str(&mut s, d.as_str());
                s
            },
        }
    }

    /// The HTML body of the error response.
    pub fn error_page(&self) -> (r: String)
        ensures
            r@ == error_page_spec(*self),
    {
        let mut s = owned("<!doctype html><html><body><h1>Unable to prepare video</h1><p>");
        push_str(&mut s, self.public_message());
        push_str(&mut s, "</p></body></html>");
        s
    }
}

} // verus!
