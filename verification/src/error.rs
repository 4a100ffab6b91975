//! The errors the library reports.

use vstd::prelude::*;
use vstd::string::StringExecFns;

verus! {

/// What can go wrong while generating, storing or configuring.
#[derive(Debug, PartialEq, Eq)]
pub enum BananaError {
    /// No API key is configured.
    MissingApiKey,
    /// The service answered with an error.
    ApiError {
        /// The service's message.
        message: String,
    },
    /// The service's answer could not be understood.
    InvalidResponse(String),
    /// No job has the given id.
    JobNotFound(String),
    /// A parameter has no valid value.
    InvalidParameter(String),
    /// An image could not be decoded or written.
    ImageError(String),
    /// The job store failed.
    DatabaseError(String),
    /// The configuration is not usable.
    ConfigError(String),
    /// Reading or writing failed.
    IoError(String),
    /// The service produced no usable image.
    GenerationFailed(String),
    /// The service took too long.
    Timeout,
}

/// The mathematical value of a `BananaError`.
pub enum BananaErrorView {
    MissingApiKey,
    ApiError { message: Seq<char> },
    InvalidResponse(Seq<char>),
    JobNotFound(Seq<char>),
    InvalidParameter(Seq<char>),
    ImageError(Seq<char>),
    DatabaseError(Seq<char>),
    ConfigError(Seq<char>),
    IoError(Seq<char>),
    GenerationFailed(Seq<char>),
    Timeout,
}

impl BananaErrorView {
    /// The error as shown to a reader.
    pub open spec fn text(self) -> Seq<char> {
        match self {
            BananaErrorView::MissingApiKey =>
                "API key not configured. Set GEMINI_API_KEY environment variable or run: banana config set api.key <your-key>"@,
            BananaErrorView::ApiError { message } => "API error: "@ + message,
            BananaErrorView::InvalidResponse(detail) => "Invalid API response: "@ + detail,
            BananaErrorView::JobNotFound(id) => "Job not found: "@ + id,
            BananaErrorView::InvalidParameter(detail) => "Invalid parameter: "@ + detail,
            BananaErrorView::ImageError(detail) => "Image processing error: "@ + detail,
            BananaErrorView::DatabaseError(detail) => "Database error: "@ + detail,
            BananaErrorView::ConfigError(detail) => "Config error: "@ + detail,
            BananaErrorView::IoError(detail) => "IO error: "@ + detail,
            BananaErrorView::GenerationFailed(detail) => "Generation failed: "@ + detail,
            BananaErrorView::Timeout => "Request timeout"@,
        }
    }
}

impl View for BananaError {
    type V = BananaErrorView;

    open spec fn view(&self) -> BananaErrorView {
        match self {
            BananaError::MissingApiKey => BananaErrorView::MissingApiKey,
            BananaError::ApiError { message } => BananaErrorView::ApiError { message: message@ },
            BananaError::InvalidResponse(detail) => BananaErrorView::InvalidResponse(detail@),
            BananaError::JobNotFound(id) => BananaErrorView::JobNotFound(id@),
            BananaError::InvalidParameter(detail) => BananaErrorView::InvalidParameter(detail@),
            BananaError::ImageError(detail) => BananaErrorView::ImageError(detail@),
            BananaError::DatabaseError(detail) => BananaErrorView::DatabaseError(detail@),
            BananaError::ConfigError(detail) => BananaErrorView::ConfigError(detail@),
            BananaError::IoError(detail) => BananaErrorView::IoError(detail@),
            BananaError::GenerationFailed(detail) => BananaErrorView::GenerationFailed(detail@),
            BananaError::Timeout => BananaErrorView::Timeout,
        }
    }
}

/// `head` followed by `tail`.
fn prefixed(head: &str, tail: &String) -> (r: String)
    ensures
        r@ == head@ + tail@,
{
    let mut s = String::from_str(head);
    s.append(tail.as_str());
    s
}

impl Clone for BananaError {
    fn clone(&self) -> (r: Self)
        ensures
            r@ == self@,
    {
        match self {
            BananaError::MissingApiKey => BananaError::MissingApiKey,
            BananaError::ApiError { message } => BananaError::ApiError { message: message.clone() },
            BananaError::InvalidResponse(detail) => BananaError::InvalidResponse(detail.clone()),
            BananaError::JobNotFound(id) => BananaError::JobNotFound(id.clone()),
            BananaError::InvalidParameter(detail) => BananaError::InvalidParameter(detail.clone()),
            BananaError::ImageError(detail) => BananaError::ImageError(detail.clone()),
            BananaError::DatabaseError(detail) => BananaError::DatabaseError(detail.clone()),
            BananaError::ConfigError(detail) => BananaError::ConfigError(detail.clone()),
            BananaError::IoError(detail) => BananaError::IoError(detail.clone()),
            BananaError::GenerationFailed(detail) => BananaError::GenerationFailed(detail.clone()),
            BananaError::Timeout => BananaError::Timeout,
        }
    }
}

impl BananaError {
    /// The error as shown to a reader.
    pub fn to_string(&self) -> (r: String)
        ensures
            r@ == self@.text(),
    {
        match self {
            BananaError::MissingApiKey => String::from_str(
                "API key not configured. Set GEMINI_API_KEY environment variable or run: banana config set api.key <your-key>",
            ),
            BananaError::ApiError { message } => prefixed("API error: ", message),
            BananaError::InvalidResponse(detail) => prefixed("Invalid API response: ", detail),
            BananaError::JobNotFound(id) => prefixed("Job not found: ", id),
            BananaError::InvalidParameter(detail) => prefixed("Invalid parameter: ", detail),
            BananaError::ImageError(detail) => prefixed("Image processing error: ", detail),
            BananaError::DatabaseError(detail) => prefixed("Database error: ", detail),
            BananaError::ConfigError(detail) => prefixed("Config error: ", detail),
            BananaError::IoError(detail) => prefixed("IO error: ", detail),
            BananaError::GenerationFailed(detail) => prefixed("Generation failed: ", detail),
            BananaError::Timeout => String::from_str("Request timeout"),
        }
    }
}

} // verus!
