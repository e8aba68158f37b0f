//! Why an acquisition failed.

use crate::text::{decimal, push_decimal};
use vstd::prelude::*;

verus! {

/// A failure of resolution or download. The first failure ends the
/// acquisition; nothing is retried.
#[derive(Debug, PartialEq, Eq)]
pub enum YtdlError {
    /// The transport failed, or the server answered outside 200 to 299.
    Request(String),
    /// The response body is not a JSON document.
    Json(String),
    /// The file system refused an operation.
    Io(String),
    /// The response has no video details: the video is private, removed or blocked.
    VideoNotFound(String),
    /// The format carries no URL.
    FormatNotAvailable(u32),
    /// The video exists but the response lists no format.
    NoSuitableFormat,
    PlayabilityError { status: String, reason: String },
    SignatureRequired,
    RateLimited,
    InvalidVideoId(String),
    DownloadFailed(String),
    /// The response is a JSON document of another shape than expected; the
    /// text names the member that could not be read.
    ParseError(String),
}

/// The mathematical value of a [`YtdlError`].
pub enum YtdlFailure {
    Request(Seq<char>),
    Json(Seq<char>),
    Io(Seq<char>),
    VideoNotFound(Seq<char>),
    FormatNotAvailable(u32),
    NoSuitableFormat,
    PlayabilityError { status: Seq<char>, reason: Seq<char> },
    SignatureRequired,
    RateLimited,
    InvalidVideoId(Seq<char>),
    DownloadFailed(Seq<char>),
    ParseError(Seq<char>),
}

impl View for YtdlError {
    type V = YtdlFailure;

    open spec fn view(&self) -> YtdlFailure {
        match self {
            YtdlError::Request(m) => YtdlFailure::Request(m@),
            YtdlError::Json(m) => YtdlFailure::Json(m@),
            YtdlError::Io(m) => YtdlFailure::Io(m@),
            YtdlError::VideoNotFound(id) => YtdlFailure::VideoNotFound(id@),
            YtdlError::FormatNotAvailable(itag) => YtdlFailure::FormatNotAvailable(*itag),
            YtdlError::NoSuitableFormat => YtdlFailure::NoSuitableFormat,
            YtdlError::PlayabilityError { status, reason } => YtdlFailure::PlayabilityError {
                status: status@,
                reason: reason@,
            },
            YtdlError::SignatureRequired => YtdlFailure::SignatureRequired,
            YtdlError::RateLimited => YtdlFailure::RateLimited,
            YtdlError::InvalidVideoId(id) => YtdlFailure::InvalidVideoId(id@),
            YtdlError::DownloadFailed(m) => YtdlFailure::DownloadFailed(m@),
            YtdlError::ParseError(m) => YtdlFailure::ParseError(m@),
        }
    }
}

impl YtdlFailure {
    /// The sentence that describes the failure.
    pub open spec fn message(self) -> Seq<char> {
        match self {
            YtdlFailure::Request(m) => "HTTP request failed: "@ + m,
            YtdlFailure::Json(m) => "JSON parsing failed: "@ + m,
            YtdlFailure::Io(m) => "IO error: "@ + m,
            YtdlFailure::VideoNotFound(id) => "Video not found: "@ + id,
            YtdlFailure::FormatNotAvailable(itag) => "Format not available: itag="@ + decimal(
                itag as nat,
            ),
            YtdlFailure::NoSuitableFormat => "No suitable format found"@,
            YtdlFailure::PlayabilityError { status, reason } => "Playability error: "@ + status
                + " - "@ + reason,
            YtdlFailure::SignatureRequired => "Signature decryption required (not implemented)"@,
            YtdlFailure::RateLimited => "Rate limited by YouTube"@,
            YtdlFailure::InvalidVideoId(id) => "Invalid video ID: "@ + id,
            YtdlFailure::DownloadFailed(m) => "Download failed: "@ + m,
            YtdlFailure::ParseError(m) => "Parse error: "@ + m,
        }
    }
}

/// Whether an HTTP status code reports success: 200 to 299.
pub open spec fn is_success(status: u16) -> bool {
    200 <= status <= 299
}

/// The failure for an answer whose status does not report success.
pub open spec fn status_failure(status: u16) -> YtdlFailure {
    YtdlFailure::Request("unexpected HTTP status "@ + decimal(status as nat))
}

/// Judges the status of an answer: any status outside 200 to 299 is a
/// failed request.
pub fn check_status(status: u16) -> (r: Result<(), YtdlError>)
    ensures
        is_success(status) ==> r is Ok,
        !is_success(status) ==> (r matches Err(e) && e@ == status_failure(status)),
{
    if 200 <= status && status <= 299 {
        Ok(())
    } else {
        let mut message = String::from_str("unexpected HTTP status ");
        push_decimal(&mut message, status as u64);
        Err(YtdlError::Request(message))
    }
}

fn sentence(prefix: &str, detail: &str) -> (r: String)
    ensures
        r@ == prefix@ + detail@,
{
    let mut out = String::from_str(prefix);
    out.append(detail);
    out
}

impl YtdlError {
    /// The sentence that describes the failure.
    pub fn message(&self) -> (r: String)
        ensures
            r@ == self@.message(),
    {
        match self {
            YtdlError::Request(m) => sentence("HTTP request failed: ", m.as_str()),
            YtdlError::Json(m) => sentence("JSON parsing failed: ", m.as_str()),
            YtdlError::Io(m) => sentence("IO error: ", m.as_str()),
            YtdlError::VideoNotFound(id) => sentence("Video not found: ", id.as_str()),
            YtdlError::FormatNotAvailable(itag) => {
                let mut out = String::from_str("Format not available: itag=");
                push_decimal(&mut out, *itag as u64);
                out
            },
            YtdlError::NoSuitableFormat => String::from_str("No suitable format found"),
            YtdlError::PlayabilityError { status, reason } => {
                let mut out = sentence("Playability error: ", status.as_str());
                out.append(" - ");
                out.append(reason.as_str());
                out
            },
            YtdlError::SignatureRequired => String::from_str(
                "Signature decryption required (not implemented)",
            ),
            YtdlError::RateLimited => String::from_str("Rate limited by YouTube"),
            YtdlError::InvalidVideoId(id) => sentence("Invalid video ID: ", id.as_str()),
            YtdlError::DownloadFailed(m) => sentence("Download failed: ", m.as_str()),
            YtdlError::ParseError(m) => sentence("Parse error: ", m.as_str()),
        }
    }
}

} // verus!
