//! The error taxonomy of the library.

use vstd::prelude::*;

verus! {

/// Every failure the library reports. Transport failures are classified
/// from plain observations (timeout flag, HTTP status); decode failures
/// carry no payload beyond what callers need to react.
#[derive(Debug)]
pub enum YouTubeError {
    /// The watch page is neither live nor a replay.
    NotStream(String),
    /// The bootstrap page holds no API key marker.
    NoInnerTubeKey,
    /// The bootstrap page holds no chat continuation marker.
    NoChatContinuation,
    /// A chat page response lacks its continuation contents.
    MissingContinuationContents,
    /// A replay continuation returned no actions: the feed is exhausted.
    EndOfContinuation,
    /// The transport reported a timeout.
    TimedOut,
    /// The transport reported a non-success HTTP status.
    BadStatus(u16),
    /// Any other transport failure.
    GeneralRequest,
    /// The response payload could not be parsed into the expected schema.
    Deserialization,
    /// The request URL could not be assembled.
    URLParseError,
}

impl YouTubeError {
    /// Classify a transport failure from what the transport reports of it:
    /// a timeout outranks a bad status, which outranks anything else.
    pub fn from_transport(is_timeout: bool, status: Option<u16>) -> (r: YouTubeError)
        ensures
            is_timeout ==> r is TimedOut,
            !is_timeout && status is Some ==> r == YouTubeError::BadStatus(status->0),
            !is_timeout && status is None ==> r is GeneralRequest,
    {
        if is_timeout {
            YouTubeError::TimedOut
        } else {
            match status {
                Some(code) => YouTubeError::BadStatus(code),
                None => YouTubeError::GeneralRequest,
            }
        }
    }

    /// A short human-readable description.
    pub fn message(&self) -> String {
        match self {
            YouTubeError::NotStream(_) => "not a live stream".to_owned(),
            YouTubeError::NoInnerTubeKey => "failed to match InnerTube API key".to_owned(),
            YouTubeError::NoChatContinuation => "chat continuation token could not be found".to_owned(),
            YouTubeError::MissingContinuationContents => "missing continuation contents".to_owned(),
            YouTubeError::EndOfContinuation => "reached end of continuation".to_owned(),
            YouTubeError::TimedOut => "request timed out".to_owned(),
            YouTubeError::BadStatus(_) => "request returned bad HTTP status".to_owned(),
            YouTubeError::GeneralRequest => "request error".to_owned(),
            YouTubeError::Deserialization => "error when deserializing".to_owned(),
            YouTubeError::URLParseError => "error parsing URL".to_owned(),
        }
    }
}

} // verus!
