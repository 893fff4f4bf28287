//! Assembly of one chat-page fetch: endpoint selection by mode and the
//! request URL carrying the API key.

use vstd::prelude::*;

use crate::error::YouTubeError;
use crate::types::RequestOptions;

verus! {

/// The live chat endpoint.
pub open spec fn live_endpoint() -> Seq<char> {
    "https://www.youtube.com/youtubei/v1/live_chat/get_live_chat"@
}

/// The replay chat endpoint.
pub open spec fn replay_endpoint() -> Seq<char> {
    "https://www.youtube.com/youtubei/v1/live_chat/get_live_chat_replay"@
}

/// The text of the endpoint URL with `key=<api_key>` and
/// `prettyPrint=false` appended as query parameters, if the endpoint
/// parses as an absolute URL; a function of the two texts alone.
pub uninterp spec fn request_url(endpoint: Seq<char>, api_key: Seq<char>) -> Option<Seq<char>>;

/// Relies on url::Url::parse_with_params and url::Url::as_str: parse the
/// endpoint and append the two query parameters; deterministic in its
/// arguments, `None` exactly on a parse error.
#[verifier::external_body]
fn parse_url_with_key(endpoint: &str, api_key: &str) -> (r: Option<String>)
    ensures
        r is Some <==> request_url(endpoint@, api_key@) is Some,
        r matches Some(u) ==> request_url(endpoint@, api_key@) == Some(u@),
{
    url::Url::parse_with_params(endpoint, [("key", api_key), ("prettyPrint", "false")])
        .ok()
        .map(|u| u.as_str().to_owned())
}

/// The URL a page fetch posts to under the given session: the mode's
/// endpoint with the session's API key; `URLParseError` exactly when the
/// URL cannot be assembled.
pub fn chat_page_url(options: &RequestOptions) -> (r: Result<String, YouTubeError>)
    ensures
        ({
            let ep = if options.live_status {
                live_endpoint()
            } else {
                replay_endpoint()
            };
            match r {
                Ok(u) => request_url(ep, options.api_key@) == Some(u@),
                Err(e) => e is URLParseError && request_url(ep, options.api_key@) is None,
            }
        }),
{
    let endpoint = if options.live_status {
        "https://www.youtube.com/youtubei/v1/live_chat/get_live_chat"
    } else {
        "https://www.youtube.com/youtubei/v1/live_chat/get_live_chat_replay"
    };
    match parse_url_with_key(endpoint, options.api_key.as_str()) {
        Some(u) => Ok(u),
        None => Err(YouTubeError::URLParseError),
    }
}

} // verus!
