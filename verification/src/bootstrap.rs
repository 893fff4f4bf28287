//! The session bootstrapper: best-effort pattern extraction of the session
//! parameters and the first continuation token from a watch page's HTML.
//! All pattern definitions live here, so markup changes touch only this
//! module.

use vstd::prelude::*;

use crate::error::YouTubeError;
use crate::types::RequestOptions;

verus! {

/// Whether the fixed pattern matches anywhere in the haystack; a function
/// of the two texts alone.
pub uninterp spec fn regex_found(pattern: Seq<char>, haystack: Seq<char>) -> bool;

/// The text of the pattern's first capture group at its first match, if
/// the pattern matches; a function of the two texts alone.
pub uninterp spec fn regex_capture(pattern: Seq<char>, haystack: Seq<char>) -> Option<Seq<char>>;

/// Relies on regex::Regex::new and regex::Regex::find: whether the
/// pattern matches anywhere in the haystack. Both are deterministic in
/// their arguments; an invalid pattern counts as matching nothing (every
/// pattern this library passes is a fixed, valid literal).
#[verifier::external_body]
fn regex_finds(pattern: &str, haystack: &str) -> (r: bool)
    ensures
        r == regex_found(pattern@, haystack@),
{
    match regex::Regex::new(pattern) {
        Ok(re) => re.find(haystack).is_some(),
        Err(_) => false,
    }
}

/// Relies on regex::Regex::new and regex::Regex::captures: the text of
/// capture group 1 at the first match, if any. Both are deterministic in
/// their arguments; an invalid pattern counts as matching nothing.
#[verifier::external_body]
fn regex_capture_group(pattern: &str, haystack: &str) -> (r: Option<String>)
    ensures
        r is Some <==> regex_capture(pattern@, haystack@) is Some,
        r matches Some(s) ==> regex_capture(pattern@, haystack@) == Some(s@),
{
    match regex::Regex::new(pattern) {
        Ok(re) => re.captures(haystack).and_then(|c| c.get(1)).map(|m| m.as_str().to_owned()),
        Err(_) => None,
    }
}

/// Marks a page that is live right now.
pub open spec fn live_now_pattern() -> Seq<char> {
    r#"['"]isLiveNow['"]:\s*(true)"#@
}

/// Marks a page that is a finished broadcast's replay.
pub open spec fn replay_pattern() -> Seq<char> {
    r#"['"]isReplay['"]:\s*(true)"#@
}

/// Captures the API key.
pub open spec fn api_key_pattern() -> Seq<char> {
    r#"['"]INNERTUBE_API_KEY['"]:\s*['"](.+?)['"]"#@
}

/// Captures the client version string.
pub open spec fn client_version_pattern() -> Seq<char> {
    r#"['"]clientVersion['"]:\s*['"]([\d.]+?)['"]"#@
}

/// Captures the continuation token anchored to the live chat selector.
pub open spec fn live_continuation_pattern() -> Seq<char> {
    r#"Live chat['"],\s*['"]selected['"]:\s*(?:true|false),\s*['"]continuation['"]:\s*\{\s*['"]reloadContinuationData['"]:\s*\{['"]continuation['"]:\s*['"](.+?)['"]"#@
}

/// Captures the continuation token anchored to the chat replay selector.
pub open spec fn replay_continuation_pattern() -> Seq<char> {
    r#"Top chat replay['"],\s*['"]selected['"]:\s*true,\s*['"]continuation['"]:\s*\{\s*['"]reloadContinuationData['"]:\s*\{['"]continuation['"]:\s*['"](.+?)['"]"#@
}

/// The client version assumed when the page names none.
pub open spec fn default_client_version() -> Seq<char> {
    "2.20230801.08.00"@
}

/// What a successful bootstrap returns for a given page text: live mode
/// iff the live marker matched, the captured API key, the captured client
/// version (or the fixed default), and the continuation captured by the
/// mode's own pattern.
pub open spec fn bootstrap_ok_to(page: Seq<char>, opts: RequestOptions, cont: String) -> bool {
    let live = regex_found(live_now_pattern(), page);
    let cont_pattern = if live {
        live_continuation_pattern()
    } else {
        replay_continuation_pattern()
    };
    &&& live || regex_found(replay_pattern(), page)
    &&& opts.live_status == live
    &&& regex_capture(api_key_pattern(), page) == Some(opts.api_key@)
    &&& (regex_capture(client_version_pattern(), page) matches Some(v) ==> opts.client_version@
        == v)
    &&& (regex_capture(client_version_pattern(), page) is None ==> opts.client_version@
        == default_client_version())
    &&& regex_capture(cont_pattern, page) == Some(cont@)
}

/// Which error a failing bootstrap reports, if and only if: no mode
/// marker at all, then a missing API key, then a missing mode-anchored
/// continuation.
pub open spec fn bootstrap_err_kind(live_id: Seq<char>, page: Seq<char>, e: YouTubeError) -> bool {
    let live = regex_found(live_now_pattern(), page);
    let replay = regex_found(replay_pattern(), page);
    let cont_pattern = if live {
        live_continuation_pattern()
    } else {
        replay_continuation_pattern()
    };
    match e {
        YouTubeError::NotStream(id) => !live && !replay && id@ == live_id,
        YouTubeError::NoInnerTubeKey => (live || replay) && regex_capture(
            api_key_pattern(),
            page,
        ) is None,
        YouTubeError::NoChatContinuation => (live || replay) && regex_capture(
            api_key_pattern(),
            page,
        ) is Some && regex_capture(cont_pattern, page) is None,
        _ => false,
    }
}

/// Bootstrapping fails exactly when neither mode marker matches, the API
/// key is missing, or the mode-anchored continuation is missing.
pub open spec fn bootstrap_fails(page: Seq<char>) -> bool {
    let live = regex_found(live_now_pattern(), page);
    let replay = regex_found(replay_pattern(), page);
    let cont_pattern = if live {
        live_continuation_pattern()
    } else {
        replay_continuation_pattern()
    };
    ||| (!live && !replay)
    ||| regex_capture(api_key_pattern(), page) is None
    ||| regex_capture(cont_pattern, page) is None
}

/// Derive the session parameters and the first continuation token from a
/// watch page's text. Pure in the page text: the same text always yields
/// the same result. The video id only labels the `NotStream` error.
pub fn get_options_from_live_page(live_id: &str, page_contents: &str) -> (r: Result<
    (RequestOptions, String),
    YouTubeError,
>)
    ensures
        r is Ok <==> !bootstrap_fails(page_contents@),
        r matches Ok((opts, cont)) ==> bootstrap_ok_to(page_contents@, opts, cont),
        r matches Err(e) ==> bootstrap_err_kind(live_id@, page_contents@, e),
{
    let live = regex_finds(r#"['"]isLiveNow['"]:\s*(true)"#, page_contents);
    if !live {
        let replay = regex_finds(r#"['"]isReplay['"]:\s*(true)"#, page_contents);
        if !replay {
            return Err(YouTubeError::NotStream(live_id.to_owned()));
        }
    }
    let api_key = match regex_capture_group(
        r#"['"]INNERTUBE_API_KEY['"]:\s*['"](.+?)['"]"#,
        page_contents,
    ) {
        Some(k) => k,
        None => {
            return Err(YouTubeError::NoInnerTubeKey);
        },
    };
    let client_version = match regex_capture_group(
        r#"['"]clientVersion['"]:\s*['"]([\d.]+?)['"]"#,
        page_contents,
    ) {
        Some(v) => v,
        None => "2.20230801.08.00".to_owned(),
    };
    let continuation = if live {
        regex_capture_group(
            r#"Live chat['"],\s*['"]selected['"]:\s*(?:true|false),\s*['"]continuation['"]:\s*\{\s*['"]reloadContinuationData['"]:\s*\{['"]continuation['"]:\s*['"](.+?)['"]"#,
            page_contents,
        )
    } else {
        regex_capture_group(
            r#"Top chat replay['"],\s*['"]selected['"]:\s*true,\s*['"]continuation['"]:\s*\{\s*['"]reloadContinuationData['"]:\s*\{['"]continuation['"]:\s*['"](.+?)['"]"#,
            page_contents,
        )
    };
    let continuation = match continuation {
        Some(c) => c,
        None => {
            return Err(YouTubeError::NoChatContinuation);
        },
    };
    Ok((RequestOptions { api_key, client_version, live_status: live }, continuation))
}

} // verus!
