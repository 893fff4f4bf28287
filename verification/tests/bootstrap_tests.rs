use live_chat::bootstrap::get_options_from_live_page;
use live_chat::error::YouTubeError;
use live_chat::request::chat_page_url;
use live_chat::types::{GetLiveChatBody, RequestOptions};

fn live_page_html() -> String {
    let mut s = String::new();
    s.push_str(r#"<html><script>var cfg = {"isLiveNow": true,"#);
    s.push_str(r#" "INNERTUBE_API_KEY": "AIzaTestKey123","#);
    s.push_str(r#" "clientVersion": "2.20240101.01.00",};"#);
    s.push_str(r#" var tabs = {"title": "Live chat", "selected": false, "continuation": {"reloadContinuationData": {"continuation": "LIVE-TOKEN-1"}}};"#);
    s.push_str("</script></html>");
    s
}

fn replay_page_html() -> String {
    let mut s = String::new();
    s.push_str(r#"<html><script>var cfg = {"isReplay": true,"#);
    s.push_str(r#" "INNERTUBE_API_KEY": "AIzaReplayKey9","#);
    s.push_str(r#" "clientVersion": "2.20230901.03.00",};"#);
    s.push_str(r#" var tabs = {"title": "Top chat replay", "selected": true, "continuation": {"reloadContinuationData": {"continuation": "REPLAY-TOKEN-7"}}};"#);
    s.push_str("</script></html>");
    s
}

#[test]
fn bootstrap_live_page() {
    let html = live_page_html();
    let (options, continuation) = get_options_from_live_page("vid123", &html).unwrap();
    assert!(options.live_status);
    assert_eq!(options.api_key, "AIzaTestKey123");
    assert_eq!(options.client_version, "2.20240101.01.00");
    assert_eq!(continuation, "LIVE-TOKEN-1");
}

#[test]
fn bootstrap_replay_page() {
    let html = replay_page_html();
    let (options, continuation) = get_options_from_live_page("vid456", &html).unwrap();
    assert!(!options.live_status);
    assert_eq!(options.api_key, "AIzaReplayKey9");
    assert_eq!(options.client_version, "2.20230901.03.00");
    assert_eq!(continuation, "REPLAY-TOKEN-7");
}

#[test]
fn bootstrap_live_marker_wins_over_replay() {
    let mut html = live_page_html();
    html.push_str(r#" {"isReplay": true}"#);
    let (options, continuation) = get_options_from_live_page("vid", &html).unwrap();
    assert!(options.live_status);
    assert_eq!(continuation, "LIVE-TOKEN-1");
}

#[test]
fn bootstrap_not_a_stream() {
    let html = r#"<html>{"INNERTUBE_API_KEY": "AIzaX"}</html>"#;
    let err = get_options_from_live_page("deadbeef", html).unwrap_err();
    match err {
        YouTubeError::NotStream(id) => assert_eq!(id, "deadbeef"),
        other => panic!("expected NotStream, got {other:?}"),
    }
}

#[test]
fn bootstrap_missing_api_key() {
    let html = r#"{"isLiveNow": true}"#;
    let err = get_options_from_live_page("vid", html).unwrap_err();
    assert!(matches!(err, YouTubeError::NoInnerTubeKey));
}

#[test]
fn bootstrap_missing_continuation() {
    let html = r#"{"isLiveNow": true, "INNERTUBE_API_KEY": "AIzaY"}"#;
    let err = get_options_from_live_page("vid", html).unwrap_err();
    assert!(matches!(err, YouTubeError::NoChatContinuation));
}

#[test]
fn bootstrap_replay_needs_replay_anchored_continuation() {
    // a replay page whose only continuation marker is the live-anchored one
    let mut html = String::from(r#"{"isReplay": true, "INNERTUBE_API_KEY": "AIzaZ",}"#);
    html.push_str(r#" {"title": "Live chat", "selected": false, "continuation": {"reloadContinuationData": {"continuation": "LIVE-ONLY"}}}"#);
    let err = get_options_from_live_page("vid", &html).unwrap_err();
    assert!(matches!(err, YouTubeError::NoChatContinuation));
}

#[test]
fn bootstrap_default_client_version() {
    let mut s = String::new();
    s.push_str(r#"{"isLiveNow": true, "INNERTUBE_API_KEY": "AIzaQ",};"#);
    s.push_str(r#" {"title": "Live chat", "selected": true, "continuation": {"reloadContinuationData": {"continuation": "TOK"}}}"#);
    let (options, _) = get_options_from_live_page("vid", &s).unwrap();
    assert_eq!(options.client_version, "2.20230801.08.00");
}

#[test]
fn chat_page_url_live_endpoint() {
    let options = RequestOptions {
        api_key: String::from("KEY1"),
        client_version: String::from("2.0"),
        live_status: true,
    };
    let url = chat_page_url(&options).unwrap();
    assert_eq!(
        url,
        "https://www.youtube.com/youtubei/v1/live_chat/get_live_chat?key=KEY1&prettyPrint=false"
    );
}

#[test]
fn chat_page_url_replay_endpoint() {
    let options = RequestOptions {
        api_key: String::from("KEY2"),
        client_version: String::from("2.0"),
        live_status: false,
    };
    let url = chat_page_url(&options).unwrap();
    assert_eq!(
        url,
        "https://www.youtube.com/youtubei/v1/live_chat/get_live_chat_replay?key=KEY2&prettyPrint=false"
    );
}

#[test]
fn body_carries_web_client_name() {
    let body = GetLiveChatBody::new(String::from("TOK"), String::from("2.1"));
    assert_eq!(body.continuation, "TOK");
    assert_eq!(body.client_version, "2.1");
    assert_eq!(body.client_name, "WEB");
}

#[test]
fn transport_classification() {
    assert!(matches!(
        YouTubeError::from_transport(true, Some(500)),
        YouTubeError::TimedOut
    ));
    assert!(matches!(
        YouTubeError::from_transport(false, Some(404)),
        YouTubeError::BadStatus(404)
    ));
    assert!(matches!(
        YouTubeError::from_transport(false, None),
        YouTubeError::GeneralRequest
    ));
}

#[test]
fn error_messages_exist() {
    assert_eq!(
        YouTubeError::EndOfContinuation.message(),
        "reached end of continuation"
    );
    assert_eq!(
        YouTubeError::NotStream(String::from("x")).message(),
        "not a live stream"
    );
}
