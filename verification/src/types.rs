//! The data model: session parameters, the decoded shape of one chat page,
//! and the normalized chat message handed to consumers.

use vstd::prelude::*;

verus! {

/// Session parameters derived once from the bootstrap page; `live_status`
/// selects the endpoint and the continuation-extraction rules for the
/// lifetime of the session.
#[derive(Debug)]
pub struct RequestOptions {
    pub api_key: String,
    pub client_version: String,
    pub live_status: bool,
}

impl RequestOptions {
    /// An owned copy with the same fields.
    pub fn duplicate(&self) -> (r: RequestOptions)
        ensures
            r == *self,
    {
        RequestOptions {
            api_key: self.api_key.clone(),
            client_version: self.client_version.clone(),
            live_status: self.live_status,
        }
    }
}

/// One styled segment of a message's display content.
#[derive(Debug)]
pub enum MessageRun {
    Text(String),
    Emoji(String),
}

/// The author fields shared by every renderer kind: an optional simple-text
/// name, the channel id, the avatar thumbnails ordered smallest to largest,
/// and the epoch-microsecond timestamp.
#[derive(Debug)]
pub struct MessageRendererBase {
    pub author_name: Option<String>,
    pub author_external_channel_id: String,
    pub author_photo_thumbnails: Vec<String>,
    pub timestamp_usec: u64,
}

/// A plain text-message renderer: author fields plus an optional run list.
/// An absent run list means the item is not a displayable chat message.
#[derive(Debug)]
pub struct TextMessageRenderer {
    pub base: MessageRendererBase,
    pub message: Option<Vec<MessageRun>>,
}

/// The renderer carried by an add-item action: a plain text message, a paid
/// (super) message wrapping the same text structure, or some renderer kind
/// this library does not display.
#[derive(Debug)]
pub enum ItemRenderer {
    TextMessage(TextMessageRenderer),
    PaidMessage(TextMessageRenderer),
    Unsupported,
}

/// One add-item action: the item to (possibly) display.
#[derive(Debug)]
pub struct RawAddItem {
    pub renderer: ItemRenderer,
}

/// One raw action of a page: a direct add-item, or a replay wrapper
/// carrying a batch of add-items plus one video offset for the whole batch.
#[derive(Debug)]
pub enum RawAction {
    AddItem(RawAddItem),
    ReplayBatch { video_offset_time_msec: i64, items: Vec<RawAddItem> },
}

/// One pre-filtered queue entry: an eligible add-item together with the
/// replay batch's video offset, if the item came out of one.
#[derive(Debug)]
pub struct PendingItem {
    pub item: RawAddItem,
    pub time_delta: Option<i64>,
}

/// The invalidation continuation of a live page: the next token plus the
/// push-notification topic for the page after it.
#[derive(Debug)]
pub struct InvalidationContinuation {
    pub continuation: String,
    pub topic: String,
}

/// The timed continuation of a live page: a fallback next token, no topic.
#[derive(Debug)]
pub struct TimedContinuation {
    pub continuation: String,
}

/// The replay continuation: the next token of a replayed feed.
#[derive(Debug)]
pub struct ReplayContinuation {
    pub continuation: String,
}

/// The continuation contents of one page: the mode-dependent continuation
/// descriptors and the optional ordered action list.
#[derive(Debug)]
pub struct PageContents {
    pub invalidation: Option<InvalidationContinuation>,
    pub timed: Option<TimedContinuation>,
    pub replay: Option<ReplayContinuation>,
    pub actions: Option<Vec<RawAction>>,
}

/// One decoded chat-page response. The contents may be absent entirely,
/// which a decoder treats as a malformed response.
#[derive(Debug)]
pub struct GetLiveChatResponse {
    pub continuation_contents: Option<PageContents>,
}

/// The normalized author of a chat message.
#[derive(Debug)]
pub struct Author {
    pub display_name: String,
    pub id: String,
    pub avatar: String,
}

/// The normalized chat message handed to consumers. `time_delta` is set
/// only in replay mode and carries the batch's video offset.
#[derive(Debug)]
pub struct ChatMessage {
    pub runs: Vec<MessageRun>,
    pub is_super: bool,
    pub author: Author,
    pub timestamp: i64,
    pub time_delta: Option<i64>,
}

/// The request body of a chat-page fetch, as the endpoint expects it:
/// the continuation plus the client context.
#[derive(Debug)]
pub struct GetLiveChatBody {
    pub continuation: String,
    pub client_version: String,
    pub client_name: String,
}

impl GetLiveChatBody {
    /// Assemble the fetch body for one continuation.
    pub fn new(continuation: String, client_version: String) -> (r: GetLiveChatBody)
        ensures
            r.continuation == continuation,
            r.client_version == client_version,
            r.client_name@ == "WEB"@,
    {
        GetLiveChatBody { continuation, client_version, client_name: "WEB".to_owned() }
    }
}

} // verus!
