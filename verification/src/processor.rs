//! The page decoder and message queue: one processor per fetched page,
//! holding the pre-filtered items ready to become chat messages, the next
//! continuation token, and (live only) the current push topic.

use vstd::prelude::*;

use crate::error::YouTubeError;
use crate::types::{
    Author, ChatMessage, GetLiveChatResponse, ItemRenderer, PageContents, PendingItem, RawAddItem,
    RawAction, RequestOptions, TextMessageRenderer,
};

verus! {

/// An add-item action is eligible exactly when its renderer is a plain
/// text message with a present run list, or a paid message whose wrapped
/// text renderer has a present run list.
pub open spec fn eligible(item: RawAddItem) -> bool {
    match item.renderer {
        ItemRenderer::TextMessage(r) => r.message is Some,
        ItemRenderer::PaidMessage(r) => r.message is Some,
        ItemRenderer::Unsupported => false,
    }
}

/// The displayable renderers carry at least one avatar thumbnail; the
/// last (largest) one becomes the message's avatar URL.
pub open spec fn item_has_avatar(item: RawAddItem) -> bool {
    match item.renderer {
        ItemRenderer::TextMessage(r) => r.base.author_photo_thumbnails@.len() > 0,
        ItemRenderer::PaidMessage(r) => r.base.author_photo_thumbnails@.len() > 0,
        ItemRenderer::Unsupported => true,
    }
}

pub open spec fn action_items_have_avatars(a: RawAction) -> bool {
    match a {
        RawAction::AddItem(item) => item_has_avatar(item),
        RawAction::ReplayBatch { video_offset_time_msec, items } => forall|j: int|
            0 <= j < items@.len() ==> item_has_avatar(#[trigger] items@[j]),
    }
}

/// A page is well formed when every add-item it carries, direct or inside
/// a replay batch, has at least one avatar thumbnail. The wire schema
/// guarantees this; decoding is only specified on such pages.
pub open spec fn page_wf(r: GetLiveChatResponse) -> bool {
    r.continuation_contents matches Some(c) ==> (c.actions matches Some(v) ==> forall|i: int|
        0 <= i < v@.len() ==> action_items_have_avatars(#[trigger] v@[i]))
}

/// The first eligible item of a replay batch, if any: a replay wrapper
/// contributes at most one message, its first eligible item.
pub open spec fn first_eligible(items: Seq<RawAddItem>) -> Option<RawAddItem>
    decreases items.len(),
{
    if items.len() == 0 {
        None
    } else if eligible(items[0]) {
        Some(items[0])
    } else {
        first_eligible(items.drop_first())
    }
}

/// The queue one action list flattens to, in server emission order: a
/// direct add-item contributes itself (no offset) when eligible; a replay
/// batch contributes its first eligible item with the batch's offset.
pub open spec fn flatten_actions(actions: Seq<RawAction>) -> Seq<PendingItem>
    decreases actions.len(),
{
    if actions.len() == 0 {
        Seq::empty()
    } else {
        let rest = flatten_actions(actions.drop_first());
        match actions[0] {
            RawAction::AddItem(item) => if eligible(item) {
                seq![PendingItem { item, time_delta: None }] + rest
            } else {
                rest
            },
            RawAction::ReplayBatch { video_offset_time_msec, items } => match first_eligible(
                items@,
            ) {
                Some(item) => seq![
                    PendingItem { item, time_delta: Some(video_offset_time_msec) },
                ] + rest,
                None => rest,
            },
        }
    }
}

/// The continuation token one page selects: live prefers the invalidation
/// descriptor's token and falls back to the timed descriptor's; replay
/// takes the replay descriptor's token only.
pub open spec fn spec_selected_token(c: PageContents, live: bool) -> Option<String> {
    if live {
        match c.invalidation {
            Some(ic) => Some(ic.continuation),
            None => match c.timed {
                Some(tc) => Some(tc.continuation),
                None => None,
            },
        }
    } else {
        match c.replay {
            Some(rc) => Some(rc.continuation),
            None => None,
        }
    }
}

/// The push topic one page carries: live only, from the invalidation
/// descriptor when present.
pub open spec fn spec_topic(c: PageContents, live: bool) -> Option<String> {
    if live {
        match c.invalidation {
            Some(ic) => Some(ic.topic),
            None => None,
        }
    } else {
        None
    }
}

/// The queue a page's contents decode to; an absent action list means an
/// empty queue (only reachable in live mode, see `decode_fails`).
pub open spec fn spec_queue(c: PageContents) -> Seq<PendingItem> {
    match c.actions {
        Some(v) => flatten_actions(v@),
        None => Seq::empty(),
    }
}

/// Decoding fails exactly when the continuation contents are absent, or
/// when a replay page carries no action list (the feed is exhausted).
pub open spec fn decode_fails(r: GetLiveChatResponse, live: bool) -> bool {
    ||| r.continuation_contents is None
    ||| (!live && r.continuation_contents->0.actions is None)
}

/// Which error a failing decode reports: absent contents are a malformed
/// response; an actionless replay page is the end of the continuation.
pub open spec fn decode_err_kind(r: GetLiveChatResponse, live: bool, e: YouTubeError) -> bool {
    if r.continuation_contents is None {
        e is MissingContinuationContents
    } else {
        e is EndOfContinuation
    }
}

/// What a successful decode establishes about the processor it builds.
pub open spec fn decode_ok_to(
    r: GetLiveChatResponse,
    live: bool,
    p: YouTubeChatPageProcessor,
) -> bool {
    &&& r.continuation_contents matches Some(c)
    &&& p.queue@ == spec_queue(r.continuation_contents->0)
    &&& p.continuation_token == spec_selected_token(r.continuation_contents->0, live)
    &&& p.signaler_topic == spec_topic(r.continuation_contents->0, live)
    &&& p.live_status == live
}

/// The text renderer behind an eligible item (the paid variant's wrapped
/// renderer, or the plain one).
pub open spec fn spec_renderer(item: RawAddItem) -> TextMessageRenderer
    recommends
        eligible(item),
{
    match item.renderer {
        ItemRenderer::TextMessage(r) => r,
        ItemRenderer::PaidMessage(r) => r,
        ItemRenderer::Unsupported => arbitrary(),
    }
}

/// The chat message one queued item materializes to: the wrapped runs,
/// the paid flag, the author (name falling back to the channel id, avatar
/// from the last thumbnail), the microsecond timestamp in milliseconds,
/// and the batch offset if the item came from a replay wrapper.
pub open spec fn materialize(p: PendingItem) -> ChatMessage
    recommends
        eligible(p.item),
        item_has_avatar(p.item),
{
    let r = spec_renderer(p.item);
    ChatMessage {
        runs: r.message->0,
        is_super: p.item.renderer is PaidMessage,
        author: Author {
            display_name: match r.base.author_name {
                Some(n) => n,
                None => r.base.author_external_channel_id,
            },
            id: r.base.author_external_channel_id,
            avatar: r.base.author_photo_thumbnails@.last(),
        },
        timestamp: (r.base.timestamp_usec / 1000) as i64,
        time_delta: p.time_delta,
    }
}

/// Whether an item's renderer carries a present run list.
fn is_eligible(item: &RawAddItem) -> (r: bool)
    ensures
        r == eligible(*item),
{
    match &item.renderer {
        ItemRenderer::TextMessage(r) => r.message.is_some(),
        ItemRenderer::PaidMessage(r) => r.message.is_some(),
        ItemRenderer::Unsupported => false,
    }
}

/// One page's worth of chat: the pre-filtered FIFO queue in server
/// emission order, the next continuation token (absent in replay mode
/// exactly at the end of the feed), and the live push topic.
#[derive(Debug)]
pub struct YouTubeChatPageProcessor {
    pub queue: Vec<PendingItem>,
    pub continuation_token: Option<String>,
    pub signaler_topic: Option<String>,
    pub live_status: bool,
}

impl YouTubeChatPageProcessor {
    /// Every queued item is eligible and has an avatar, so materializing
    /// the front of the queue never gets stuck.
    pub open spec fn wf(self) -> bool {
        forall|i: int|
            0 <= i < self.queue@.len() ==> (eligible(#[trigger] self.queue@[i].item)
                && item_has_avatar(self.queue@[i].item))
    }

    /// Decode one page under the session's mode: select the continuation
    /// token and push topic, and flatten the action list into the queue.
    /// Fails with `MissingContinuationContents` when the contents are
    /// absent, and with `EndOfContinuation` when a replay page carries no
    /// actions; a live page without actions decodes to an empty queue.
    pub fn new(response: GetLiveChatResponse, request_options: &RequestOptions) -> (r: Result<
        Self,
        YouTubeError,
    >)
        requires
            page_wf(response),
        ensures
            r is Ok <==> !decode_fails(response, request_options.live_status),
            r matches Ok(p) ==> decode_ok_to(response, request_options.live_status, p) && p.wf(),
            r matches Err(e) ==> decode_err_kind(response, request_options.live_status, e),
    {
        let live = request_options.live_status;
        let contents = match response.continuation_contents {
            Some(c) => c,
            None => {
                return Err(YouTubeError::MissingContinuationContents);
            },
        };
        let ghost contents0 = contents;
        let PageContents { invalidation, timed, replay, actions } = contents;
        let (continuation_token, signaler_topic): (Option<String>, Option<String>) = if live {
            match invalidation {
                Some(ic) => (Some(ic.continuation), Some(ic.topic)),
                None => match timed {
                    Some(tc) => (Some(tc.continuation), None),
                    None => (None, None),
                },
            }
        } else {
            match replay {
                Some(rc) => (Some(rc.continuation), None),
                None => (None, None),
            }
        };
        let action_vec: Vec<RawAction> = match actions {
            Some(v) => v,
            None => {
                if live {
                    Vec::new()
                } else {
                    return Err(YouTubeError::EndOfContinuation);
                }
            },
        };
        let ghost orig = action_vec@;
        assert(spec_queue(contents0) == flatten_actions(orig)) by {
            if contents0.actions is None {
                assert(orig =~= Seq::<RawAction>::empty());
            }
        }
        let mut acts = action_vec;
        let mut queue: Vec<PendingItem> = Vec::new();
        while acts.len() > 0
            invariant
                queue@ + flatten_actions(acts@) == flatten_actions(orig),
                forall|i: int|
                    0 <= i < queue@.len() ==> (eligible(#[trigger] queue@[i].item)
                        && item_has_avatar(queue@[i].item)),
                forall|i: int|
                    0 <= i < acts@.len() ==> action_items_have_avatars(#[trigger] acts@[i]),
            decreases acts.len(),
        {
            let ghost acts0 = acts@;
            let a = acts.remove(0);
            proof {
                assert(acts@ =~= acts0.drop_first());
            }
            match a {
                RawAction::AddItem(item) => {
                    if is_eligible(&item) {
                        queue.push(PendingItem { item, time_delta: None });
                    }
                },
                RawAction::ReplayBatch { video_offset_time_msec, items } => {
                    let ghost orig_items = items@;
                    let mut rest = items;
                    let mut found: Option<RawAddItem> = None;
                    while rest.len() > 0 && found.is_none()
                        invariant
                            found is None ==> first_eligible(orig_items) == first_eligible(rest@),
                            found matches Some(f) ==> first_eligible(orig_items) == Some(f)
                                && eligible(f),
                            forall|j: int|
                                0 <= j < orig_items.len() ==> item_has_avatar(
                                    #[trigger] orig_items[j],
                                ),
                            forall|j: int|
                                0 <= j < rest@.len() ==> item_has_avatar(#[trigger] rest@[j]),
                            found matches Some(f) ==> item_has_avatar(f),
                        decreases rest.len(),
                    {
                        let ghost rest0 = rest@;
                        let it = rest.remove(0);
                        proof {
                            assert(rest@ =~= rest0.drop_first());
                        }
                        if is_eligible(&it) {
                            found = Some(it);
                        }
                    }
                    match found {
                        Some(item) => {
                            queue.push(
                                PendingItem { item, time_delta: Some(video_offset_time_msec) },
                            );
                        },
                        None => {
                            proof {
                                assert(first_eligible(orig_items) is None);
                            }
                        },
                    }
                },
            }
            proof {
                assert(queue@ + flatten_actions(acts@) =~= flatten_actions(orig));
            }
        }
        proof {
            assert(flatten_actions(acts@) =~= Seq::<PendingItem>::empty());
            assert(queue@ =~= flatten_actions(orig));
        }
        Ok(
            YouTubeChatPageProcessor {
                queue,
                continuation_token,
                signaler_topic,
                live_status: live,
            },
        )
    }

    /// Pop the front of the queue and materialize it; `None` exactly when
    /// the queue is empty. Messages come out in queue (server) order, and
    /// the token, topic and mode are untouched.
    pub fn next_message(&mut self) -> (r: Option<ChatMessage>)
        requires
            old(self).wf(),
        ensures
            final(self).wf(),
            final(self).continuation_token == old(self).continuation_token,
            final(self).signaler_topic == old(self).signaler_topic,
            final(self).live_status == old(self).live_status,
            old(self).queue@.len() == 0 ==> r is None && *final(self) == *old(self),
            old(self).queue@.len() > 0 ==> r == Some(materialize(old(self).queue@[0]))
                && final(self).queue@ == old(self).queue@.drop_first(),
    {
        if self.queue.len() == 0 {
            return None;
        }
        let ghost q0 = self.queue@;
        let front = self.queue.remove(0);
        proof {
            assert(self.queue@ =~= q0.drop_first());
        }
        let PendingItem { item, time_delta } = front;
        let is_super = match &item.renderer {
            ItemRenderer::PaidMessage(_) => true,
            _ => false,
        };
        let renderer = match item.renderer {
            ItemRenderer::TextMessage(r) => r,
            ItemRenderer::PaidMessage(r) => r,
            ItemRenderer::Unsupported => {
                // excluded by wf: every queued item is eligible
                proof {
                    assert(false);
                }
                return None;
            },
        };
        let runs = match renderer.message {
            Some(rs) => rs,
            None => {
                proof {
                    assert(false);
                }
                return None;
            },
        };
        let id = renderer.base.author_external_channel_id;
        let display_name = match renderer.base.author_name {
            Some(n) => n,
            None => id.clone(),
        };
        let mut thumbnails = renderer.base.author_photo_thumbnails;
        let avatar = match thumbnails.pop() {
            Some(url) => url,
            None => {
                proof {
                    assert(false);
                }
                return None;
            },
        };
        let usec = renderer.base.timestamp_usec;
        proof {
            vstd::arithmetic::div_mod::lemma_div_is_ordered(
                usec as int,
                u64::MAX as int,
                1000,
            );
        }
        let timestamp: i64 = (usec / 1000) as i64;
        Some(
            ChatMessage {
                runs,
                is_super,
                author: Author { display_name, id, avatar },
                timestamp,
                time_delta,
            },
        )
    }

    /// The number of messages still queued.
    pub fn queue_len(&self) -> (r: usize)
        ensures
            r == self.queue@.len(),
    {
        self.queue.len()
    }
}

} // verus!
