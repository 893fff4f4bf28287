//! The decode laws, stated on their own: what one page's shape forces of
//! the decoded queue, token and messages.

use vstd::prelude::*;

use crate::engine::{step_rel, StreamCommand, StreamEngine, StreamEvent};
use crate::processor::{
    decode_err_kind, decode_fails, decode_ok_to, eligible, first_eligible, flatten_actions,
    materialize, spec_renderer, spec_selected_token, YouTubeChatPageProcessor,
};
use crate::error::YouTubeError;
use crate::types::{
    GetLiveChatResponse, ItemRenderer, PageContents, PendingItem, RawAction, RawAddItem,
};

verus! {

/// A live page whose action list is absent decodes without error, to a
/// processor with an empty queue: live polling may legitimately idle.
pub proof fn lemma_live_page_without_actions_decodes_empty(
    r: GetLiveChatResponse,
    p: YouTubeChatPageProcessor,
)
    requires
        r.continuation_contents matches Some(c) && c.actions is None,
        decode_ok_to(r, true, p),
    ensures
        !decode_fails(r, true),
        p.queue@.len() == 0,
{
}

/// A replay page whose action list is absent fails to decode, and the
/// error it reports is `EndOfContinuation`: the feed has ended.
pub proof fn lemma_replay_page_without_actions_is_end(r: GetLiveChatResponse, e: YouTubeError)
    requires
        r.continuation_contents matches Some(c) && c.actions is None,
        decode_err_kind(r, false, e),
    ensures
        decode_fails(r, false),
        e is EndOfContinuation,
{
}

/// Live continuation selection prefers the invalidation descriptor's
/// token over the timed descriptor's, whenever both are present.
pub proof fn lemma_live_prefers_invalidation(c: PageContents)
    requires
        c.invalidation is Some,
    ensures
        spec_selected_token(c, true) == Some(c.invalidation->0.continuation),
{
}

/// A direct add-item whose paid renderer carries runs contributes exactly
/// one queue entry, and it materializes to a super message with no time
/// delta and the renderer's own runs.
pub proof fn lemma_direct_paid_item(item: RawAddItem, rest: Seq<RawAction>)
    requires
        item.renderer matches ItemRenderer::PaidMessage(r) && r.message is Some,
    ensures
        flatten_actions(seq![RawAction::AddItem(item)] + rest) == seq![
            PendingItem { item, time_delta: None },
        ] + flatten_actions(rest),
        materialize(PendingItem { item, time_delta: None }).is_super,
        materialize(PendingItem { item, time_delta: None }).time_delta is None,
        materialize(PendingItem { item, time_delta: None }).runs == spec_renderer(
            item,
        ).message->0,
{
    let s = seq![RawAction::AddItem(item)] + rest;
    assert(s.drop_first() =~= rest);
    assert(eligible(item));
}

/// A replay wrapper with an eligible item contributes exactly one queue
/// entry: its first eligible item, carrying the wrapper's video offset,
/// which the materialized message reports as its time delta.
pub proof fn lemma_replay_batch_offset(off: i64, items: Vec<RawAddItem>, rest: Seq<RawAction>)
    requires
        first_eligible(items@) is Some,
    ensures
        ({
            let entry = PendingItem {
                item: first_eligible(items@)->0,
                time_delta: Some(off),
            };
            &&& flatten_actions(
                seq![RawAction::ReplayBatch { video_offset_time_msec: off, items }] + rest,
            ) == seq![entry] + flatten_actions(rest)
            &&& materialize(entry).time_delta == Some(off)
        }),
{
    let s = seq![RawAction::ReplayBatch { video_offset_time_msec: off, items }] + rest;
    assert(s.drop_first() =~= rest);
}

/// While the orchestrator awaits a push signal it emits nothing and keeps
/// the page untouched, and only a signal can make it fetch the next page:
/// anything else ends the stream.
pub proof fn lemma_no_fetch_before_signal(
    pre: StreamEngine,
    event: StreamEvent,
    post: StreamEngine,
    cmd: StreamCommand,
)
    requires
        pre.phase is AwaitingSignal,
        step_rel(pre, event, post, cmd),
    ensures
        !(cmd is Emit),
        cmd is FetchPage ==> event is Signal,
        post.processor == pre.processor,
{
}

/// A replay session whose page is drained and carries no token ends as
/// plain completion, not as an error.
pub proof fn lemma_replay_exhaustion_ends_cleanly(
    pre: StreamEngine,
    post: StreamEngine,
    cmd: StreamCommand,
)
    requires
        !pre.options.live_status,
        pre.phase is Draining,
        pre.processor.queue@.len() == 0,
        pre.processor.continuation_token is None,
        step_rel(pre, StreamEvent::Advance, post, cmd),
    ensures
        post.phase is Ended,
        cmd is End,
{
}

/// An add-item whose renderer carries no runs is dropped: the queue is
/// exactly what the remaining actions yield, and nothing errs.
pub proof fn lemma_runless_item_dropped(item: RawAddItem, rest: Seq<RawAction>)
    requires
        !eligible(item),
    ensures
        flatten_actions(seq![RawAction::AddItem(item)] + rest) == flatten_actions(rest),
{
    let s = seq![RawAction::AddItem(item)] + rest;
    assert(s.drop_first() =~= rest);
}

} // verus!
