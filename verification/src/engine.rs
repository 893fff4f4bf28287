//! The stream orchestrator: a state machine that drains the current
//! page's queue, waits for a push signal (live) or proceeds at once
//! (replay), fetches the next page through its driver, and keeps the
//! push subscription's topic current. The driver performs the I/O each
//! command asks for and hands the outcome back as the next event.

use vstd::prelude::*;

use crate::error::YouTubeError;
use crate::processor::{
    decode_err_kind, decode_fails, decode_ok_to, materialize, page_wf, spec_topic,
    YouTubeChatPageProcessor,
};
use crate::types::{ChatMessage, GetLiveChatResponse, RequestOptions};

verus! {

/// Where the orchestrator stands: emitting queued messages, waiting for
/// a push signal, waiting for a page fetch, or finished.
#[derive(Clone, Copy, Debug, PartialEq, Eq, Structural)]
pub enum EnginePhase {
    Draining,
    AwaitingSignal,
    Fetching,
    Ended,
}

/// What the driver reports to the engine: a request to advance, a push
/// signal, the push channel closing, or the outcome of a page fetch.
#[derive(Debug)]
pub enum StreamEvent {
    Advance,
    Signal,
    ChannelClosed,
    PageFetched(Result<GetLiveChatResponse, YouTubeError>),
}

/// What the engine asks of the driver next: emit a message, block on the
/// push channel, fetch the page behind a token, move the subscription to
/// a new topic, report a terminal error, or just advance again.
#[derive(Debug)]
pub enum StreamCommand {
    Emit(ChatMessage),
    AwaitSignal,
    FetchPage(String),
    Resubscribe(String),
    Continue,
    EmitErrorAndEnd(YouTubeError),
    End,
}

/// The orchestrator's state: the session parameters, the current page's
/// processor, and the phase.
#[derive(Debug)]
pub struct StreamEngine {
    pub options: RequestOptions,
    pub processor: YouTubeChatPageProcessor,
    pub phase: EnginePhase,
}

/// The engine's transition relation: what one step does to the state and
/// which command it hands the driver.
pub open spec fn step_rel(
    pre: StreamEngine,
    event: StreamEvent,
    post: StreamEngine,
    cmd: StreamCommand,
) -> bool {
    let live = pre.options.live_status;
    &&& post.options == pre.options
    &&& match (pre.phase, event) {
        (EnginePhase::Draining, StreamEvent::Advance) => {
            if pre.processor.queue@.len() > 0 {
                // emit the front of the queue, in server order
                &&& post.phase is Draining
                &&& post.processor.queue@ == pre.processor.queue@.drop_first()
                &&& post.processor.continuation_token == pre.processor.continuation_token
                &&& post.processor.signaler_topic == pre.processor.signaler_topic
                &&& post.processor.live_status == pre.processor.live_status
                &&& cmd == StreamCommand::Emit(materialize(pre.processor.queue@[0]))
            } else if live {
                // live: a drained queue means waiting for the push signal
                &&& post.phase is AwaitingSignal
                &&& post.processor == pre.processor
                &&& cmd is AwaitSignal
            } else {
                // replay: proceed at once, or end cleanly without a token
                match pre.processor.continuation_token {
                    Some(t) => {
                        &&& post.phase is Fetching
                        &&& post.processor == pre.processor
                        &&& cmd == StreamCommand::FetchPage(t)
                    },
                    None => {
                        &&& post.phase is Ended
                        &&& post.processor == pre.processor
                        &&& cmd is End
                    },
                }
            }
        },
        (EnginePhase::AwaitingSignal, StreamEvent::Signal) => match pre
            .processor
            .continuation_token {
            Some(t) => {
                &&& post.phase is Fetching
                &&& post.processor == pre.processor
                &&& cmd == StreamCommand::FetchPage(t)
            },
            None => {
                &&& post.phase is Ended
                &&& post.processor == pre.processor
                &&& cmd is End
            },
        },
        (EnginePhase::AwaitingSignal, StreamEvent::ChannelClosed) => {
            &&& post.phase is Ended
            &&& post.processor == pre.processor
            &&& cmd is End
        },
        (EnginePhase::Fetching, StreamEvent::PageFetched(res)) => match res {
            Ok(page) => {
                if !decode_fails(page, live) {
                    // the new page replaces the processor; live sessions
                    // move the subscription to the page's topic
                    &&& post.phase is Draining
                    &&& decode_ok_to(page, live, post.processor)
                    &&& cmd == match spec_topic(page.continuation_contents->0, live) {
                        Some(t) => StreamCommand::Resubscribe(t),
                        None => StreamCommand::Continue,
                    }
                } else if page.continuation_contents is None {
                    // a malformed page is the stream's final, reported error
                    &&& post.phase is Ended
                    &&& post.processor == pre.processor
                    &&& (cmd matches StreamCommand::EmitErrorAndEnd(e)
                        && e is MissingContinuationContents)
                } else {
                    // an exhausted replay continuation is clean completion
                    &&& post.phase is Ended
                    &&& post.processor == pre.processor
                    &&& cmd is End
                }
            },
            Err(e) => {
                // a transport failure is the stream's final, reported error
                &&& post.phase is Ended
                &&& post.processor == pre.processor
                &&& cmd == StreamCommand::EmitErrorAndEnd(e)
            },
        },
        _ => {
            // an event out of protocol ends the stream
            &&& post.phase is Ended
            &&& post.processor == pre.processor
            &&& cmd is End
        },
    }
}

impl StreamEngine {
    /// The processor is well formed and was decoded under the session's
    /// own mode.
    pub open spec fn wf(self) -> bool {
        &&& self.processor.wf()
        &&& self.processor.live_status == self.options.live_status
    }

    /// Start a session over an already-fetched first page: decode it and
    /// stand ready to drain. Decode failures surface unmodified.
    pub fn new(options: RequestOptions, first_page: GetLiveChatResponse) -> (r: Result<
        StreamEngine,
        YouTubeError,
    >)
        requires
            page_wf(first_page),
        ensures
            r is Ok <==> !decode_fails(first_page, options.live_status),
            r matches Ok(en) ==> en.options == options && en.phase is Draining && en.wf()
                && decode_ok_to(first_page, options.live_status, en.processor),
            r matches Err(e) ==> decode_err_kind(first_page, options.live_status, e),
    {
        match YouTubeChatPageProcessor::new(first_page, &options) {
            Ok(processor) => Ok(
                StreamEngine { options, processor, phase: EnginePhase::Draining },
            ),
            Err(e) => Err(e),
        }
    }

    /// The first page's push topic, for the driver's initial
    /// subscription; live pages carry one in their invalidation
    /// descriptor.
    pub fn initial_topic(&self) -> (r: &Option<String>)
        ensures
            *r == self.processor.signaler_topic,
    {
        &self.processor.signaler_topic
    }

    /// One transition of the orchestrator. The driver calls it with
    /// `Advance` to drain, answers `AwaitSignal` with `Signal` or
    /// `ChannelClosed`, and answers `FetchPage` with `PageFetched`.
    pub fn step(&mut self, event: StreamEvent) -> (cmd: StreamCommand)
        requires
            old(self).wf(),
            event matches StreamEvent::PageFetched(p) ==> (p matches Ok(page) ==> page_wf(page)),
        ensures
            final(self).wf(),
            step_rel(*old(self), event, *final(self), cmd),
    {
        let phase = self.phase;
        match (phase, event) {
            (EnginePhase::Draining, StreamEvent::Advance) => {
                match self.processor.next_message() {
                    Some(m) => StreamCommand::Emit(m),
                    None => {
                        if self.options.live_status {
                            self.phase = EnginePhase::AwaitingSignal;
                            StreamCommand::AwaitSignal
                        } else {
                            match &self.processor.continuation_token {
                                Some(t) => {
                                    let token = t.clone();
                                    self.phase = EnginePhase::Fetching;
                                    StreamCommand::FetchPage(token)
                                },
                                None => {
                                    self.phase = EnginePhase::Ended;
                                    StreamCommand::End
                                },
                            }
                        }
                    },
                }
            },
            (EnginePhase::AwaitingSignal, StreamEvent::Signal) => {
                match &self.processor.continuation_token {
                    Some(t) => {
                        let token = t.clone();
                        self.phase = EnginePhase::Fetching;
                        StreamCommand::FetchPage(token)
                    },
                    None => {
                        self.phase = EnginePhase::Ended;
                        StreamCommand::End
                    },
                }
            },
            (EnginePhase::AwaitingSignal, StreamEvent::ChannelClosed) => {
                self.phase = EnginePhase::Ended;
                StreamCommand::End
            },
            (EnginePhase::Fetching, StreamEvent::PageFetched(res)) => {
                match res {
                    Ok(page) => {
                        match YouTubeChatPageProcessor::new(page, &self.options) {
                            Ok(processor) => {
                                self.processor = processor;
                                self.phase = EnginePhase::Draining;
                                match &self.processor.signaler_topic {
                                    Some(t) => StreamCommand::Resubscribe(t.clone()),
                                    None => StreamCommand::Continue,
                                }
                            },
                            Err(e) => {
                                self.phase = EnginePhase::Ended;
                                match e {
                                    YouTubeError::EndOfContinuation => StreamCommand::End,
                                    other => StreamCommand::EmitErrorAndEnd(other),
                                }
                            },
                        }
                    },
                    Err(e) => {
                        self.phase = EnginePhase::Ended;
                        StreamCommand::EmitErrorAndEnd(e)
                    },
                }
            },
            _ => {
                self.phase = EnginePhase::Ended;
                StreamCommand::End
            },
        }
    }
}

} // verus!
