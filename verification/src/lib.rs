//! A verified client core for a live-chat pagination protocol: session
//! bootstrapping from a watch page, page decoding into normalized chat
//! messages, and the stream orchestration state machine that chains
//! continuation pages together.

pub mod bootstrap;
pub mod engine;
pub mod error;
pub mod laws;
pub mod processor;
pub mod request;
pub mod types;

use vstd::prelude::*;

verus! {

} // verus!
