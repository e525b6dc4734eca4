//! A small library for driving chat-completion agents that may call tools.
//!
//! The verified core keeps conversation history, builds completion requests,
//! interprets replies and decides, step by step, what an agent does next in
//! its tool loop. Sending requests over the network and running the tools are
//! left to the caller, which feeds the outcomes back in.
pub mod agents;
pub mod api;
pub mod dtos;
pub mod error;
pub mod json;
pub mod sse;
pub mod tools_registry;

use vstd::prelude::*;

verus! {

} // verus!
