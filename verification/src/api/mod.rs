//! A stateless agent interface: an immutable agent configuration, a builder
//! for it, and prompting functions that take the conversation as input.
pub mod agents;
