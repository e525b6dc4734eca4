//! The ways in which an agent step can fail.
use vstd::prelude::*;

verus! {

/// Why an agent could not produce an answer.
#[derive(Debug)]
pub enum AgentError {
    /// Tools were asked for, but the agent has no tool registry.
    NoToolRegistry,
    /// The tool loop ran for its whole budget (the number of rounds it had)
    /// without reaching an answer.
    MaxIterations(usize),
    /// The model answered without any choice.
    NoChoices,
    /// The model called a tool that is not registered.
    ToolNotFound(String),
    /// The arguments of a tool call are not JSON.
    InvalidArguments(serde_json::Error),
    /// An agent was built without a model.
    ModelRequired,
    /// A step of a tool loop got an outcome it did not ask for.
    UnexpectedEvent,
}

/// An error, with the details that contracts compare.
pub enum ErrorView {
    NoToolRegistry,
    MaxIterations(usize),
    NoChoices,
    ToolNotFound(Seq<char>),
    InvalidArguments,
    ModelRequired,
    UnexpectedEvent,
}

impl View for AgentError {
    type V = ErrorView;

    open spec fn view(&self) -> ErrorView {
        match self {
            AgentError::NoToolRegistry => ErrorView::NoToolRegistry,
            AgentError::MaxIterations(n) => ErrorView::MaxIterations(*n),
            AgentError::NoChoices => ErrorView::NoChoices,
            AgentError::ToolNotFound(name) => ErrorView::ToolNotFound(name@),
            AgentError::InvalidArguments(_) => ErrorView::InvalidArguments,
            AgentError::ModelRequired => ErrorView::ModelRequired,
            AgentError::UnexpectedEvent => ErrorView::UnexpectedEvent,
        }
    }
}

} // verus!
