//! Agents that hold only configuration; the caller owns the conversation.
//!
//! `prompt_request` and `stream_request` build the request for a history;
//! `read_reply` (in `dtos`) reads the model's answer. The tool loop is a state
//! machine over a session that owns a copy of the history: `start_session`
//! and `advance_session` each return the next thing to do.
use vstd::prelude::*;
use std::sync::Arc;
use crate::dtos::{
    Role,
    assistant_message_view, clone_messages, clone_tool_calls, messages_view, read_reply, reply_view, system_message,
    system_message_view, tool_message, tool_message_view, tool_calls_view, CompletionRequest,
    CompletionRequestView, Message, MessageView, ToolCall, ToolCallView,
};
use crate::agents::{assistant_message, event_fits, loop_consistent, sends_left, steps_down, EventView, LoopEvent, LoopPhase, PhaseView, ToolLoopView};
use crate::error::{AgentError, ErrorView};
use crate::json::json_value_of;
use crate::tools_registry::{defined_tools, law_definitions_offered, lookup, offers_exactly, plan_call, prepare_call, CallPlan, ToolEntryView, ToolRegistry};

verus! {

/// The configuration of an agent. `temperature` and `top_p` are the bit
/// patterns of the `f32` sampling parameters.
pub struct Agent<T> {
    model: String,
    url: String,
    api_key: String,
    system_prompt: String,
    temperature: u32,
    tool_registry: Option<Arc<ToolRegistry<T>>>,
    top_p: u32,
}

/// A builder of agents; an agent needs a model, the rest has defaults.
pub struct AgentBuilder<T> {
    model: Option<String>,
    url: String,
    api_key: String,
    system_prompt: String,
    temperature: u32,
    tool_registry: Option<Arc<ToolRegistry<T>>>,
    top_p: u32,
}

pub struct AgentView<T> {
    pub model: Seq<char>,
    pub url: Seq<char>,
    pub api_key: Seq<char>,
    pub system_prompt: Seq<char>,
    pub temperature: u32,
    pub tools: Option<Seq<ToolEntryView<T>>>,
    pub top_p: u32,
}

pub struct BuilderView<T> {
    pub model: Option<Seq<char>>,
    pub url: Seq<char>,
    pub api_key: Seq<char>,
    pub system_prompt: Seq<char>,
    pub temperature: u32,
    pub tools: Option<Seq<ToolEntryView<T>>>,
    pub top_p: u32,
}

/// The plain settings of a builder (all but its tools).
pub struct BuilderSettings {
    pub model: Option<String>,
    pub url: String,
    pub api_key: String,
    pub system_prompt: String,
    pub temperature: u32,
    pub top_p: u32,
}

impl<T> View for Agent<T> {
    type V = AgentView<T>;

    closed spec fn view(&self) -> AgentView<T> {
        AgentView {
            model: self.model@,
            url: self.url@,
            api_key: self.api_key@,
            system_prompt: self.system_prompt@,
            temperature: self.temperature,
            tools: match self.tool_registry {
                Some(r) => Some(r@),
                None => None,
            },
            top_p: self.top_p,
        }
    }
}

impl<T> View for AgentBuilder<T> {
    type V = BuilderView<T>;

    closed spec fn view(&self) -> BuilderView<T> {
        BuilderView {
            model: match self.model {
                Some(m) => Some(m@),
                None => None,
            },
            url: self.url@,
            api_key: self.api_key@,
            system_prompt: self.system_prompt@,
            temperature: self.temperature,
            tools: match self.tool_registry {
                Some(r) => Some(r@),
                None => None,
            },
            top_p: self.top_p,
        }
    }
}

/// The agent that a builder builds, when it has a model.
pub open spec fn built<T>(b: BuilderView<T>) -> Option<AgentView<T>> {
    match b.model {
        Some(m) => Some(
            AgentView {
                model: m,
                url: b.url,
                api_key: b.api_key,
                system_prompt: b.system_prompt,
                temperature: b.temperature,
                tools: b.tools,
                top_p: b.top_p,
            },
        ),
        None => None,
    }
}

/// The builder that holds an agent's configuration.
pub open spec fn builder_of<T>(a: AgentView<T>) -> BuilderView<T> {
    BuilderView {
        model: Some(a.model),
        url: a.url,
        api_key: a.api_key,
        system_prompt: a.system_prompt,
        temperature: a.temperature,
        tools: a.tools,
        top_p: a.top_p,
    }
}

/// Building the builder of an agent gives the agent back, and a builder
/// builds exactly when it has a model, an agent with that model.
pub proof fn law_builder_round_trip<T>(a: AgentView<T>, b: BuilderView<T>)
    ensures
        built(builder_of(a)) == Some(a),
        built(b) is Some <==> b.model is Some,
        built(b) matches Some(x) ==> builder_of(x) == b,
{
}

/// The request for the model on `history`: the system prompt first, the tool
/// definitions when the agent has a registry, the model, temperature and
/// `top_p` of the agent; streamed or not.
pub open spec fn request_for<T>(a: AgentView<T>, history: Seq<MessageView>, stream: bool) -> CompletionRequestView {
    CompletionRequestView {
        model: a.model,
        messages: seq![system_message_view(a.system_prompt)] + history,
        tools: match a.tools {
            Some(t) => Some(defined_tools(t)),
            None => None,
        },
        temperature: a.temperature,
        top_p: Some(a.top_p),
        stream: Some(stream),
    }
}

/// `Arc::clone`: another handle to the same value.
#[verifier::external_body]
fn share<T>(a: &Arc<T>) -> (res: Arc<T>)
    ensures
        res == *a,
{
    Arc::clone(a)
}

impl<T> Default for AgentBuilder<T> {
    /// No model; the local server at `http://localhost:1234/v1` with key
    /// `local`; the system prompt "Strictly follow user instructions!!!";
    /// no tools; temperature 0.7 and `top_p` 0.9.
    fn default() -> (res: Self)
        ensures
            res@ == (BuilderView::<T> {
                model: None,
                url: "http://localhost:1234/v1"@,
                api_key: "local"@,
                system_prompt: "Strictly follow user instructions!!!"@,
                temperature: 0x3f33_3333u32,
                tools: None,
                top_p: 0x3f66_6666u32,
            }),
    {
        AgentBuilder {
            model: None,
            url: "http://localhost:1234/v1".to_owned(),
            api_key: "local".to_owned(),
            system_prompt: "Strictly follow user instructions!!!".to_owned(),
            tool_registry: None,
            temperature: 0x3f33_3333u32,
            top_p: 0x3f66_6666u32,
        }
    }
}

impl<T> AgentBuilder<T> {
    /// The default builder.
    pub fn new() -> (res: Self)
        ensures
            res@ == (BuilderView::<T> {
                model: None,
                url: "http://localhost:1234/v1"@,
                api_key: "local"@,
                system_prompt: "Strictly follow user instructions!!!"@,
                temperature: 0x3f33_3333u32,
                tools: None,
                top_p: 0x3f66_6666u32,
            }),
    {
        Self::default()
    }

    /// A builder that holds the configuration of `agent`.
    pub fn convert_to_builder(agent: &Agent<T>) -> (res: AgentBuilder<T>)
        ensures
            res@ == builder_of(agent@),
    {
        AgentBuilder {
            model: Some(agent.model.clone()),
            url: agent.url.clone(),
            api_key: agent.api_key.clone(),
            system_prompt: agent.system_prompt.clone(),
            temperature: agent.temperature,
            tool_registry: match &agent.tool_registry {
                Some(r) => Some(share(r)),
                None => None,
            },
            top_p: agent.top_p,
        }
    }

    pub fn model(self, model: &str) -> (res: Self)
        ensures
            res@ == (BuilderView { model: Some(model@), ..self@ }),
    {
        let mut b = self;
        b.model = Some(model.to_owned());
        b
    }

    pub fn url(self, url: &str) -> (res: Self)
        ensures
            res@ == (BuilderView { url: url@, ..self@ }),
    {
        let mut b = self;
        b.url = url.to_owned();
        b
    }

    pub fn api_key(self, api_key: &str) -> (res: Self)
        ensures
            res@ == (BuilderView { api_key: api_key@, ..self@ }),
    {
        let mut b = self;
        b.api_key = api_key.to_owned();
        b
    }

    pub fn system_prompt(self, prompt: &str) -> (res: Self)
        ensures
            res@ == (BuilderView { system_prompt: prompt@, ..self@ }),
    {
        let mut b = self;
        b.system_prompt = prompt.to_owned();
        b
    }

    pub fn tool_registry(self, registry: Arc<ToolRegistry<T>>) -> (res: Self)
        ensures
            res@ == (BuilderView { tools: Some(registry@), ..self@ }),
    {
        let mut b = self;
        b.tool_registry = Some(registry);
        b
    }

    /// Sets the temperature, given as the bit pattern of an `f32`.
    pub fn temperature(self, temp: u32) -> (res: Self)
        ensures
            res@ == (BuilderView { temperature: temp, ..self@ }),
    {
        let mut b = self;
        b.temperature = temp;
        b
    }

    /// Sets `top_p`, given as the bit pattern of an `f32`.
    pub fn top_p(self, top_p: u32) -> (res: Self)
        ensures
            res@ == (BuilderView { top_p: top_p, ..self@ }),
    {
        let mut b = self;
        b.top_p = top_p;
        b
    }

    /// A copy of the builder's settings (all but its tools).
    pub fn settings(&self) -> (res: BuilderSettings)
        ensures
            res.model matches Some(m) ==> self@.model == Some(m@),
            res.model is None <==> self@.model is None,
            res.url@ == self@.url,
            res.api_key@ == self@.api_key,
            res.system_prompt@ == self@.system_prompt,
            res.temperature == self@.temperature,
            res.top_p == self@.top_p,
    {
        BuilderSettings {
            model: match &self.model {
                Some(m) => Some(m.clone()),
                None => None,
            },
            url: self.url.clone(),
            api_key: self.api_key.clone(),
            system_prompt: self.system_prompt.clone(),
            temperature: self.temperature,
            top_p: self.top_p,
        }
    }

    /// The agent; `ModelRequired` when no model was given.
    pub fn build(self) -> (res: Result<Agent<T>, AgentError>)
        ensures
            match built(self@) {
                Some(a) => res matches Ok(agent) && agent@ == a,
                None => res matches Err(e) && e@ == ErrorView::ModelRequired,
            },
    {
        match self.model {
            Some(model) => Ok(Agent {
                model,
                url: self.url,
                api_key: self.api_key,
                system_prompt: self.system_prompt,
                temperature: self.temperature,
                tool_registry: self.tool_registry,
                top_p: self.top_p,
            }),
            None => Err(AgentError::ModelRequired),
        }
    }
}

impl<T> Agent<T> {
    /// The address of the chat-completion server.
    pub fn url(&self) -> (res: &String)
        ensures
            res@ == self@.url,
    {
        &self.url
    }

    /// The key presented to the server.
    pub fn api_key(&self) -> (res: &String)
        ensures
            res@ == self@.api_key,
    {
        &self.api_key
    }

    /// The agent's tool registry, if it has one.
    pub fn tool_registry(&self) -> (res: Option<&ToolRegistry<T>>)
        ensures
            match res {
                Some(r) => self@.tools == Some(r@),
                None => self@.tools is None,
            },
    {
        match &self.tool_registry {
            Some(r) => Some(&**r),
            None => None,
        }
    }

    fn request(&self, history: Vec<Message>, stream: bool) -> (res: CompletionRequest)
        ensures
            res@ == request_for(self@, messages_view(history@), stream),
    {
        let mut messages: Vec<Message> = Vec::new();
        messages.push(system_message(&self.system_prompt));
        let mut rest = history;
        let ghost h = messages_view(rest@);
        messages.append(&mut rest);
        let tools = match &self.tool_registry {
            Some(r) => Some(r.get_tool_definitions()),
            None => None,
        };
        let res = CompletionRequest {
            model: self.model.clone(),
            messages,
            tools,
            temperature: self.temperature,
            top_p: Some(self.top_p),
            stream: Some(stream),
        };
        assert(res@.messages =~= request_for(self@, h, stream).messages);
        res
    }
}

/// The request of a plain prompt on `history`: the system prompt inserted
/// before it, not streamed.
pub fn prompt_request<T>(agent: &Agent<T>, history: Vec<Message>) -> (res: CompletionRequest)
    ensures
        res@ == request_for(agent@, messages_view(history@), false),
{
    agent.request(history, false)
}

/// The same request, streamed.
pub fn stream_request<T>(agent: &Agent<T>, history: Vec<Message>) -> (res: CompletionRequest)
    ensures
        res@ == request_for(agent@, messages_view(history@), true),
{
    agent.request(history, true)
}

/// The state of one run of the tool loop on a conversation.
pub struct ToolSession {
    history: Vec<Message>,
    max_loop: usize,
    round: usize,
    calls: Vec<ToolCall>,
    next: usize,
    response: String,
    streaming: bool,
    phase: LoopPhase,
}

pub struct SessionView {
    /// The conversation so far.
    pub history: Seq<MessageView>,
    /// The most requests the loop may send for tool calls.
    pub max_loop: usize,
    /// The number of the current round (the first is 0).
    pub round: usize,
    /// The tool calls of the current round.
    pub calls: Seq<ToolCallView>,
    /// The position, among them, of the call being run or to run next.
    pub next: usize,
    /// The model's text in the current round.
    pub response: Seq<char>,
    /// Whether the final answer is to be streamed.
    pub streaming: bool,
    pub phase: PhaseView,
}

impl View for ToolSession {
    type V = SessionView;

    closed spec fn view(&self) -> SessionView {
        SessionView {
            history: messages_view(self.history@),
            max_loop: self.max_loop,
            round: self.round,
            calls: tool_calls_view(self.calls@),
            next: self.next,
            response: self.response@,
            streaming: self.streaming,
            phase: match self.phase {
                LoopPhase::AwaitReply => PhaseView::AwaitReply,
                LoopPhase::AwaitTool { callback, name, id } => PhaseView::AwaitTool {
                    callback,
                    name: name@,
                    id: id@,
                },
                LoopPhase::Finished => PhaseView::Finished,
            },
        }
    }
}

/// The loop part of a session.
pub open spec fn session_loop(s: SessionView) -> ToolLoopView {
    ToolLoopView { max_loop: s.max_loop, round: s.round, calls: s.calls, next: s.next, phase: s.phase }
}

impl ToolSession {
    #[verifier::type_invariant]
    closed spec fn consistent(self) -> bool {
        loop_consistent(session_loop(self@))
    }

    /// The conversation as the session holds it.
    pub fn history(&self) -> (res: &[Message])
        ensures
            messages_view(res@) == self@.history,
    {
        self.history.as_slice()
    }

    /// Whether the loop has ended.
    pub fn is_finished(&self) -> (res: bool)
        ensures
            res == (self@.phase is Finished),
    {
        match self.phase {
            LoopPhase::Finished => true,
            _ => false,
        }
    }
}

/// What the caller of a session is to do next.
pub enum SessionAction {
    /// Send this request and hand back the model's answer.
    Send(CompletionRequest),
    /// Send this streamed request; its stream is the final answer.
    Stream(CompletionRequest),
    /// Run the tool registered under `name` with these arguments and hand
    /// back its result.
    RunTool { name: String, arguments: serde_json::Value },
    /// The loop is over, with this answer.
    Finish(Result<String, AgentError>),
}

pub enum SessionActionView {
    Send(CompletionRequestView),
    Stream(CompletionRequestView),
    RunTool(Seq<char>, serde_json::Value),
    Answer(Seq<char>),
    Fail(ErrorView),
}

impl View for SessionAction {
    type V = SessionActionView;

    open spec fn view(&self) -> SessionActionView {
        match self {
            SessionAction::Send(r) => SessionActionView::Send(r@),
            SessionAction::Stream(r) => SessionActionView::Stream(r@),
            SessionAction::RunTool { name, arguments } => SessionActionView::RunTool(name@, *arguments),
            SessionAction::Finish(Ok(s)) => SessionActionView::Answer(s@),
            SessionAction::Finish(Err(e)) => SessionActionView::Fail(e@),
        }
    }
}

pub open spec fn session_finished(s: SessionView) -> SessionView {
    SessionView { phase: PhaseView::Finished, ..s }
}

/// The next thing to do once the calls before position `s.next` have run:
/// run the next call (when its tool is known and its arguments are JSON; the
/// tool gets the value read from that call's own argument text), or,
/// when all have run, send the next request if rounds are left. A round whose
/// answer asked for no tool at all ends with the model's text.
pub open spec fn session_dispatch<T>(a: AgentView<T>, s: SessionView) -> (SessionView, SessionActionView) {
    if s.next >= s.calls.len() {
        if s.calls.len() == 0 {
            (session_finished(s), SessionActionView::Answer(s.response))
        } else if s.round + 1 < s.max_loop {
            (
                SessionView { round: (s.round + 1) as usize, phase: PhaseView::AwaitReply, ..s },
                SessionActionView::Send(request_for(a, s.history, false)),
            )
        } else {
            (session_finished(s), SessionActionView::Fail(ErrorView::MaxIterations(s.max_loop)))
        }
    } else {
        let call = s.calls[s.next as int];
        match plan_call(a.tools, call) {
            CallPlan::Stop(err) => (session_finished(s), SessionActionView::Fail(err)),
            CallPlan::Run { callback, arguments } => (
                SessionView {
                    phase: PhaseView::AwaitTool { callback, name: call.function.name, id: call.id },
                    ..s
                },
                SessionActionView::RunTool(call.function.name, arguments),
            ),
        }
    }
}

/// The start of a session: it fails without a registry or without rounds;
/// otherwise it sends the history as a plain prompt.
pub open spec fn session_start<T>(a: AgentView<T>, history: Seq<MessageView>, max_loop: usize, streaming: bool) -> (SessionView, SessionActionView) {
    let s0 = SessionView {
        history,
        max_loop,
        round: 0,
        calls: Seq::empty(),
        next: 0,
        response: Seq::empty(),
        streaming,
        phase: PhaseView::Finished,
    };
    if a.tools is None {
        (s0, SessionActionView::Fail(ErrorView::NoToolRegistry))
    } else if max_loop == 0 {
        (s0, SessionActionView::Fail(ErrorView::MaxIterations(0)))
    } else {
        (SessionView { phase: PhaseView::AwaitReply, ..s0 }, SessionActionView::Send(request_for(a, history, false)))
    }
}

/// One step of a session.
///
/// An answer without tool calls ends the loop: with its text, or, when
/// streaming, by streaming the answer to the same history. An answer with
/// tool calls joins the history and its calls run in order; a tool whose
/// result does not go back to the model ends the loop with that result
/// (which does not join the history); the others' results join the history.
pub open spec fn session_step<T>(a: AgentView<T>, s: SessionView, e: EventView) -> (SessionView, SessionActionView) {
    match (s.phase, e) {
        (PhaseView::AwaitReply, EventView::Reply(choices)) => match reply_view(choices) {
            None => (session_finished(s), SessionActionView::Fail(ErrorView::NoChoices)),
            Some((text, None)) => if s.streaming {
                (session_finished(s), SessionActionView::Stream(request_for(a, s.history, true)))
            } else {
                (session_finished(s), SessionActionView::Answer(text))
            },
            Some((text, Some(calls))) => session_dispatch(
                a,
                SessionView {
                    history: s.history.push(assistant_message_view(text, Some(calls))),
                    calls,
                    next: 0,
                    response: text,
                    ..s
                },
            ),
        },
        (PhaseView::AwaitTool { callback, name, id }, EventView::ToolOutput(out)) => if !callback {
            (session_finished(s), SessionActionView::Answer(out))
        } else {
            session_dispatch(
                a,
                SessionView {
                    history: s.history.push(tool_message_view(out, id, name)),
                    next: (s.next + 1) as usize,
                    ..s
                },
            )
        },
        _ => (session_finished(s), SessionActionView::Fail(ErrorView::UnexpectedEvent)),
    }
}

/// Every step of a session only adds to its history (at most one message),
/// keeps it consistent and brings it closer to its end; a request for tool
/// results is only sent in a round below the budget, the round after the one
/// before. So a session sends at most `max_loop` such requests and ends.
pub proof fn law_session_step<T>(a: AgentView<T>, s: SessionView, e: EventView)
    requires
        loop_consistent(session_loop(s)),
        event_fits(e),
    ensures
        ({
            let n = session_step(a, s, e);
            &&& s.history.is_prefix_of(n.0.history)
            &&& n.0.history.len() <= s.history.len() + 1
            &&& loop_consistent(session_loop(n.0))
            &&& n.0.max_loop == s.max_loop
            &&& n.0.streaming == s.streaming
            &&& steps_down(session_loop(s), session_loop(n.0))
            &&& n.1 is Send ==> n.0.round == s.round + 1 && n.0.round < n.0.max_loop
            &&& !(n.1 is Send) ==> (n.0.phase is Finished || n.0.round == s.round)
            &&& s.phase is Finished ==> n.0.phase is Finished
            &&& n.1 is Stream ==> s.streaming
            &&& n.0.phase is Finished <==> !(n.1 is Send || n.1 is RunTool)
        }),
{
    let n = session_step(a, s, e);
    assert(s.history.is_prefix_of(n.0.history));
}

/// The number of requests for tool results that a session in state `s` sends
/// while it takes the outcomes `events`, one step each.
pub open spec fn session_sends<T>(a: AgentView<T>, s: SessionView, events: Seq<EventView>) -> nat
    decreases events.len(),
{
    if events.len() == 0 {
        0
    } else {
        let n = session_step(a, s, events[0]);
        (if n.1 is Send { 1nat } else { 0nat }) + session_sends(a, n.0, events.drop_first())
    }
}

/// Whatever outcomes a running session takes, it sends no more requests than
/// it has rounds left.
pub proof fn law_session_sends_left<T>(a: AgentView<T>, s: SessionView, events: Seq<EventView>)
    requires
        loop_consistent(session_loop(s)),
        forall|i: int| 0 <= i < events.len() ==> event_fits(#[trigger] events[i]),
    ensures
        session_sends(a, s, events) <= sends_left(session_loop(s)),
    decreases events.len(),
{
    if events.len() > 0 {
        law_session_step(a, s, events[0]);
        let n = session_step(a, s, events[0]);
        let rest = events.drop_first();
        assert forall|i: int| 0 <= i < rest.len() implies event_fits(#[trigger] rest[i]) by {
            assert(rest[i] == events[i + 1]);
        }
        law_session_sends_left(a, n.0, rest);
    }
}

/// A whole session, from its start and whatever outcomes it takes, sends at
/// most `max_loop` plain requests (a final streamed request may follow).
pub proof fn law_session_run_bounded<T>(
    a: AgentView<T>,
    history: Seq<MessageView>,
    max_loop: usize,
    streaming: bool,
    events: Seq<EventView>,
)
    requires
        forall|i: int| 0 <= i < events.len() ==> event_fits(#[trigger] events[i]),
    ensures
        ({
            let st = session_start(a, history, max_loop, streaming);
            (if st.1 is Send { 1int } else { 0int }) + session_sends(a, st.0, events) <= max_loop
        }),
{
    let st = session_start(a, history, max_loop, streaming);
    law_session_sends_left(a, st.0, events);
}

/// The request for a history carries the agent's own settings: its model, its
/// temperature, its `top_p`, the asked streaming; the system prompt first and
/// then the given history in order; and exactly the definitions of its tools
/// (each registered tool that has one, in order), or none without a registry.
pub proof fn law_request_carries_agent<T>(a: AgentView<T>, history: Seq<MessageView>, stream: bool)
    ensures
        ({
            let q = request_for(a, history, stream);
            &&& q.model == a.model
            &&& q.temperature == a.temperature
            &&& q.top_p == Some(a.top_p)
            &&& q.stream == Some(stream)
            &&& q.messages.len() == history.len() + 1
            &&& q.messages[0].role == Role::System
            &&& q.messages[0].content == Some(a.system_prompt)
            &&& q.messages.subrange(1, q.messages.len() as int) == history
            &&& (a.tools is None <==> q.tools is None)
            &&& a.tools matches Some(t) ==> offers_exactly(t, q.tools->0)
        }),
{
    let q = request_for(a, history, stream);
    assert(q.messages.subrange(1, q.messages.len() as int) =~= history);
    if let Some(t) = a.tools {
        law_definitions_offered(t);
    }
}

/// When a session step runs a tool, it runs the call at the session's new
/// position: the tool registered under the name that call gives, with the
/// value read from that call's own argument text, and the session then awaits
/// the result of that very call (its id and name). The position is the first
/// call of a fresh answer, or the call after the one whose result just came.
pub proof fn law_session_runs_its_call<T>(a: AgentView<T>, s: SessionView, e: EventView)
    requires
        loop_consistent(session_loop(s)),
        event_fits(e),
    ensures
        ({
            let n = session_step(a, s, e);
            let call = n.0.calls[n.0.next as int];
            n.1 matches SessionActionView::RunTool(name, args) ==> {
                &&& n.0.next < n.0.calls.len()
                &&& name == call.function.name
                &&& args == json_value_of(call.function.arguments)
                &&& (a.tools matches Some(t) && (lookup(t, name) matches Some(entry)
                    && n.0.phase == (PhaseView::AwaitTool { callback: entry.callback, name, id: call.id })))
                &&& (e is Reply ==> n.0.next == 0)
                &&& (e is ToolOutput ==> n.0.calls == s.calls && n.0.next == s.next + 1)
            }
        }),
{
    law_session_step(a, s, e);
}

/// The result of a tool whose result goes back to the model joins the
/// session's history as a tool message answering the call that ran: its
/// content is the result, its call id and name are those of the call at the
/// session's position.
pub proof fn law_session_tool_result_answers_its_call<T>(a: AgentView<T>, s: SessionView, out: Seq<char>)
    requires
        loop_consistent(session_loop(s)),
        s.phase matches PhaseView::AwaitTool { callback, .. } && callback,
    ensures
        session_step(a, s, EventView::ToolOutput(out)).0.history == s.history.push(
            MessageView {
                role: Role::Tool,
                content: Some(out),
                multi_content: None,
                tool_calls: None,
                tool_call_id: Some(s.calls[s.next as int].id),
                name: Some(s.calls[s.next as int].function.name),
            },
        ),
{
}

/// A tool whose result does not go back to the model ends the session with
/// that result as the answer; the result does not join the history.
pub proof fn law_session_final_tool_result<T>(a: AgentView<T>, s: SessionView, out: Seq<char>)
    requires
        s.phase matches PhaseView::AwaitTool { callback, .. } && !callback,
    ensures
        ({
            let n = session_step(a, s, EventView::ToolOutput(out));
            &&& n.1 == SessionActionView::Answer(out)
            &&& n.0.phase is Finished
            &&& n.0.history == s.history
        }),
{
}

/// Starts the tool loop on `history` (see `session_start`).
pub fn start_session<T>(agent: &Agent<T>, history: Vec<Message>, max_loop: usize, streaming: bool) -> (res: (ToolSession, SessionAction))
    ensures
        ({
            let n = session_start(agent@, messages_view(history@), max_loop, streaming);
            res.0@ == n.0 && res.1@ == n.1
        }),
{
    let ghost h = messages_view(history@);
    let empty = ToolSession {
        history,
        max_loop,
        round: 0,
        calls: Vec::new(),
        next: 0,
        response: String::new(),
        streaming,
        phase: LoopPhase::Finished,
    };
    assert(empty@.calls =~= Seq::<ToolCallView>::empty());
    if agent.tool_registry.is_none() {
        return (empty, SessionAction::Finish(Err(AgentError::NoToolRegistry)));
    }
    if max_loop == 0 {
        return (empty, SessionAction::Finish(Err(AgentError::MaxIterations(0))));
    }
    let ToolSession { history, .. } = empty;
    let req = agent.request(clone_messages(&history), false);
    let session = ToolSession {
        history,
        max_loop,
        round: 0,
        calls: Vec::new(),
        next: 0,
        response: String::new(),
        streaming,
        phase: LoopPhase::AwaitReply,
    };
    assert(session@.calls =~= Seq::<ToolCallView>::empty());
    (session, SessionAction::Send(req))
}

/// Runs the calls of the current round from position `next` on, as far as
/// the next action.
fn session_dispatch_exec<T>(
    agent: &Agent<T>,
    history: Vec<Message>,
    max_loop: usize,
    round: usize,
    calls: Vec<ToolCall>,
    next: usize,
    response: String,
    streaming: bool,
) -> (res: (ToolSession, SessionAction))
    requires
        next <= calls@.len(),
        round < max_loop,
    ensures
        ({
            let d = session_dispatch(agent@, SessionView {
                history: messages_view(history@),
                max_loop,
                round,
                calls: tool_calls_view(calls@),
                next,
                response: response@,
                streaming,
                phase: PhaseView::AwaitReply,
            });
            res.0@ == d.0 && res.1@ == d.1
        }),
{
    if next >= calls.len() {
        if calls.len() == 0 {
            let answer = response.clone();
            return (ToolSession { history, max_loop, round, calls, next, response, streaming, phase: LoopPhase::Finished },
                SessionAction::Finish(Ok(answer)));
        }
        if round + 1 < max_loop {
            let req = agent.request(clone_messages(&history), false);
            return (ToolSession { history, max_loop, round: round + 1, calls, next, response, streaming, phase: LoopPhase::AwaitReply },
                SessionAction::Send(req));
        }
        return (ToolSession { history, max_loop, round, calls, next, response, streaming, phase: LoopPhase::Finished },
            SessionAction::Finish(Err(AgentError::MaxIterations(max_loop))));
    }
    let (callback, arguments) = match prepare_call(agent.tool_registry(), &calls[next]) {
        Ok(p) => p,
        Err(e) => {
            return (ToolSession { history, max_loop, round, calls, next, response, streaming, phase: LoopPhase::Finished },
                SessionAction::Finish(Err(e)));
        }
    };
    let name = calls[next].function.name.clone();
    let id = calls[next].id.clone();
    let tool_name = name.clone();
    (ToolSession { history, max_loop, round, calls, next, response, streaming, phase: LoopPhase::AwaitTool { callback, name, id } },
        SessionAction::RunTool { name: tool_name, arguments })
}

/// One further step of the tool loop, with what came of the last action (see
/// `session_step`).
pub fn advance_session<T>(agent: &Agent<T>, session: &mut ToolSession, event: LoopEvent) -> (res: SessionAction)
    ensures
        ({
            let n = session_step(agent@, old(session)@, event@);
            final(session)@ == n.0 && res@ == n.1
        }),
{
    proof {
        use_type_invariant(&*session);
    }
    let mut taken = ToolSession {
        history: Vec::new(),
        max_loop: 0,
        round: 0,
        calls: Vec::new(),
        next: 0,
        response: String::new(),
        streaming: false,
        phase: LoopPhase::Finished,
    };
    assert(taken@.calls =~= Seq::<ToolCallView>::empty());
    std::mem::swap(&mut taken, session);
    let ToolSession { history, max_loop, round, calls, next, response, streaming, phase } = taken;
    let ghost s = old(session)@;
    assert(loop_consistent(session_loop(s)));
    assert(tool_calls_view(calls@) == s.calls);
    assert(messages_view(history@) == s.history);
    match (phase, event) {
        (LoopPhase::AwaitReply, LoopEvent::Reply(answer)) => {
            match read_reply(answer) {
                Err(e) => {
                    *session = ToolSession { history, max_loop, round, calls, next, response, streaming, phase: LoopPhase::Finished };
                    SessionAction::Finish(Err(e))
                }
                Ok((text, None)) => {
                    if streaming {
                        let req = agent.request(clone_messages(&history), true);
                        *session = ToolSession { history, max_loop, round, calls, next, response, streaming, phase: LoopPhase::Finished };
                        SessionAction::Stream(req)
                    } else {
                        *session = ToolSession { history, max_loop, round, calls, next, response, streaming, phase: LoopPhase::Finished };
                        SessionAction::Finish(Ok(text))
                    }
                }
                Ok((text, Some(new_calls))) => {
                    let kept = clone_tool_calls(&new_calls);
                    let mut history = history;
                    let ghost before = messages_view(history@);
                    history.push(assistant_message(text.clone(), Some(new_calls)));
                    assert(messages_view(history@) =~= before.push(assistant_message_view(text@, Some(tool_calls_view(kept@)))));
                    let (new_session, action) = session_dispatch_exec(agent, history, max_loop, round, kept, 0, text, streaming);
                    *session = new_session;
                    action
                }
            }
        }
        (LoopPhase::AwaitTool { callback, name, id }, LoopEvent::ToolOutput(out)) => {
            assert(s.phase is AwaitTool);
            let n: usize = calls.len();
            assert(next < n);
            if !callback {
                *session = ToolSession { history, max_loop, round, calls, next, response, streaming, phase: LoopPhase::Finished };
                return SessionAction::Finish(Ok(out));
            }
            let mut history = history;
            let ghost before = messages_view(history@);
            history.push(tool_message(out, id, name));
            assert(messages_view(history@) =~= before.push(tool_message_view(out@, id@, name@)));
            let (new_session, action) = session_dispatch_exec(agent, history, max_loop, round, calls, next + 1, response, streaming);
            *session = new_session;
            action
        }
        _ => {
            *session = ToolSession { history, max_loop, round, calls, next, response, streaming, phase: LoopPhase::Finished };
            SessionAction::Finish(Err(AgentError::UnexpectedEvent))
        }
    }
}

} // verus!
