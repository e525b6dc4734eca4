//! An agent that keeps its own conversation history.
//!
//! The agent holds its configuration, an optional tool registry and the
//! history of the conversation. A plain prompt is two steps (`begin_prompt`
//! makes the request, `finish_prompt` takes the model's answer). The tool
//! loop is a state machine: `start_tool_loop` and `advance_tool_loop` each
//! return the next thing to do (send a request, run a tool, or finish) and the
//! caller hands back what came of it.
use vstd::prelude::*;
use crate::dtos::{
    assistant_message_view, clone_messages, clone_tool_calls, messages_view, opt_tool_calls_view,
    read_reply, reply_view, system_message, system_message_view, tool_message, tool_message_view,
    tool_calls_view, user_message_view, CompletionRequest, CompletionRequestView, CompletionResponse,
    Message, MessageView, Role, ToolCall, ToolCallView,
};
use crate::error::{AgentError, ErrorView};
use crate::json::json_value_of;
use crate::tools_registry::{defined_tools, lookup, plan_call, prepare_call, CallPlan, ToolEntryView, ToolRegistry};

verus! {

/// Represents an AI agent that can interact with a language model, optionally
/// using tools during the conversation (it manages the conversation history).
/// `temperature` is the bit pattern of the `f32` sampling temperature.
pub struct Agent<T> {
    pub model: String,
    pub url: String,
    pub api_key: String,
    pub system_prompt: String,
    pub temperature: u32,
    tool_registry: Option<ToolRegistry<T>>,
    history: Vec<Message>,
}

/// What an agent holds.
pub struct AgentView<T> {
    pub model: Seq<char>,
    pub url: Seq<char>,
    pub api_key: Seq<char>,
    pub system_prompt: Seq<char>,
    pub temperature: u32,
    pub tools: Option<Seq<ToolEntryView<T>>>,
    pub history: Seq<MessageView>,
}

impl<T> View for Agent<T> {
    type V = AgentView<T>;

    closed spec fn view(&self) -> AgentView<T> {
        AgentView {
            model: self.model@,
            url: self.url@,
            api_key: self.api_key@,
            system_prompt: self.system_prompt@,
            temperature: self.temperature,
            tools: match self.tool_registry {
                Some(r) => Some(r@),
                None => None,
            },
            history: messages_view(self.history@),
        }
    }
}

/// The request that an agent sends: its system prompt before its whole
/// history, the definitions of its tools when it has a registry, its model
/// and temperature, not streamed.
pub open spec fn request_view<T>(a: AgentView<T>) -> CompletionRequestView {
    CompletionRequestView {
        model: a.model,
        messages: seq![system_message_view(a.system_prompt)] + a.history,
        tools: match a.tools {
            Some(t) => Some(defined_tools(t)),
            None => None,
        },
        temperature: a.temperature,
        top_p: None,
        stream: Some(false),
    }
}

/// The same agent with another history.
pub open spec fn with_history<T>(a: AgentView<T>, h: Seq<MessageView>) -> AgentView<T> {
    AgentView { history: h, ..a }
}

/// A message of the user.
pub fn user_message(text: &str) -> (res: Message)
    ensures
        res@ == user_message_view(text@),
{
    Message {
        role: Role::User,
        content: Some(text.to_owned()),
        multi_content: None,
        tool_calls: None,
        tool_call_id: None,
        name: None,
    }
}

/// A message of the model, with the tool calls it made, if any.
pub fn assistant_message(content: String, tool_calls: Option<Vec<ToolCall>>) -> (res: Message)
    ensures
        res@ == assistant_message_view(content@, opt_tool_calls_view(tool_calls)),
{
    Message {
        role: Role::Assistant,
        content: Some(content),
        multi_content: None,
        tool_calls,
        tool_call_id: None,
        name: None,
    }
}

/// Where a tool loop stands.
pub enum LoopPhase {
    /// A request was sent; the model's answer is awaited.
    AwaitReply,
    /// A tool was asked to run; its result is awaited.
    AwaitTool { callback: bool, name: String, id: String },
    /// The loop has ended.
    Finished,
}

pub enum PhaseView {
    AwaitReply,
    AwaitTool { callback: bool, name: Seq<char>, id: Seq<char> },
    Finished,
}

/// The state of one run of an agent's tool loop.
pub struct ToolLoop {
    max_loop: usize,
    round: usize,
    calls: Vec<ToolCall>,
    next: usize,
    phase: LoopPhase,
}

pub struct ToolLoopView {
    /// The most requests the loop may send.
    pub max_loop: usize,
    /// The number of the current round (the first is 0).
    pub round: usize,
    /// The tool calls of the current round.
    pub calls: Seq<ToolCallView>,
    /// The position, among them, of the call being run or to run next.
    pub next: usize,
    pub phase: PhaseView,
}

impl View for ToolLoop {
    type V = ToolLoopView;

    closed spec fn view(&self) -> ToolLoopView {
        ToolLoopView {
            max_loop: self.max_loop,
            round: self.round,
            calls: tool_calls_view(self.calls@),
            next: self.next,
            phase: match self.phase {
                LoopPhase::AwaitReply => PhaseView::AwaitReply,
                LoopPhase::AwaitTool { callback, name, id } => PhaseView::AwaitTool {
                    callback,
                    name: name@,
                    id: id@,
                },
                LoopPhase::Finished => PhaseView::Finished,
            },
        }
    }
}

/// A loop that is still going has rounds left, and a tool that is awaited
/// is one of the current calls.
pub open spec fn loop_consistent(r: ToolLoopView) -> bool {
    &&& r.calls.len() <= usize::MAX
    &&& r.next <= r.calls.len()
    &&& !(r.phase is Finished) ==> r.round < r.max_loop
    &&& r.phase is AwaitTool ==> r.next < r.calls.len()
    &&& r.phase matches PhaseView::AwaitTool { name, id, .. } ==> name == r.calls[r.next as int].function.name
        && id == r.calls[r.next as int].id
}

impl ToolLoop {
    #[verifier::type_invariant]
    closed spec fn consistent(self) -> bool {
        loop_consistent(self@)
    }

    /// Whether the loop has ended.
    pub fn is_finished(&self) -> (res: bool)
        ensures
            res == (self@.phase is Finished),
    {
        match self.phase {
            LoopPhase::Finished => true,
            _ => false,
        }
    }
}

/// What the caller of a tool loop is to do next.
pub enum LoopAction {
    /// Send this request to the model and hand back its answer.
    Send(CompletionRequest),
    /// Run the tool registered under `name` with these arguments and hand
    /// back its result.
    RunTool { name: String, arguments: serde_json::Value },
    /// The loop is over, with this answer.
    Finish(Result<String, AgentError>),
}

pub enum ActionView {
    Send(CompletionRequestView),
    RunTool(Seq<char>, serde_json::Value),
    Answer(Seq<char>),
    Fail(ErrorView),
}

impl View for LoopAction {
    type V = ActionView;

    open spec fn view(&self) -> ActionView {
        match self {
            LoopAction::Send(r) => ActionView::Send(r@),
            LoopAction::RunTool { name, arguments } => ActionView::RunTool(name@, *arguments),
            LoopAction::Finish(Ok(s)) => ActionView::Answer(s@),
            LoopAction::Finish(Err(e)) => ActionView::Fail(e@),
        }
    }
}

/// What came of the last action.
pub enum LoopEvent {
    /// The model's answer to the request.
    Reply(CompletionResponse),
    /// The result of the tool.
    ToolOutput(String),
}

pub enum EventView {
    Reply(Seq<MessageView>),
    ToolOutput(Seq<char>),
}

impl View for LoopEvent {
    type V = EventView;

    open spec fn view(&self) -> EventView {
        match self {
            LoopEvent::Reply(r) => EventView::Reply(r@),
            LoopEvent::ToolOutput(s) => EventView::ToolOutput(s@),
        }
    }
}

/// The loop, ended.
pub open spec fn finished(r: ToolLoopView) -> ToolLoopView {
    ToolLoopView { phase: PhaseView::Finished, ..r }
}

/// The next thing to do once the calls before position `r.next` of the
/// current round have been run: run the next call (when the tool is known and
/// its arguments are JSON; the tool gets the value read from that call's own
/// argument text, and its entry says whether its result goes back to the
/// model), or, when all have run, send the next request.
pub open spec fn dispatch<T>(a: AgentView<T>, r: ToolLoopView) -> (ToolLoopView, ActionView) {
    if r.next >= r.calls.len() {
        if r.round + 1 < r.max_loop {
            (
                ToolLoopView { round: (r.round + 1) as usize, phase: PhaseView::AwaitReply, ..r },
                ActionView::Send(request_view(a)),
            )
        } else {
            (finished(r), ActionView::Fail(ErrorView::MaxIterations(r.max_loop)))
        }
    } else {
        let call = r.calls[r.next as int];
        match plan_call(a.tools, call) {
            CallPlan::Stop(err) => (finished(r), ActionView::Fail(err)),
            CallPlan::Run { callback, arguments } => (
                ToolLoopView {
                    phase: PhaseView::AwaitTool { callback, name: call.function.name, id: call.id },
                    ..r
                },
                ActionView::RunTool(call.function.name, arguments),
            ),
        }
    }
}

/// One step of the tool loop: the history after it, the loop's new state and
/// the next action.
///
/// An answer without tool calls is the final answer. An answer with calls on
/// the last round ends the loop with `MaxIterations`. Otherwise the calls are
/// run in order; each result is added to the history, and a tool whose result
/// does not go back to the model ends the loop with that result.
pub open spec fn next_step<T>(a: AgentView<T>, r: ToolLoopView, e: EventView) -> (Seq<MessageView>, ToolLoopView, ActionView) {
    match (r.phase, e) {
        (PhaseView::AwaitReply, EventView::Reply(choices)) => match reply_view(choices) {
            None => (a.history, finished(r), ActionView::Fail(ErrorView::NoChoices)),
            Some((text, calls)) => if calls is None || calls->0.len() == 0 {
                (a.history.push(assistant_message_view(text, None)), finished(r), ActionView::Answer(text))
            } else if r.round + 1 >= r.max_loop {
                (
                    a.history.push(assistant_message_view(text, calls)),
                    finished(r),
                    ActionView::Fail(ErrorView::MaxIterations(r.max_loop)),
                )
            } else {
                let h = a.history.push(assistant_message_view(text, calls));
                let d = dispatch(with_history(a, h), ToolLoopView { calls: calls->0, next: 0, ..r });
                (h, d.0, d.1)
            },
        },
        (PhaseView::AwaitTool { callback, name, id }, EventView::ToolOutput(out)) => {
            let h = a.history.push(tool_message_view(out, id, name));
            if !callback {
                (h, finished(r), ActionView::Answer(out))
            } else {
                let d = dispatch(with_history(a, h), ToolLoopView { next: (r.next + 1) as usize, ..r });
                (h, d.0, d.1)
            }
        },
        _ => (a.history, finished(r), ActionView::Fail(ErrorView::UnexpectedEvent)),
    }
}

/// The start of the tool loop: without a registry it fails at once;
/// otherwise the user's message joins the history and, when the loop may send
/// at least one request, the first request is sent.
pub open spec fn start_step<T>(a: AgentView<T>, message: Seq<char>, max_loop: usize) -> (Seq<MessageView>, ToolLoopView, ActionView) {
    let r0 = ToolLoopView { max_loop, round: 0, calls: Seq::empty(), next: 0, phase: PhaseView::Finished };
    if a.tools is None {
        (a.history, r0, ActionView::Fail(ErrorView::NoToolRegistry))
    } else {
        let h = a.history.push(user_message_view(message));
        if max_loop == 0 {
            (h, r0, ActionView::Fail(ErrorView::MaxIterations(0)))
        } else {
            (h, ToolLoopView { phase: PhaseView::AwaitReply, ..r0 }, ActionView::Send(request_view(with_history(a, h))))
        }
    }
}

/// The tool calls that an answer carries are no more than a `Vec` holds (as
/// is so of every answer that a `LoopEvent` holds).
pub open spec fn event_fits(e: EventView) -> bool {
    match e {
        EventView::Reply(choices) => match reply_view(choices) {
            Some((_, Some(calls))) => calls.len() <= usize::MAX,
            _ => true,
        },
        EventView::ToolOutput(_) => true,
    }
}

/// A plain prompt that gets an answer adds exactly two messages to the
/// history: the user's message, then the model's text (without tool calls,
/// even when the answer made some). One that gets no choice adds only the
/// user's message.
pub proof fn law_prompt_exchange<T>(a: AgentView<T>, message: Seq<char>, choices: Seq<MessageView>)
    ensures
        ({
            let begun = a.history.push(user_message_view(message));
            match reply_view(choices) {
                Some(r) => begun.push(assistant_message_view(r.0, None))
                    == a.history + seq![user_message_view(message), assistant_message_view(r.0, None)],
                None => begun == a.history + seq![user_message_view(message)],
            }
        }),
{
    let begun = a.history.push(user_message_view(message));
    match reply_view(choices) {
        Some(r) => {
            assert(begun.push(assistant_message_view(r.0, None))
                =~= a.history + seq![user_message_view(message), assistant_message_view(r.0, None)]);
        },
        None => {
            assert(begun =~= a.history + seq![user_message_view(message)]);
        },
    }
}

/// When a step of the tool loop runs a tool, it runs the call at the loop's
/// new position: the tool registered under the name that call gives, with the
/// value read from that call's own argument text, and the loop then awaits
/// the result of that very call (its id and name). The position is the first
/// call of a fresh answer, or the call after the one whose result just came.
pub proof fn law_tool_runs_its_call<T>(a: AgentView<T>, r: ToolLoopView, e: EventView)
    requires
        loop_consistent(r),
        event_fits(e),
    ensures
        ({
            let s = next_step(a, r, e);
            let call = s.1.calls[s.1.next as int];
            s.2 matches ActionView::RunTool(name, args) ==> {
                &&& s.1.next < s.1.calls.len()
                &&& name == call.function.name
                &&& args == json_value_of(call.function.arguments)
                &&& (a.tools matches Some(t) && (lookup(t, name) matches Some(entry)
                    && s.1.phase == (PhaseView::AwaitTool { callback: entry.callback, name, id: call.id })))
                &&& (e matches EventView::Reply(choices) ==> (s.1.next == 0
                    && (reply_view(choices) matches Some(rep) && rep.1 == Some(s.1.calls))))
                &&& (e is ToolOutput ==> s.1.calls == r.calls && s.1.next == r.next + 1)
            }
        }),
{
    law_tool_loop_step(a, r, e);
}

/// The result of a tool whose result goes back to the model joins the history
/// as a tool message answering the call that ran: its content is the result,
/// its call id and name are those of the call at the loop's position.
pub proof fn law_tool_result_answers_its_call<T>(a: AgentView<T>, r: ToolLoopView, out: Seq<char>)
    requires
        loop_consistent(r),
        r.phase matches PhaseView::AwaitTool { callback, .. } && callback,
    ensures
        next_step(a, r, EventView::ToolOutput(out)).0 == a.history.push(
            MessageView {
                role: Role::Tool,
                content: Some(out),
                multi_content: None,
                tool_calls: None,
                tool_call_id: Some(r.calls[r.next as int].id),
                name: Some(r.calls[r.next as int].function.name),
            },
        ),
{
}

/// A tool whose result does not go back to the model ends the loop with that
/// result as the answer, after adding it to the history as the answer to its
/// call.
pub proof fn law_final_tool_result<T>(a: AgentView<T>, r: ToolLoopView, out: Seq<char>)
    requires
        loop_consistent(r),
        r.phase matches PhaseView::AwaitTool { callback, .. } && !callback,
    ensures
        ({
            let s = next_step(a, r, EventView::ToolOutput(out));
            &&& s.2 == ActionView::Answer(out)
            &&& s.1.phase is Finished
            &&& s.0.len() == a.history.len() + 1
            &&& s.0.last().tool_call_id == Some(r.calls[r.next as int].id)
            &&& s.0.last().content == Some(out)
        }),
{
}

/// The request an agent sends carries the agent's own settings: its model, its
/// temperature, no `top_p`, not streamed, its system prompt first and then its
/// whole history in order; and it offers exactly the definitions of its tools:
/// each registered tool that has a definition, in the registry's order, and
/// nothing else.
pub proof fn law_request_carries_agent<T>(a: AgentView<T>)
    ensures
        ({
            let q = request_view(a);
            &&& q.model == a.model
            &&& q.temperature == a.temperature
            &&& q.top_p is None
            &&& q.stream == Some(false)
            &&& q.messages.len() == a.history.len() + 1
            &&& q.messages[0].role == Role::System
            &&& q.messages[0].content == Some(a.system_prompt)
            &&& q.messages.subrange(1, q.messages.len() as int) == a.history
            &&& (a.tools is None <==> q.tools is None)
            &&& a.tools matches Some(t) ==> crate::tools_registry::offers_exactly(t, q.tools->0)
        }),
{
    let q = request_view(a);
    assert(q.messages.subrange(1, q.messages.len() as int) =~= a.history);
    if let Some(t) = a.tools {
        crate::tools_registry::law_definitions_offered(t);
    }
}

/// `after` is closer to the end of the loop than `before`: it has ended, or it
/// has fewer rounds left, or in the same round it moved from awaiting the
/// model to running tools, or it has fewer tools left to run.
pub open spec fn steps_down(before: ToolLoopView, after: ToolLoopView) -> bool {
    ||| after.phase is Finished
    ||| after.max_loop - after.round < before.max_loop - before.round
    ||| (after.round == before.round && before.phase is AwaitReply && after.phase is AwaitTool)
    ||| (after.round == before.round && before.phase is AwaitTool && after.phase is AwaitTool
        && after.calls == before.calls && after.next > before.next)
}

/// Every step of the tool loop only adds to the history (at most one
/// message), keeps the loop consistent and brings it closer to its end; a
/// request is only ever sent in a round below the budget, the round after the
/// one before. So a loop sends at most `max_loop` requests and ends.
pub proof fn law_tool_loop_step<T>(a: AgentView<T>, r: ToolLoopView, e: EventView)
    requires
        loop_consistent(r),
        event_fits(e),
    ensures
        ({
            let s = next_step(a, r, e);
            &&& a.history.is_prefix_of(s.0)
            &&& s.0.len() <= a.history.len() + 1
            &&& loop_consistent(s.1)
            &&& s.1.max_loop == r.max_loop
            &&& steps_down(r, s.1)
            &&& s.2 is Send ==> s.1.round == r.round + 1 && s.1.round < s.1.max_loop
            &&& !(s.2 is Send) ==> (s.1.phase is Finished || s.1.round == r.round)
            &&& r.phase is Finished ==> s.1.phase is Finished
            &&& s.1.phase is Finished <==> !(s.2 is Send || s.2 is RunTool)
        }),
{
    let s = next_step(a, r, e);
    assert(a.history.is_prefix_of(s.0));
}

/// Starting the tool loop adds at most the user's message to the history, and
/// the first request, if any, is sent in round 0 of a positive budget.
pub proof fn law_tool_loop_start<T>(a: AgentView<T>, message: Seq<char>, max_loop: usize)
    ensures
        ({
            let s = start_step(a, message, max_loop);
            &&& a.history.is_prefix_of(s.0)
            &&& loop_consistent(s.1)
            &&& s.1.max_loop == max_loop
            &&& s.2 is Send ==> s.1.round == 0 && 0 < max_loop && s.1.phase is AwaitReply
            &&& s.1.phase is Finished <==> !(s.2 is Send)
        }),
{
    let s = start_step(a, message, max_loop);
    assert(a.history.is_prefix_of(s.0));
}

/// The requests that a loop in state `r` may still send.
pub open spec fn sends_left(r: ToolLoopView) -> int {
    if r.phase is Finished {
        0
    } else {
        r.max_loop - 1 - r.round
    }
}

/// The number of requests a loop in state `r` sends while it takes the
/// outcomes `events`, one step each.
pub open spec fn sends_in_run<T>(a: AgentView<T>, r: ToolLoopView, events: Seq<EventView>) -> nat
    decreases events.len(),
{
    if events.len() == 0 {
        0
    } else {
        let s = next_step(a, r, events[0]);
        (if s.2 is Send { 1nat } else { 0nat }) + sends_in_run(with_history(a, s.0), s.1, events.drop_first())
    }
}

/// Whatever outcomes a running loop takes, it sends no more requests than it
/// has left.
pub proof fn law_tool_loop_sends_left<T>(a: AgentView<T>, r: ToolLoopView, events: Seq<EventView>)
    requires
        loop_consistent(r),
        forall|i: int| 0 <= i < events.len() ==> event_fits(#[trigger] events[i]),
    ensures
        sends_in_run(a, r, events) <= sends_left(r),
    decreases events.len(),
{
    if events.len() > 0 {
        law_tool_loop_step(a, r, events[0]);
        let s = next_step(a, r, events[0]);
        let rest = events.drop_first();
        assert forall|i: int| 0 <= i < rest.len() implies event_fits(#[trigger] rest[i]) by {
            assert(rest[i] == events[i + 1]);
        }
        law_tool_loop_sends_left(with_history(a, s.0), s.1, rest);
    }
}

/// A whole run of the tool loop, from its start and whatever outcomes it
/// takes, sends at most `max_loop` requests to the model.
pub proof fn law_tool_loop_run_bounded<T>(a: AgentView<T>, message: Seq<char>, max_loop: usize, events: Seq<EventView>)
    requires
        forall|i: int| 0 <= i < events.len() ==> event_fits(#[trigger] events[i]),
    ensures
        ({
            let st = start_step(a, message, max_loop);
            (if st.2 is Send { 1int } else { 0int }) + sends_in_run(with_history(a, st.0), st.1, events) <= max_loop
        }),
{
    let st = start_step(a, message, max_loop);
    law_tool_loop_start(a, message, max_loop);
    law_tool_loop_sends_left(with_history(a, st.0), st.1, events);
}

/// The agent is unchanged but for its history.
pub open spec fn same_but_history<T>(a: AgentView<T>, b: AgentView<T>) -> bool {
    b == with_history(a, b.history)
}

impl<T> Default for Agent<T> {
    /// Default agent configuration, with no tools registered.
    /// * Model: "google/gemma-4-e4b"
    /// * URL: "http://127.0.0.1:1234"
    /// * API Key: "local-key"
    /// * System Prompt: "You are AI assistant, try helping the user using your all capabilities."
    /// * Temperature: 0.0
    fn default() -> (res: Self)
        ensures
            res@.model == "google/gemma-4-e4b"@,
            res@.url == "http://127.0.0.1:1234"@,
            res@.api_key == "local-key"@,
            res@.system_prompt == "You are AI assistant, try helping the user using your all capabilities."@,
            res@.temperature == 0,
            res@.tools is None,
            res@.history == Seq::<MessageView>::empty(),
    {
        let res = Agent {
            model: "google/gemma-4-e4b".to_owned(),
            url: "http://127.0.0.1:1234".to_owned(),
            api_key: "local-key".to_owned(),
            system_prompt: "You are AI assistant, try helping the user using your all capabilities.".to_owned(),
            temperature: 0,
            tool_registry: None,
            history: Vec::new(),
        };
        assert(res@.history =~= Seq::<MessageView>::empty());
        res
    }
}

impl<T> Agent<T> {
    /// A fresh agent with the given configuration and tools, and no history.
    /// `temperature` is the bit pattern of the (already clamped) temperature.
    pub fn init(
        model: String,
        url: String,
        api_key: String,
        system_prompt: String,
        temperature: u32,
        tool_registry: Option<ToolRegistry<T>>,
    ) -> (res: Self)
        ensures
            res@.model == model@,
            res@.url == url@,
            res@.api_key == api_key@,
            res@.system_prompt == system_prompt@,
            res@.temperature == temperature,
            res@.tools == match tool_registry {
                Some(r) => Some(r@),
                None => None::<Seq<ToolEntryView<T>>>,
            },
            res@.history == Seq::<MessageView>::empty(),
    {
        let res = Agent { model, url, api_key, system_prompt, temperature, tool_registry, history: Vec::new() };
        assert(res@.history =~= Seq::<MessageView>::empty());
        res
    }

    /// Adds a tool registry to the agent, which allows the agent to call
    /// tools during the conversation (it replaces any earlier registry).
    pub fn add_tools(&mut self, registry: ToolRegistry<T>)
        ensures
            final(self)@ == (AgentView { tools: Some(registry@), ..old(self)@ }),
    {
        self.tool_registry = Some(registry);
    }

    /// The agent's tool registry, if it has one.
    pub fn tool_registry(&self) -> (res: Option<&ToolRegistry<T>>)
        ensures
            match res {
                Some(r) => self@.tools == Some(r@),
                None => self@.tools is None,
            },
    {
        match &self.tool_registry {
            Some(r) => Some(r),
            None => None,
        }
    }

    /// Access conversation history.
    pub fn history(&self) -> (res: &[Message])
        ensures
            messages_view(res@) == self@.history,
    {
        self.history.as_slice()
    }

    /// Clear conversation history.
    pub fn clear_history(&mut self)
        ensures
            final(self)@ == with_history(old(self)@, Seq::empty()),
    {
        self.history.clear();
        assert(self@.history =~= Seq::<MessageView>::empty());
    }

    fn push_message(&mut self, m: Message)
        ensures
            final(self)@ == with_history(old(self)@, old(self)@.history.push(m@)),
    {
        self.history.push(m);
        assert(self@.history =~= old(self)@.history.push(m@));
    }

    /// The request for the model: the system prompt, then the whole history,
    /// with the tool definitions when the agent has a registry.
    pub fn completion_request(&self) -> (res: CompletionRequest)
        ensures
            res@ == request_view(self@),
    {
        let mut messages: Vec<Message> = Vec::new();
        messages.push(system_message(&self.system_prompt));
        let mut rest = clone_messages(&self.history);
        messages.append(&mut rest);
        let tools = match &self.tool_registry {
            Some(r) => Some(r.get_tool_definitions()),
            None => None,
        };
        let res = CompletionRequest {
            model: self.model.clone(),
            messages,
            tools,
            temperature: self.temperature,
            top_p: None,
            stream: Some(false),
        };
        assert(res@.messages =~= request_view(self@).messages);
        res
    }

    /// Starts a plain prompt: the user's message joins the history, and the
    /// request to send is returned.
    pub fn begin_prompt(&mut self, message: &str) -> (res: CompletionRequest)
        ensures
            final(self)@ == with_history(old(self)@, old(self)@.history.push(user_message_view(message@))),
            res@ == request_view(final(self)@),
    {
        self.push_message(user_message(message));
        self.completion_request()
    }

    /// Ends a plain prompt with the model's answer: its text joins the
    /// history as the model's message and is returned. An answer without
    /// choices is `NoChoices` and leaves the history as it is.
    pub fn finish_prompt(&mut self, response: CompletionResponse) -> (res: Result<String, AgentError>)
        ensures
            match reply_view(response@) {
                None => res matches Err(e) && e@ == ErrorView::NoChoices && final(self)@ == old(self)@,
                Some(r) => res matches Ok(text) && text@ == r.0
                    && final(self)@ == with_history(old(self)@, old(self)@.history.push(assistant_message_view(r.0, None))),
            },
    {
        match read_reply(response) {
            Ok((text, _)) => {
                let reply = text.clone();
                self.push_message(assistant_message(text, None));
                Ok(reply)
            }
            Err(e) => Err(e),
        }
    }

    /// Runs the calls of the current round from position `next` on, as far as
    /// the next action.
    fn dispatch(&self, max_loop: usize, round: usize, calls: Vec<ToolCall>, next: usize) -> (res: (ToolLoop, LoopAction))
        requires
            next <= calls@.len(),
            round < max_loop,
        ensures
            ({
                let d = dispatch(self@, ToolLoopView {
                    max_loop, round, calls: tool_calls_view(calls@), next, phase: PhaseView::AwaitReply,
                });
                res.0@ == d.0 && res.1@ == d.1
            }),
    {
        if next >= calls.len() {
            if round + 1 < max_loop {
                let req = self.completion_request();
                (ToolLoop { max_loop, round: round + 1, calls, next, phase: LoopPhase::AwaitReply }, LoopAction::Send(req))
            } else {
                (ToolLoop { max_loop, round, calls, next, phase: LoopPhase::Finished },
                    LoopAction::Finish(Err(AgentError::MaxIterations(max_loop))))
            }
        } else {
            let (callback, arguments) = match prepare_call(self.tool_registry(), &calls[next]) {
                Ok(p) => p,
                Err(e) => {
                    return (ToolLoop { max_loop, round, calls, next, phase: LoopPhase::Finished },
                        LoopAction::Finish(Err(e)));
                }
            };
            let name = calls[next].function.name.clone();
            let id = calls[next].id.clone();
            let tool_name = name.clone();
            (ToolLoop { max_loop, round, calls, next, phase: LoopPhase::AwaitTool { callback, name, id } },
                LoopAction::RunTool { name: tool_name, arguments })
        }
    }

    /// Runs the infamous internal loop `Context -> AI -> tools -> history ->
    /// loop (if callback)`, first step: see `start_step`.
    pub fn start_tool_loop(&mut self, message: &str, max_loop: usize) -> (res: (ToolLoop, LoopAction))
        ensures
            ({
                let s = start_step(old(self)@, message@, max_loop);
                &&& final(self)@ == with_history(old(self)@, s.0)
                &&& res.0@ == s.1
                &&& res.1@ == s.2
            }),
    {
        let done = ToolLoop { max_loop, round: 0, calls: Vec::new(), next: 0, phase: LoopPhase::Finished };
        assert(done@.calls =~= Seq::<ToolCallView>::empty());
        if self.tool_registry.is_none() {
            return (done, LoopAction::Finish(Err(AgentError::NoToolRegistry)));
        }
        self.push_message(user_message(message));
        if max_loop == 0 {
            return (done, LoopAction::Finish(Err(AgentError::MaxIterations(0))));
        }
        let req = self.completion_request();
        (ToolLoop { max_loop, round: 0, calls: Vec::new(), next: 0, phase: LoopPhase::AwaitReply }, LoopAction::Send(req))
    }

    /// One further step of the tool loop, with what came of the last action:
    /// see `next_step`. Only the history of the agent changes.
    pub fn advance_tool_loop(&mut self, run: &mut ToolLoop, event: LoopEvent) -> (res: LoopAction)
        ensures
            ({
                let s = next_step(old(self)@, old(run)@, event@);
                &&& final(self)@ == with_history(old(self)@, s.0)
                &&& final(run)@ == s.1
                &&& res@ == s.2
            }),
    {
        proof {
            use_type_invariant(&*run);
        }
        let mut taken = ToolLoop { max_loop: 0, round: 0, calls: Vec::new(), next: 0, phase: LoopPhase::Finished };
        assert(taken@.calls =~= Seq::<ToolCallView>::empty());
        std::mem::swap(&mut taken, run);
        let ToolLoop { max_loop, round, calls, next, phase } = taken;
        let ghost r = old(run)@;
        assert(loop_consistent(r));
        assert(tool_calls_view(calls@) == r.calls);
        assert(next == r.next && max_loop == r.max_loop && round == r.round);
        match (phase, event) {
            (LoopPhase::AwaitReply, LoopEvent::Reply(response)) => {
                match read_reply(response) {
                    Err(e) => {
                        *run = ToolLoop { max_loop, round, calls, next, phase: LoopPhase::Finished };
                        LoopAction::Finish(Err(e))
                    }
                    Ok((text, tool_calls)) => {
                        let new_calls = match tool_calls {
                            Some(c) => c,
                            None => {
                                let answer = text.clone();
                                self.push_message(assistant_message(text, None));
                                *run = ToolLoop { max_loop, round, calls, next, phase: LoopPhase::Finished };
                                return LoopAction::Finish(Ok(answer));
                            }
                        };
                        if new_calls.len() == 0 {
                            let answer = text.clone();
                            self.push_message(assistant_message(text, None));
                            *run = ToolLoop { max_loop, round, calls, next, phase: LoopPhase::Finished };
                            return LoopAction::Finish(Ok(answer));
                        }
                        if round + 1 >= max_loop {
                            self.push_message(assistant_message(text, Some(new_calls)));
                            *run = ToolLoop { max_loop, round, calls, next, phase: LoopPhase::Finished };
                            return LoopAction::Finish(Err(AgentError::MaxIterations(max_loop)));
                        }
                        let kept = clone_tool_calls(&new_calls);
                        self.push_message(assistant_message(text, Some(new_calls)));
                        let (new_run, action) = self.dispatch(max_loop, round, kept, 0);
                        *run = new_run;
                        action
                    }
                }
            }
            (LoopPhase::AwaitTool { callback, name, id }, LoopEvent::ToolOutput(out)) => {
                assert(r.phase is AwaitTool);
                let count: usize = calls.len();
                assert(next < count);
                let answer = out.clone();
                self.push_message(tool_message(out, id, name));
                if !callback {
                    *run = ToolLoop { max_loop, round, calls, next, phase: LoopPhase::Finished };
                    return LoopAction::Finish(Ok(answer));
                }
                let (new_run, action) = self.dispatch(max_loop, round, calls, next + 1);
                *run = new_run;
                action
            }
            _ => {
                *run = ToolLoop { max_loop, round, calls, next, phase: LoopPhase::Finished };
                LoopAction::Finish(Err(AgentError::UnexpectedEvent))
            }
        }
    }
}

} // verus!
