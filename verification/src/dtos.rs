//! The messages, tool calls and request/response shapes of a chat-completion API.
//!
//! Each type has a view: the same data with strings as `Seq<char>` and vectors
//! as sequences of views, so that contracts can compare them.
use vstd::prelude::*;
use crate::error::AgentError;

verus! {

/// Who wrote a message.
#[derive(Clone, Copy, Debug, PartialEq, Eq, Structural)]
pub enum Role {
    System,
    User,
    Assistant,
    Tool,
}

/// The function that a tool call names, with its arguments as JSON text.
#[derive(Debug)]
pub struct FunctionCall {
    pub name: String,
    pub arguments: String,
}

/// A request of the model to run one tool.
#[derive(Debug)]
pub struct ToolCall {
    pub id: String,
    pub kind: String,
    pub function: FunctionCall,
}

/// One part of a message made of several parts.
#[derive(Debug)]
pub struct ContentPart {
    pub kind: String,
    pub text: String,
}

/// One message of a conversation.
#[derive(Debug)]
pub struct Message {
    pub role: Role,
    pub content: Option<String>,
    pub multi_content: Option<Vec<ContentPart>>,
    pub tool_calls: Option<Vec<ToolCall>>,
    pub tool_call_id: Option<String>,
    pub name: Option<String>,
}

/// The description of a tool that is offered to the model.
#[derive(Debug)]
pub struct FunctionDefinition {
    pub name: String,
    pub description: String,
    pub parameters: serde_json::Value,
}

/// A tool offered to the model.
#[derive(Debug)]
pub struct ToolDefinition {
    pub kind: String,
    pub function: FunctionDefinition,
}

/// A chat-completion request. `temperature` and `top_p` are the bit patterns
/// of the `f32` sampling parameters, carried unchanged.
#[derive(Debug)]
pub struct CompletionRequest {
    pub model: String,
    pub messages: Vec<Message>,
    pub tools: Option<Vec<ToolDefinition>>,
    pub temperature: u32,
    pub top_p: Option<u32>,
    pub stream: Option<bool>,
}

/// One alternative answer of the model.
#[derive(Debug)]
pub struct Choice {
    pub message: Message,
}

/// The answer of a chat-completion request.
#[derive(Debug)]
pub struct CompletionResponse {
    pub choices: Vec<Choice>,
}

pub struct FunctionCallView {
    pub name: Seq<char>,
    pub arguments: Seq<char>,
}

pub struct ToolCallView {
    pub id: Seq<char>,
    pub kind: Seq<char>,
    pub function: FunctionCallView,
}

pub struct ContentPartView {
    pub kind: Seq<char>,
    pub text: Seq<char>,
}

pub struct MessageView {
    pub role: Role,
    pub content: Option<Seq<char>>,
    pub multi_content: Option<Seq<ContentPartView>>,
    pub tool_calls: Option<Seq<ToolCallView>>,
    pub tool_call_id: Option<Seq<char>>,
    pub name: Option<Seq<char>>,
}

pub struct ToolDefinitionView {
    pub kind: Seq<char>,
    pub name: Seq<char>,
    pub description: Seq<char>,
    pub parameters: serde_json::Value,
}

pub struct CompletionRequestView {
    pub model: Seq<char>,
    pub messages: Seq<MessageView>,
    pub tools: Option<Seq<ToolDefinitionView>>,
    pub temperature: u32,
    pub top_p: Option<u32>,
    pub stream: Option<bool>,
}

pub open spec fn opt_string_view(s: Option<String>) -> Option<Seq<char>> {
    match s {
        Some(t) => Some(t@),
        None => None,
    }
}

pub open spec fn tool_calls_view(s: Seq<ToolCall>) -> Seq<ToolCallView> {
    s.map_values(|c: ToolCall| c@)
}

pub open spec fn opt_tool_calls_view(s: Option<Vec<ToolCall>>) -> Option<Seq<ToolCallView>> {
    match s {
        Some(v) => Some(tool_calls_view(v@)),
        None => None,
    }
}

pub open spec fn parts_view(s: Seq<ContentPart>) -> Seq<ContentPartView> {
    s.map_values(|p: ContentPart| p@)
}

pub open spec fn messages_view(s: Seq<Message>) -> Seq<MessageView> {
    s.map_values(|m: Message| m@)
}

pub open spec fn definitions_view(s: Seq<ToolDefinition>) -> Seq<ToolDefinitionView> {
    s.map_values(|d: ToolDefinition| d@)
}

impl View for FunctionCall {
    type V = FunctionCallView;

    open spec fn view(&self) -> FunctionCallView {
        FunctionCallView { name: self.name@, arguments: self.arguments@ }
    }
}

impl View for ToolCall {
    type V = ToolCallView;

    open spec fn view(&self) -> ToolCallView {
        ToolCallView { id: self.id@, kind: self.kind@, function: self.function@ }
    }
}

impl View for ContentPart {
    type V = ContentPartView;

    open spec fn view(&self) -> ContentPartView {
        ContentPartView { kind: self.kind@, text: self.text@ }
    }
}

impl View for Message {
    type V = MessageView;

    open spec fn view(&self) -> MessageView {
        MessageView {
            role: self.role,
            content: opt_string_view(self.content),
            multi_content: match self.multi_content {
                Some(v) => Some(parts_view(v@)),
                None => None,
            },
            tool_calls: opt_tool_calls_view(self.tool_calls),
            tool_call_id: opt_string_view(self.tool_call_id),
            name: opt_string_view(self.name),
        }
    }
}

impl View for ToolDefinition {
    type V = ToolDefinitionView;

    open spec fn view(&self) -> ToolDefinitionView {
        ToolDefinitionView {
            kind: self.kind@,
            name: self.function.name@,
            description: self.function.description@,
            parameters: self.function.parameters,
        }
    }
}

impl View for CompletionRequest {
    type V = CompletionRequestView;

    open spec fn view(&self) -> CompletionRequestView {
        CompletionRequestView {
            model: self.model@,
            messages: messages_view(self.messages@),
            tools: match self.tools {
                Some(v) => Some(definitions_view(v@)),
                None => None,
            },
            temperature: self.temperature,
            top_p: self.top_p,
            stream: self.stream,
        }
    }
}

impl View for CompletionResponse {
    type V = Seq<MessageView>;

    /// The messages of the choices, in order.
    open spec fn view(&self) -> Seq<MessageView> {
        self.choices@.map_values(|c: Choice| c.message@)
    }
}

/// The message of a system prompt.
pub open spec fn system_message_view(prompt: Seq<char>) -> MessageView {
    MessageView {
        role: Role::System,
        content: Some(prompt),
        multi_content: None,
        tool_calls: None,
        tool_call_id: None,
        name: None,
    }
}

/// The message of the user.
pub open spec fn user_message_view(text: Seq<char>) -> MessageView {
    MessageView {
        role: Role::User,
        content: Some(text),
        multi_content: None,
        tool_calls: None,
        tool_call_id: None,
        name: None,
    }
}

/// A message of the model, with the tool calls it made, if any.
pub open spec fn assistant_message_view(text: Seq<char>, calls: Option<Seq<ToolCallView>>) -> MessageView {
    MessageView {
        role: Role::Assistant,
        content: Some(text),
        multi_content: None,
        tool_calls: calls,
        tool_call_id: None,
        name: None,
    }
}

/// The result of a tool, answering the call `id` of the tool `name`.
pub open spec fn tool_message_view(result: Seq<char>, id: Seq<char>, name: Seq<char>) -> MessageView {
    MessageView {
        role: Role::Tool,
        content: Some(result),
        multi_content: None,
        tool_calls: None,
        tool_call_id: Some(id),
        name: Some(name),
    }
}

/// What a model's answer says: the text and tool calls of its first choice
/// (no text counts as empty text), or nothing when it has no choice.
pub open spec fn reply_view(choices: Seq<MessageView>) -> Option<(Seq<char>, Option<Seq<ToolCallView>>)> {
    if choices.len() == 0 {
        None
    } else {
        let m = choices[0];
        Some(
            (
                match m.content {
                    Some(t) => t,
                    None => Seq::empty(),
                },
                m.tool_calls,
            ),
        )
    }
}

/// The text read from an answer is the content of its first choice (empty
/// when it has none), whatever tool calls that choice carries, and the tool
/// calls read are that choice's; the other choices are not read. An answer is
/// read exactly when it has a choice.
pub proof fn law_reply_is_first_choice(choices: Seq<MessageView>, other: Seq<MessageView>)
    requires
        choices.len() > 0,
        other.len() > 0,
        other[0].content == choices[0].content,
    ensures
        reply_view(choices) matches Some(r) && r.1 == choices[0].tool_calls
            && (choices[0].content matches Some(t) ==> r.0 == t)
            && (choices[0].content is None ==> r.0.len() == 0),
        ({
            let x = reply_view(other)->0;
            let y = reply_view(choices)->0;
            x.0 == y.0
        }),
        reply_view(Seq::<MessageView>::empty()) is None,
{
}

/// A system message with the given prompt.
pub fn system_message(prompt: &String) -> (res: Message)
    ensures
        res@ == system_message_view(prompt@),
{
    Message {
        role: Role::System,
        content: Some(prompt.clone()),
        multi_content: None,
        tool_calls: None,
        tool_call_id: None,
        name: None,
    }
}

/// A message of a tool's result.
pub fn tool_message(result: String, id: String, name: String) -> (res: Message)
    ensures
        res@ == tool_message_view(result@, id@, name@),
{
    Message {
        role: Role::Tool,
        content: Some(result),
        multi_content: None,
        tool_calls: None,
        tool_call_id: Some(id),
        name: Some(name),
    }
}

/// The text and tool calls of the first choice of an answer; `NoChoices`
/// when it has none.
pub fn read_reply(response: CompletionResponse) -> (res: Result<(String, Option<Vec<ToolCall>>), AgentError>)
    ensures
        match reply_view(response@) {
            None => res matches Err(AgentError::NoChoices),
            Some(r) => res matches Ok(p) && p.0@ == r.0 && opt_tool_calls_view(p.1) == r.1,
        },
{
    let mut choices = response.choices;
    if choices.len() == 0 {
        return Err(AgentError::NoChoices);
    }
    let ghost first = choices@[0].message@;
    let choice = choices.remove(0);
    let message = choice.message;
    assert(message@ == first);
    let text = match message.content {
        Some(t) => t,
        None => String::new(),
    };
    Ok((text, message.tool_calls))
}

/// `serde_json::Value`'s `Clone` (derived there) copies the whole value.
pub assume_specification[ <serde_json::Value as Clone>::clone ](v: &serde_json::Value) -> (res: serde_json::Value)
    ensures
        res == *v,
;

impl Clone for FunctionCall {
    fn clone(&self) -> (res: Self)
        ensures
            res@ == self@,
    {
        FunctionCall { name: self.name.clone(), arguments: self.arguments.clone() }
    }
}

impl Clone for ToolCall {
    fn clone(&self) -> (res: Self)
        ensures
            res@ == self@,
    {
        ToolCall { id: self.id.clone(), kind: self.kind.clone(), function: self.function.clone() }
    }
}

impl Clone for ContentPart {
    fn clone(&self) -> (res: Self)
        ensures
            res@ == self@,
    {
        ContentPart { kind: self.kind.clone(), text: self.text.clone() }
    }
}

fn clone_opt_string(s: &Option<String>) -> (res: Option<String>)
    ensures
        opt_string_view(res) == opt_string_view(*s),
{
    match s {
        Some(t) => Some(t.clone()),
        None => None,
    }
}

/// Copies a list of tool calls, call by call.
pub(crate) fn clone_tool_calls(calls: &Vec<ToolCall>) -> (res: Vec<ToolCall>)
    ensures
        tool_calls_view(res@) == tool_calls_view(calls@),
{
    let mut res: Vec<ToolCall> = Vec::new();
    let mut i: usize = 0;
    while i < calls.len()
        invariant
            i <= calls.len(),
            res@.len() == i,
            forall|j: int| 0 <= j < i ==> #[trigger] res@[j]@ == calls@[j]@,
        decreases calls.len() - i,
    {
        res.push(calls[i].clone());
        i = i + 1;
    }
    assert(tool_calls_view(res@) =~= tool_calls_view(calls@));
    res
}

fn clone_parts(parts: &Vec<ContentPart>) -> (res: Vec<ContentPart>)
    ensures
        parts_view(res@) == parts_view(parts@),
{
    let mut res: Vec<ContentPart> = Vec::new();
    let mut i: usize = 0;
    while i < parts.len()
        invariant
            i <= parts.len(),
            res@.len() == i,
            forall|j: int| 0 <= j < i ==> #[trigger] res@[j]@ == parts@[j]@,
        decreases parts.len() - i,
    {
        res.push(parts[i].clone());
        i = i + 1;
    }
    assert(parts_view(res@) =~= parts_view(parts@));
    res
}

impl Clone for Message {
    fn clone(&self) -> (res: Self)
        ensures
            res@ == self@,
    {
        let tool_calls = match &self.tool_calls {
            Some(v) => Some(clone_tool_calls(v)),
            None => None,
        };
        let multi_content = match &self.multi_content {
            Some(v) => Some(clone_parts(v)),
            None => None,
        };
        Message {
            role: self.role,
            content: clone_opt_string(&self.content),
            multi_content,
            tool_calls,
            tool_call_id: clone_opt_string(&self.tool_call_id),
            name: clone_opt_string(&self.name),
        }
    }
}

impl Clone for ToolDefinition {
    fn clone(&self) -> (res: Self)
        ensures
            res@ == self@,
    {
        ToolDefinition {
            kind: self.kind.clone(),
            function: FunctionDefinition {
                name: self.function.name.clone(),
                description: self.function.description.clone(),
                parameters: self.function.parameters.clone(),
            },
        }
    }
}

/// Copies a list of messages, message by message.
pub(crate) fn clone_messages(messages: &Vec<Message>) -> (res: Vec<Message>)
    ensures
        messages_view(res@) == messages_view(messages@),
{
    let mut res: Vec<Message> = Vec::new();
    let mut i: usize = 0;
    while i < messages.len()
        invariant
            i <= messages.len(),
            res@.len() == i,
            forall|j: int| 0 <= j < i ==> #[trigger] res@[j]@ == messages@[j]@,
        decreases messages.len() - i,
    {
        res.push(messages[i].clone());
        i = i + 1;
    }
    assert(messages_view(res@) =~= messages_view(messages@));
    res
}

} // verus!
