use std::sync::Arc;

use forge::agents::LoopEvent;
use forge::api::agents::{
    advance_session, prompt_request, start_session, stream_request, Agent, AgentBuilder, SessionAction,
};
use forge::dtos::{Choice, CompletionResponse, FunctionCall, Message, Role, ToolCall};
use forge::error::AgentError;
use forge::tools_registry::ToolRegistry;

fn answer(text: Option<&str>, calls: Option<Vec<ToolCall>>) -> CompletionResponse {
    CompletionResponse {
        choices: vec![Choice {
            message: Message {
                role: Role::Assistant,
                content: text.map(|t| t.to_string()),
                multi_content: None,
                tool_calls: calls,
                tool_call_id: None,
                name: None,
            },
        }],
    }
}

fn call(id: &str, name: &str) -> ToolCall {
    ToolCall {
        id: id.to_string(),
        kind: "function".to_string(),
        function: FunctionCall { name: name.to_string(), arguments: "{}".to_string() },
    }
}

fn user(text: &str) -> Message {
    Message {
        role: Role::User,
        content: Some(text.to_string()),
        multi_content: None,
        tool_calls: None,
        tool_call_id: None,
        name: None,
    }
}

fn agent() -> Agent<u32> {
    let mut reg = ToolRegistry::init();
    reg.register("loop_tool".to_string(), true, None, 1);
    reg.register("final_tool".to_string(), false, None, 2);
    AgentBuilder::new()
        .model("qwen/qwen3-8b")
        .url("http://localhost:1234/v1")
        .api_key("local")
        .system_prompt("You are playing UNO.")
        .tool_registry(Arc::new(reg))
        .build()
        .unwrap()
}

#[test]
fn builder_defaults() {
    let b: AgentBuilder<u32> = AgentBuilder::new();
    let s = b.settings();
    assert!(s.model.is_none());
    assert_eq!(s.url, "http://localhost:1234/v1");
    assert_eq!(s.api_key, "local");
    assert_eq!(s.system_prompt, "Strictly follow user instructions!!!");
    assert_eq!(f32::from_bits(s.temperature), 0.7f32);
    assert_eq!(f32::from_bits(s.top_p), 0.9f32);
}

#[test]
fn build_requires_a_model() {
    let b: AgentBuilder<u32> = AgentBuilder::new().url("http://x");
    assert!(matches!(b.build(), Err(AgentError::ModelRequired)));
}

#[test]
fn builder_round_trip() {
    let a: Agent<u32> = AgentBuilder::new()
        .model("m")
        .temperature(0.2f32.to_bits())
        .top_p(0.5f32.to_bits())
        .build()
        .unwrap();
    let b = AgentBuilder::convert_to_builder(&a);
    let s = b.settings();
    assert_eq!(s.model.as_deref(), Some("m"));
    assert_eq!(f32::from_bits(s.temperature), 0.2);
    assert_eq!(f32::from_bits(s.top_p), 0.5);
    let a2 = b.build().unwrap();
    assert_eq!(a2.url(), "http://localhost:1234/v1");
    assert_eq!(a2.api_key(), "local");
    assert!(a2.tool_registry().is_none());
}

#[test]
fn prompt_requests_insert_the_system_prompt() {
    let a = agent();
    let req = prompt_request(&a, vec![user("hi")]);
    assert_eq!(req.model, "qwen/qwen3-8b");
    assert_eq!(req.messages.len(), 2);
    assert_eq!(req.messages[0].role, Role::System);
    assert_eq!(req.messages[0].content.as_deref(), Some("You are playing UNO."));
    assert_eq!(req.messages[1].content.as_deref(), Some("hi"));
    assert_eq!(req.stream, Some(false));
    assert_eq!(req.top_p, Some(0.9f32.to_bits()));
    assert_eq!(req.tools.as_ref().map(|t| t.len()), Some(0));
    let sreq = stream_request(&a, vec![user("hi")]);
    assert_eq!(sreq.stream, Some(true));
    assert_eq!(sreq.messages.len(), 2);
}

#[test]
fn session_without_registry_fails() {
    let a: Agent<u32> = AgentBuilder::new().model("m").build().unwrap();
    let (s, act) = start_session(&a, vec![user("hi")], 3, false);
    assert!(matches!(act, SessionAction::Finish(Err(AgentError::NoToolRegistry))));
    assert!(s.is_finished());
    let (_, act) = start_session(&agent(), vec![user("hi")], 0, false);
    assert!(matches!(act, SessionAction::Finish(Err(AgentError::MaxIterations(0)))));
}

#[test]
fn session_answer_without_tool_calls() {
    let a = agent();
    let (mut s, act) = start_session(&a, vec![user("hi")], 3, false);
    assert!(matches!(act, SessionAction::Send(ref r) if r.messages.len() == 2));
    let act = advance_session(&a, &mut s, LoopEvent::Reply(answer(Some("hello"), None)));
    assert!(matches!(act, SessionAction::Finish(Ok(ref t)) if t == "hello"));
    assert_eq!(s.history().len(), 1);
}

#[test]
fn streaming_session_streams_the_final_answer() {
    let a = agent();
    let (mut s, _) = start_session(&a, vec![user("hi")], 3, true);
    let act = advance_session(&a, &mut s, LoopEvent::Reply(answer(Some("hello"), None)));
    match act {
        SessionAction::Stream(req) => {
            assert_eq!(req.stream, Some(true));
            assert_eq!(req.messages.len(), 2);
        }
        _ => panic!("expected a stream"),
    }
}

#[test]
fn empty_tool_call_list_answers_with_the_text() {
    let a = agent();
    let (mut s, _) = start_session(&a, vec![user("hi")], 3, true);
    let act = advance_session(&a, &mut s, LoopEvent::Reply(answer(Some("text"), Some(vec![]))));
    assert!(matches!(act, SessionAction::Finish(Ok(ref t)) if t == "text"));
    assert_eq!(s.history().len(), 2);
}

#[test]
fn session_runs_tools_then_asks_again() {
    let a = agent();
    let (mut s, _) = start_session(&a, vec![user("hi")], 3, false);
    let act = advance_session(&a, &mut s, LoopEvent::Reply(answer(Some("t"), Some(vec![call("c1", "loop_tool")]))));
    assert!(matches!(act, SessionAction::RunTool { ref name, .. } if name == "loop_tool"));
    let act = advance_session(&a, &mut s, LoopEvent::ToolOutput("42".to_string()));
    match act {
        SessionAction::Send(req) => {
            assert_eq!(req.messages.len(), 4);
            assert_eq!(req.messages[2].role, Role::Assistant);
            assert_eq!(req.messages[3].role, Role::Tool);
            assert_eq!(req.messages[3].content.as_deref(), Some("42"));
        }
        _ => panic!("expected the next request"),
    }
}

#[test]
fn tool_without_callback_answers_with_its_result() {
    let a = agent();
    let (mut s, _) = start_session(&a, vec![user("hi")], 3, false);
    advance_session(&a, &mut s, LoopEvent::Reply(answer(None, Some(vec![call("c1", "final_tool")]))));
    let act = advance_session(&a, &mut s, LoopEvent::ToolOutput("done".to_string()));
    assert!(matches!(act, SessionAction::Finish(Ok(ref t)) if t == "done"));
    assert_eq!(s.history().len(), 2);
}

#[test]
fn session_budget_runs_out_after_the_last_round() {
    let a = agent();
    let (mut s, _) = start_session(&a, vec![user("hi")], 1, false);
    let act = advance_session(&a, &mut s, LoopEvent::Reply(answer(None, Some(vec![call("c1", "loop_tool")]))));
    assert!(matches!(act, SessionAction::RunTool { .. }));
    let act = advance_session(&a, &mut s, LoopEvent::ToolOutput("x".to_string()));
    assert!(matches!(act, SessionAction::Finish(Err(AgentError::MaxIterations(1)))));
    assert_eq!(s.history().len(), 3);
}

#[test]
fn session_errors() {
    let a = agent();
    let (mut s, _) = start_session(&a, vec![], 2, false);
    let act = advance_session(&a, &mut s, LoopEvent::Reply(answer(None, Some(vec![call("c1", "ghost")]))));
    assert!(matches!(act, SessionAction::Finish(Err(AgentError::ToolNotFound(ref n))) if n == "ghost"));
    let (mut s, _) = start_session(&a, vec![], 2, false);
    let act = advance_session(&a, &mut s, LoopEvent::Reply(CompletionResponse { choices: vec![] }));
    assert!(matches!(act, SessionAction::Finish(Err(AgentError::NoChoices))));
    let act = advance_session(&a, &mut s, LoopEvent::Reply(answer(None, None)));
    assert!(matches!(act, SessionAction::Finish(Err(AgentError::UnexpectedEvent))));
}

#[test]
fn converted_builder_shares_the_registry() {
    let mut reg = ToolRegistry::init();
    reg.register("t".to_string(), true, None, 5u32);
    let a = AgentBuilder::new().model("m").tool_registry(Arc::new(reg)).build().unwrap();
    let b = AgentBuilder::convert_to_builder(&a);
    let a2 = b.build().unwrap();
    let r = a2.tool_registry().expect("registry kept");
    assert_eq!(r.len(), 1);
    assert_eq!(r.get("t"), Some(&5));
}

#[test]
fn session_calls_run_with_their_own_arguments() {
    let a = agent();
    let (mut s, _) = start_session(&a, vec![user("hi")], 3, false);
    let mut c2 = call("c2", "loop_tool");
    c2.function.arguments = "{\"x\": true}".to_string();
    let act = advance_session(&a, &mut s, LoopEvent::Reply(answer(None, Some(vec![call("c1", "loop_tool"), c2]))));
    assert!(matches!(act, SessionAction::RunTool { ref arguments, .. } if arguments.as_object().map(|o| o.is_empty()) == Some(true)));
    let act = advance_session(&a, &mut s, LoopEvent::ToolOutput("r".to_string()));
    match act {
        SessionAction::RunTool { arguments, .. } => assert_eq!(arguments["x"], serde_json::Value::Bool(true)),
        _ => panic!("expected a tool run"),
    }
}
