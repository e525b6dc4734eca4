use forge::agents::{assistant_message, user_message, Agent, LoopAction, LoopEvent};
use forge::dtos::{read_reply, Choice, CompletionResponse, FunctionCall, Message, Role, ToolCall};
use forge::error::AgentError;
use forge::tools_registry::ToolRegistry;

fn answer(text: Option<&str>, calls: Option<Vec<ToolCall>>) -> CompletionResponse {
    CompletionResponse {
        choices: vec![Choice {
            message: Message {
                role: Role::Assistant,
                content: text.map(|t| t.to_string()),
                multi_content: None,
                tool_calls: calls,
                tool_call_id: None,
                name: None,
            },
        }],
    }
}

fn call(id: &str, name: &str, arguments: &str) -> ToolCall {
    ToolCall {
        id: id.to_string(),
        kind: "function".to_string(),
        function: FunctionCall { name: name.to_string(), arguments: arguments.to_string() },
    }
}

fn agent_with_tools() -> Agent<u32> {
    let mut reg = ToolRegistry::init();
    reg.register("num_blender".to_string(), true, None, 1);
    reg.register("finisher".to_string(), false, None, 2);
    Agent::init(
        "google/gemma-4-e4b".to_string(),
        "http://localhost:1234/v1".to_string(),
        "local".to_string(),
        "You are a helpful AI assistant.".to_string(),
        0x3f2e147b,
        Some(reg),
    )
}

#[test]
fn default_agent_configuration() {
    let agent: Agent<u32> = Agent::default();
    assert_eq!(agent.model, "google/gemma-4-e4b");
    assert_eq!(agent.url, "http://127.0.0.1:1234");
    assert_eq!(agent.api_key, "local-key");
    assert_eq!(
        agent.system_prompt,
        "You are AI assistant, try helping the user using your all capabilities."
    );
    assert_eq!(agent.temperature, 0);
    assert!(agent.tool_registry().is_none());
    assert!(agent.history().is_empty());
}

#[test]
fn messages_of_user_and_assistant() {
    let u = user_message("hello");
    assert_eq!(u.role, Role::User);
    assert_eq!(u.content.as_deref(), Some("hello"));
    assert!(u.tool_calls.is_none() && u.tool_call_id.is_none() && u.name.is_none());
    let a = assistant_message("hi".to_string(), Some(vec![call("c1", "t", "{}")]));
    assert_eq!(a.role, Role::Assistant);
    assert_eq!(a.content.as_deref(), Some("hi"));
    assert_eq!(a.tool_calls.as_ref().map(|c| c.len()), Some(1));
}

#[test]
fn request_has_system_prompt_then_history() {
    let mut agent = agent_with_tools();
    let req = agent.begin_prompt("first");
    assert_eq!(req.model, "google/gemma-4-e4b");
    assert_eq!(req.messages.len(), 2);
    assert_eq!(req.messages[0].role, Role::System);
    assert_eq!(req.messages[0].content.as_deref(), Some("You are a helpful AI assistant."));
    assert_eq!(req.messages[1].role, Role::User);
    assert_eq!(req.messages[1].content.as_deref(), Some("first"));
    assert_eq!(req.stream, Some(false));
    assert_eq!(req.top_p, None);
    assert_eq!(req.temperature, 0x3f2e147b);
    assert_eq!(req.tools.as_ref().map(|t| t.len()), Some(0));
}

#[test]
fn prompt_adds_user_and_assistant_messages() {
    let mut agent: Agent<u32> = Agent::default();
    let req = agent.begin_prompt("What is 2+2?");
    assert!(req.tools.is_none());
    let text = agent.finish_prompt(answer(Some("4"), None)).unwrap();
    assert_eq!(text, "4");
    let h = agent.history();
    assert_eq!(h.len(), 2);
    assert_eq!(h[0].role, Role::User);
    assert_eq!(h[1].role, Role::Assistant);
    assert_eq!(h[1].content.as_deref(), Some("4"));
    assert!(h[1].tool_calls.is_none());
    let req2 = agent.begin_prompt("And 3+3?");
    assert_eq!(req2.messages.len(), 4);
}

#[test]
fn prompt_without_choices_fails_and_keeps_user_message() {
    let mut agent: Agent<u32> = Agent::default();
    agent.begin_prompt("hi");
    let res = agent.finish_prompt(CompletionResponse { choices: vec![] });
    assert!(matches!(res, Err(AgentError::NoChoices)));
    assert_eq!(agent.history().len(), 1);
}

#[test]
fn missing_content_reads_as_empty_text() {
    let (text, calls) = read_reply(answer(None, None)).unwrap();
    assert_eq!(text, "");
    assert!(calls.is_none());
    assert!(matches!(read_reply(CompletionResponse { choices: vec![] }), Err(AgentError::NoChoices)));
}

#[test]
fn clear_history_empties_it() {
    let mut agent: Agent<u32> = Agent::default();
    agent.begin_prompt("a");
    agent.finish_prompt(answer(Some("b"), None)).unwrap();
    agent.clear_history();
    assert!(agent.history().is_empty());
}

#[test]
fn tool_loop_without_registry_fails_at_once() {
    let mut agent: Agent<u32> = Agent::default();
    let (run, action) = agent.start_tool_loop("hi", 5);
    assert!(matches!(action, LoopAction::Finish(Err(AgentError::NoToolRegistry))));
    assert!(run.is_finished());
    assert!(agent.history().is_empty());
}

#[test]
fn tool_loop_with_no_budget() {
    let mut agent = agent_with_tools();
    let (run, action) = agent.start_tool_loop("hi", 0);
    assert!(matches!(action, LoopAction::Finish(Err(AgentError::MaxIterations(0)))));
    assert!(run.is_finished());
    assert_eq!(agent.history().len(), 1);
}

#[test]
fn tool_loop_answer_without_calls() {
    let mut agent = agent_with_tools();
    let (mut run, action) = agent.start_tool_loop("hi", 3);
    assert!(matches!(action, LoopAction::Send(_)));
    let action = agent.advance_tool_loop(&mut run, LoopEvent::Reply(answer(Some("hello"), Some(vec![]))));
    match action {
        LoopAction::Finish(Ok(text)) => assert_eq!(text, "hello"),
        _ => panic!("expected an answer"),
    }
    let h = agent.history();
    assert_eq!(h.len(), 2);
    assert!(h[1].tool_calls.is_none());
}

#[test]
fn tool_loop_runs_tools_and_loops_back() {
    let mut agent = agent_with_tools();
    let (mut run, _) = agent.start_tool_loop("Blend them 1, 2", 3);
    let calls = vec![call("c1", "num_blender", "{\"a\": 1.0, \"b\": 2.0}")];
    let action = agent.advance_tool_loop(&mut run, LoopEvent::Reply(answer(Some(""), Some(calls))));
    match action {
        LoopAction::RunTool { name, arguments } => {
            assert_eq!(name, "num_blender");
            assert_eq!(arguments["a"], serde_json::Value::from(1.0));
            assert_eq!(arguments["b"], serde_json::Value::from(2.0));
        }
        _ => panic!("expected a tool run"),
    }
    let action = agent.advance_tool_loop(&mut run, LoopEvent::ToolOutput("1.5".to_string()));
    match action {
        LoopAction::Send(req) => {
            assert_eq!(req.messages.len(), 4);
            let tool = &req.messages[3];
            assert_eq!(tool.role, Role::Tool);
            assert_eq!(tool.content.as_deref(), Some("1.5"));
            assert_eq!(tool.tool_call_id.as_deref(), Some("c1"));
            assert_eq!(tool.name.as_deref(), Some("num_blender"));
        }
        _ => panic!("expected the next request"),
    }
    let action = agent.advance_tool_loop(&mut run, LoopEvent::Reply(answer(Some("It is 1.5"), None)));
    assert!(matches!(action, LoopAction::Finish(Ok(ref t)) if t == "It is 1.5"));
    assert_eq!(agent.history().len(), 4);
    assert!(run.is_finished());
}

#[test]
fn tool_without_callback_ends_the_loop_with_its_result() {
    let mut agent = agent_with_tools();
    let (mut run, _) = agent.start_tool_loop("go", 3);
    let calls = vec![call("c1", "finisher", "{}"), call("c2", "num_blender", "{}")];
    let action = agent.advance_tool_loop(&mut run, LoopEvent::Reply(answer(None, Some(calls))));
    assert!(matches!(action, LoopAction::RunTool { ref name, .. } if name == "finisher"));
    let action = agent.advance_tool_loop(&mut run, LoopEvent::ToolOutput("done".to_string()));
    assert!(matches!(action, LoopAction::Finish(Ok(ref t)) if t == "done"));
    assert_eq!(agent.history().len(), 3);
    assert_eq!(agent.history()[2].role, Role::Tool);
}

#[test]
fn calls_on_the_last_round_reach_max_iterations() {
    let mut agent = agent_with_tools();
    let (mut run, _) = agent.start_tool_loop("go", 1);
    let calls = vec![call("c1", "num_blender", "{}")];
    let action = agent.advance_tool_loop(&mut run, LoopEvent::Reply(answer(Some("x"), Some(calls))));
    assert!(matches!(action, LoopAction::Finish(Err(AgentError::MaxIterations(1)))));
    assert_eq!(agent.history().len(), 2);
    assert!(agent.history()[1].tool_calls.is_some());
}

#[test]
fn two_rounds_of_budget_two() {
    let mut agent = agent_with_tools();
    let (mut run, _) = agent.start_tool_loop("go", 2);
    let a = agent.advance_tool_loop(&mut run, LoopEvent::Reply(answer(None, Some(vec![call("c1", "num_blender", "{}")]))));
    assert!(matches!(a, LoopAction::RunTool { .. }));
    let a = agent.advance_tool_loop(&mut run, LoopEvent::ToolOutput("r".to_string()));
    assert!(matches!(a, LoopAction::Send(_)));
    let a = agent.advance_tool_loop(&mut run, LoopEvent::Reply(answer(None, Some(vec![call("c2", "num_blender", "{}")]))));
    assert!(matches!(a, LoopAction::Finish(Err(AgentError::MaxIterations(2)))));
}

#[test]
fn unknown_tool_and_bad_arguments_end_the_loop() {
    let mut agent = agent_with_tools();
    let (mut run, _) = agent.start_tool_loop("go", 3);
    let a = agent.advance_tool_loop(&mut run, LoopEvent::Reply(answer(None, Some(vec![call("c1", "nope", "{}")]))));
    assert!(matches!(a, LoopAction::Finish(Err(AgentError::ToolNotFound(ref n))) if n == "nope"));

    let mut agent = agent_with_tools();
    let (mut run, _) = agent.start_tool_loop("go", 3);
    let a = agent.advance_tool_loop(&mut run, LoopEvent::Reply(answer(None, Some(vec![call("c1", "num_blender", "{not json")]))));
    assert!(matches!(a, LoopAction::Finish(Err(AgentError::InvalidArguments(_)))));
}

#[test]
fn no_choices_and_unexpected_events_end_the_loop() {
    let mut agent = agent_with_tools();
    let (mut run, _) = agent.start_tool_loop("go", 3);
    let a = agent.advance_tool_loop(&mut run, LoopEvent::ToolOutput("?".to_string()));
    assert!(matches!(a, LoopAction::Finish(Err(AgentError::UnexpectedEvent))));
    let a = agent.advance_tool_loop(&mut run, LoopEvent::Reply(answer(Some("late"), None)));
    assert!(matches!(a, LoopAction::Finish(Err(AgentError::UnexpectedEvent))));

    let mut agent = agent_with_tools();
    let (mut run, _) = agent.start_tool_loop("go", 3);
    let a = agent.advance_tool_loop(&mut run, LoopEvent::Reply(CompletionResponse { choices: vec![] }));
    assert!(matches!(a, LoopAction::Finish(Err(AgentError::NoChoices))));
    assert_eq!(agent.history().len(), 1);
}

#[test]
fn init_takes_the_tool_registry() {
    let mut tool_registry = ToolRegistry::init();
    tool_registry.register("num_blender".to_string(), true, None, 1u32);
    tool_registry.register("num_grinder".to_string(), true, None, 2u32);
    let a = Agent::init(
        "google/gemma-4-e4b".to_string(),
        "http://localhost:1234/v1".to_string(),
        "local".to_string(),
        "You are a helpful AI assistant.".to_string(),
        0.68f32.to_bits(),
        Some(tool_registry),
    );
    assert_eq!(a.model, "google/gemma-4-e4b");
    assert_eq!(f32::from_bits(a.temperature), 0.68f32);
    assert!(a.history().is_empty());
    let reg = a.tool_registry().expect("registry given");
    assert_eq!(reg.get("num_blender"), Some(&1));
    assert_eq!(reg.get("num_grinder"), Some(&2));
    let bare: Agent<u32> = Agent::init("m".to_string(), "u".to_string(), "k".to_string(), "s".to_string(), 0, None);
    assert!(bare.tool_registry().is_none());
}

#[test]
fn each_call_runs_with_its_own_arguments() {
    let mut agent = agent_with_tools();
    let (mut run, _) = agent.start_tool_loop("go", 3);
    let calls = vec![call("c1", "num_blender", "{\"a\": 1}"), call("c2", "num_blender", "[2, 3]")];
    let first = agent.advance_tool_loop(&mut run, LoopEvent::Reply(answer(None, Some(calls))));
    match first {
        LoopAction::RunTool { arguments, .. } => assert_eq!(arguments, serde_json::from_str::<serde_json::Value>("{\"a\": 1}").unwrap()),
        _ => panic!("expected a tool run"),
    }
    let second = agent.advance_tool_loop(&mut run, LoopEvent::ToolOutput("r1".to_string()));
    match second {
        LoopAction::RunTool { arguments, .. } => assert_eq!(arguments, serde_json::from_str::<serde_json::Value>("[2, 3]").unwrap()),
        _ => panic!("expected a tool run"),
    }
}
