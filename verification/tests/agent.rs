use ai_gateway::agent::{
    AgentAction, AgentCommand, AgentCore, AgentEvent, AgentLoop, AgentResponse, ToolDispatch,
};
use ai_gateway::tools::ToolKind;

/// Reads a model reply the way the gateway does: the JSON object found in it,
/// read field by field, then the action it asks for.
fn read_reply(response: &str) -> AgentAction {
    let parsed = AgentCore::extract_json(response).and_then(|json| {
        let value: serde_json::Value = serde_json::from_str(&json).ok()?;
        let object = value.as_object()?;
        let action = object.get("action")?.as_str()?.to_string();
        let field = |key: &str| object.get(key).and_then(|v| v.as_str()).map(String::from);
        Some(AgentResponse {
            action,
            tool_name: field("tool_name"),
            tool_input: field("tool_input"),
            answer: field("answer"),
        })
    });
    AgentCore::parse_agent_response(response, parsed)
}

#[test]
fn parse_tool_call_response() {
    let response = "{\"action\":\"call_tool\",\"tool_name\":\"web_search\",\"tool_input\":\"rust async\"}";
    match read_reply(response) {
        AgentAction::ToolCall { tool_name, tool_input } => {
            assert_eq!(tool_name, "web_search");
            assert_eq!(tool_input, "rust async");
        }
        _ => panic!("Expected tool call action"),
    }
}

#[test]
fn parse_final_answer_response() {
    let response = "{\"action\":\"final_answer\",\"answer\":\"Use the web search tool.\"}";
    match read_reply(response) {
        AgentAction::FinalAnswer(answer) => assert_eq!(answer, "Use the web search tool."),
        _ => panic!("Expected final answer action"),
    }
}

#[test]
fn extract_json_spans_first_open_to_last_close() {
    assert_eq!(
        AgentCore::extract_json("noise {\"a\":{\"b\":1}} tail"),
        Some("{\"a\":{\"b\":1}}".to_string())
    );
    assert_eq!(AgentCore::extract_json("} before {"), None);
    assert_eq!(AgentCore::extract_json("no braces"), None);
}

#[test]
fn unknown_action_keeps_raw_reply() {
    let reply = "I think {\"action\":\"dance\"}";
    match read_reply(reply) {
        AgentAction::Unknown(raw) => assert_eq!(raw, reply),
        _ => panic!("expected unknown action"),
    }
    match read_reply("plain text") {
        AgentAction::Unknown(raw) => assert_eq!(raw, "plain text"),
        _ => panic!("expected unknown action"),
    }
}

#[test]
fn missing_fields_become_empty() {
    match AgentCore::parse_agent_response(
        "x",
        Some(AgentResponse { action: "call_tool".into(), tool_name: None, tool_input: None, answer: None }),
    ) {
        AgentAction::ToolCall { tool_name, tool_input } => {
            assert_eq!(tool_name, "");
            assert_eq!(tool_input, "");
        }
        _ => panic!("expected tool call"),
    }
}

#[test]
fn prompt_wraps_conversation() {
    let p = AgentCore::build_ollama_prompt("User: hi\n");
    assert!(p.starts_with("You are an agent controller that either returns a structured JSON tool call or a final answer.\n\nUser: hi\n\nRespond with JSON"));
    assert!(p.ends_with("Do not include any extra text outside the JSON."));
}

#[test]
fn dispatch_prefers_shell_path_then_registry() {
    assert!(matches!(AgentCore::dispatch_tool("shell_executor"), ToolDispatch::Shell));
    assert!(matches!(AgentCore::dispatch_tool("web_search"), ToolDispatch::Registered(ToolKind::WebSearch)));
    match AgentCore::dispatch_tool("shell") {
        ToolDispatch::NotFound(m) => assert_eq!(m, "tool not found: shell"),
        _ => panic!("expected not found"),
    }
    assert_eq!(AgentCore::shell_tool_output(Err("denied".into())), "tool execution failed: denied");
}

#[test]
fn agent_loop_runs_tool_then_answers() {
    let (mut run, first) = AgentLoop::start("Run the full agent flow");
    assert_eq!(first.notes, vec!["Thinking: step 1 started".to_string(), "Thinking: querying Ollama".to_string()]);
    match &first.command {
        AgentCommand::Query(q) => assert!(q.contains("User: Run the full agent flow\n")),
        _ => panic!("expected query"),
    }
    let step = run.step(AgentEvent::Reply(Ok(AgentAction::ToolCall {
        tool_name: "shell".into(),
        tool_input: "echo end_to_end".into(),
    })));
    assert_eq!(step.notes[1], "Planning: call tool shell");
    assert!(matches!(step.command, AgentCommand::RunTool { .. }));
    let step = run.step(AgentEvent::ToolOutput("tool not found: shell".into()));
    assert_eq!(step.notes[0], "Tool result: shell => tool not found: shell");
    assert_eq!(step.notes[1], "Thinking: step 2 started");
    assert_eq!(
        run.conversation(),
        "User: Run the full agent flow\nTool call: shell\nInput: echo end_to_end\nResult: tool not found: shell\n"
    );
    let step = run.step(AgentEvent::Reply(Ok(AgentAction::FinalAnswer("integration complete".into()))));
    assert_eq!(step.notes[1], "Final answer: integration complete");
    match step.command {
        AgentCommand::Finish(a) => assert_eq!(a, "integration complete"),
        _ => panic!("expected finish"),
    }
    assert!(run.is_finished());
}

#[test]
fn agent_loop_stops_after_four_tool_calls() {
    let (mut run, _) = AgentLoop::start("loop");
    let mut last = None;
    for _ in 0..4 {
        let step = run.step(AgentEvent::Reply(Ok(AgentAction::ToolCall {
            tool_name: "t".into(),
            tool_input: "i".into(),
        })));
        assert!(matches!(step.command, AgentCommand::RunTool { .. }));
        last = Some(run.step(AgentEvent::ToolOutput("o".into())));
    }
    let step = last.unwrap();
    match step.command {
        AgentCommand::Finish(a) => {
            assert!(a.starts_with("Agent stopped after 4 iterations. Conversation:\nUser: loop\n"));
            assert_eq!(step.notes[1], a);
        }
        _ => panic!("expected the run to stop"),
    }
    assert!(run.is_finished());
}

#[test]
fn agent_loop_reports_model_error() {
    let (mut run, _) = AgentLoop::start("x");
    let step = run.step(AgentEvent::Reply(Err("connection refused".into())));
    match step.command {
        AgentCommand::Finish(a) => assert_eq!(a, "Agent error: connection refused"),
        _ => panic!("expected finish"),
    }
    assert_eq!(step.notes, vec!["Agent error: connection refused".to_string()]);
}

#[test]
fn agent_loop_unknown_reply_is_final_answer() {
    let (mut run, _) = AgentLoop::start("x");
    let step = run.step(AgentEvent::Reply(Ok(AgentAction::Unknown("raw text".into()))));
    match step.command {
        AgentCommand::Finish(a) => assert_eq!(a, "Final answer: raw text"),
        _ => panic!("expected finish"),
    }
}
