use puppycoder::codec::{RemoveFile, ToolCallParameters};
use puppycoder::llm::{AssistantMsg, GenResult, LLMMessage, LLMModel, SuccessfullGenResponse, ToolCall, ToolUse};
use puppycoder::codec::{ArgField, ArgRecord, ArgValue, DecodeError};
use puppycoder::project::{Project, ToolError};
use puppycoder::registry::Tool;
use puppycoder::session::{default_folder_path, enabled_of, State};

fn reply(text: &str, calls: Vec<ToolCall>) -> GenResult {
    GenResult::Response(SuccessfullGenResponse::priced(
        LLMModel::GPT4O,
        100,
        10,
        110,
        AssistantMsg { content: text.to_string(), tool_calls: calls },
    ))
}

fn state_with_project() -> State {
    let mut s = State::new(vec![Project::new()]);
    s.select_project(0);
    s
}

#[test]
fn out_of_order_completion_keeps_history_sane() {
    let mut p = Project::new();
    let (t1, _) = p.submit("first".to_string()).expect("first round starts");
    assert!(p.submit("second".to_string()).is_none());
    // a completion for a ticket that is not in flight arrives first
    assert!(!p.accept_result(t1 + 1, &reply("stale", vec![])));
    assert_eq!(p.history.get_context().len(), 1);
    assert!(p.accept_result(t1, &reply("answer", vec![])));
    let ctx = p.history.get_context();
    assert_eq!(ctx.len(), 2);
    assert_eq!(ctx[0], LLMMessage::User("first".to_string()));
    assert!(matches!(&ctx[1], LLMMessage::Assistant(m) if m.content == "answer"));
    assert!(!p.accept_result(t1, &reply("again", vec![])));
    let (t2, _) = p.submit("second".to_string()).expect("second round starts");
    assert_ne!(t1, t2);
}

#[test]
fn send_message_builds_request() {
    let mut s = state_with_project();
    s.set_instructions("be brief".to_string());
    s.toggle_tool(2);
    s.toggle_tool(0);
    s.set_current_msg("hello".to_string());
    let sub = s.send_message().expect("sent");
    assert_eq!(sub.project, 0);
    assert_eq!(s.current_msg, "");
    assert_eq!(sub.request.model, LLMModel::GPT4OMini);
    assert_eq!(
        sub.request.messages,
        vec![LLMMessage::System("be brief".to_string()), LLMMessage::User("hello".to_string())]
    );
    assert_eq!(sub.request.tools, vec![Tool::ReadFile, Tool::RemoveFile]);
    assert!(s.projects[0].modified);
    s.set_current_msg("again".to_string());
    assert!(s.send_message().is_none());
    assert_eq!(s.current_msg, "again");
}

#[test]
fn send_message_edge_cases() {
    let mut s = State::new(vec![Project::new()]);
    assert!(s.send_message().is_none());
    s.set_current_msg("lost".to_string());
    assert!(s.send_message().is_none());
    assert_eq!(s.current_msg, "");
    assert!(s.projects[0].history.get_context().is_empty());
}

#[test]
fn results_and_tool_responses() {
    let mut s = state_with_project();
    s.set_current_msg("go".to_string());
    let sub = s.send_message().unwrap();
    let call = ToolCall {
        id: "c1".to_string(),
        expanded: false,
        waiting_permission: false,
        tool: ToolCallParameters::RemoveFile(RemoveFile { path: "x".to_string() }),
    };
    assert!(s.handle_result(0, sub.ticket + 7, &reply("no", vec![call.clone()])).is_none());
    assert!(s.handle_result(3, sub.ticket, &reply("no", vec![])).is_none());
    let calls = s.handle_result(0, sub.ticket, &reply("doing it", vec![call.clone()]));
    assert_eq!(calls, Some(vec![call]));
    let p = &s.projects[0];
    assert_eq!(p.input_token_count, 100);
    assert_eq!(p.output_token_count, 10);
    assert_eq!(p.input_token_cost, 250_000);
    assert_eq!(p.output_token_cost, 100_000);
    s.record_tool_result(0, "c1".to_string(), &Err(ToolError::FileMissing));
    s.record_tool_result(0, "c2".to_string(), &Ok("done".to_string()));
    let ctx = s.projects[0].history.get_context();
    assert_eq!(ctx.len(), 4);
    assert!(matches!(&ctx[2], LLMMessage::ToolResponse(t) if t.id == "c1" && t.content == "file does not exist"));
    assert!(matches!(&ctx[3], LLMMessage::ToolResponse(t) if t.id == "c2" && t.content == "done"));
}

#[test]
fn error_result_ends_round_without_message() {
    let mut p = Project::new();
    let (t, _) = p.submit("q".to_string()).unwrap();
    assert!(p.accept_result(t, &GenResult::Error("HTTP 500".to_string())));
    assert_eq!(p.history.get_context().len(), 1);
    assert!(p.in_flight.is_none());
}

#[test]
fn token_totals_saturate() {
    let mut p = Project::new();
    p.input_token_count = u32::MAX - 5;
    let (t, _) = p.submit("q".to_string()).unwrap();
    assert!(p.accept_result(t, &reply("a", vec![])));
    assert_eq!(p.input_token_count, u32::MAX);
}

#[test]
fn model_names_and_prices() {
    assert_eq!(LLMModel::from_str("gpt-4o"), Some(LLMModel::GPT4O));
    assert_eq!(LLMModel::from_str("gpt-4o-mini"), Some(LLMModel::GPT4OMini));
    assert_eq!(LLMModel::from_str("gpt-5"), None);
    assert_eq!(LLMModel::GPT4O.to_str(), "gpt-4o");
    assert_eq!(LLMModel::default(), LLMModel::GPT4OMini);
    assert_eq!(LLMModel::GPT4O.input_cost(1_000_000), 2_500_000_000);
    assert_eq!(LLMModel::GPT4O.output_cost(3), 30_000);
    assert_eq!(LLMModel::GPT4OMini.input_cost(2), 300);
    assert_eq!(LLMModel::GPT4OMini.output_cost(u32::MAX), u32::MAX as u64 * 600);
}

#[test]
fn project_editing_events() {
    let mut s = state_with_project();
    s.set_project_name("demo".to_string());
    assert_eq!(s.projects[0].name, "demo");
    s.set_new_forbidden_file_name(".env".to_string());
    s.add_forbidden_file();
    s.add_forbidden_file();
    assert_eq!(s.projects[0].forbidden_files, vec![".env".to_string(), ".env".to_string()]);
    s.delete_forbidden_file(5);
    assert_eq!(s.projects[0].forbidden_files.len(), 2);
    s.delete_forbidden_file(0);
    assert_eq!(s.projects[0].forbidden_files.len(), 1);
    s.select_model("gpt-4o");
    assert_eq!(s.projects[0].model, LLMModel::GPT4O);
    s.select_model("unknown");
    assert_eq!(s.projects[0].model, LLMModel::GPT4O);
    s.toggle_tool(1);
    s.toggle_tool(1);
    assert!(s.projects[0].activated_tools.is_empty());
    s.toggle_tool(99);
    assert!(s.projects[0].activated_tools.is_empty());
    s.new_project();
    assert_eq!(s.projects.len(), 2);
    assert!(s.projects[1].modified);
    assert_eq!(s.projects[1].folder_path, "./workdir");
    assert_eq!(default_folder_path(), "./workdir");
    assert_eq!(enabled_of(&vec![Tool::FindInFile, Tool::ReadFile]), vec![Tool::ReadFile, Tool::FindInFile]);
}

#[test]
fn tool_use_decoding() {
    let u = ToolUse {
        id: "call_1".to_string(),
        name: "remove_file".to_string(),
        args: ArgRecord { fields: vec![ArgField { key: "path".to_string(), value: ArgValue::Text("a".to_string()) }] },
    };
    let c = u.decode().unwrap();
    assert_eq!(c.id, "call_1");
    assert_eq!(c.tool, ToolCallParameters::RemoveFile(RemoveFile { path: "a".to_string() }));
    let bad = ToolUse { id: "x".to_string(), name: "rm".to_string(), args: ArgRecord { fields: vec![] } };
    assert_eq!(bad.decode(), Err(DecodeError::UnknownTool("rm".to_string())));
}

#[test]
fn toggling_twice_restores_tools_and_keeps_the_rest() {
    let mut s = state_with_project();
    s.toggle_tool(3);
    s.toggle_tool(5);
    let before = s.projects[0].activated_tools.clone();
    s.set_current_msg("draft".to_string());
    s.toggle_tool(0);
    assert!(s.projects[0].activated_tools.contains(&Tool::ReadFile));
    s.toggle_tool(0);
    let mut after = s.projects[0].activated_tools.clone();
    let mut expected = before.clone();
    after.sort_by_key(|t| t.get_name());
    expected.sort_by_key(|t| t.get_name());
    assert_eq!(after, expected);
    assert_eq!(s.active_project, Some(0));
    assert_eq!(s.current_msg, "draft");
}

#[test]
fn adding_a_forbidden_name_keeps_the_project_otherwise() {
    let mut s = state_with_project();
    s.set_folder_path("/srv/code".to_string());
    s.toggle_tool(1);
    s.set_current_msg("hello".to_string());
    let sub = s.send_message().unwrap();
    s.set_new_forbidden_file_name("secrets.txt".to_string());
    s.add_forbidden_file();
    let p = &s.projects[0];
    assert_eq!(p.forbidden_files, vec!["secrets.txt".to_string()]);
    assert_eq!(p.folder_path, "/srv/code");
    assert_eq!(p.activated_tools, vec![Tool::WriteFile]);
    assert_eq!(p.history.get_context(), vec![LLMMessage::User("hello".to_string())]);
    assert_eq!(p.in_flight, Some(sub.ticket));
    assert_eq!(s.new_forbidden_file_name, "secrets.txt");
}

#[test]
fn error_result_keeps_totals() {
    let mut s = state_with_project();
    s.set_current_msg("go".to_string());
    let sub = s.send_message().unwrap();
    s.projects[0].input_token_cost = 7;
    let calls = s.handle_result(0, sub.ticket, &GenResult::Error("timeout".to_string()));
    assert_eq!(calls, Some(vec![]));
    let p = &s.projects[0];
    assert_eq!(p.input_token_cost, 7);
    assert_eq!(p.output_token_cost, 0);
    assert_eq!(p.input_token_count, 0);
    assert!(p.in_flight.is_none());
    assert_eq!(p.history.get_context().len(), 1);
}
