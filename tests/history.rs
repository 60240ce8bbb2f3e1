use puppycoder::codec::{RemoveFile, ToolCallParameters};
use puppycoder::history::History;
use puppycoder::llm::{AssistantMsg, LLMMessage, ToolCall, ToolResponse};

#[test]
fn context_keeps_every_append_in_order() {
    let mut h = History::new();
    assert!(h.get_context().is_empty());
    let msgs = vec![
        LLMMessage::User("hi".to_string()),
        LLMMessage::System("rules".to_string()),
        LLMMessage::Assistant(AssistantMsg {
            content: "ok".to_string(),
            tool_calls: vec![ToolCall {
                id: "c1".to_string(),
                expanded: false,
                waiting_permission: false,
                tool: ToolCallParameters::RemoveFile(RemoveFile { path: "a".to_string() }),
            }],
        }),
        LLMMessage::ToolResponse(ToolResponse { id: "c1".to_string(), content: "file removed".to_string() }),
        LLMMessage::User("hi".to_string()),
    ];
    for (k, m) in msgs.iter().enumerate() {
        h.add_message(m.clone());
        assert_eq!(h.get_context().len(), k + 1);
    }
    assert_eq!(h.get_context(), msgs);
    assert_eq!(h.items.len(), 5);
    assert!(h.items.windows(2).all(|w| w[0].timestamp <= w[1].timestamp));
}

#[test]
fn appending_keeps_earlier_items() {
    let mut h = History::new();
    h.add_message(LLMMessage::User("a".to_string()));
    let first = h.items[0].timestamp;
    h.add_message(LLMMessage::User("b".to_string()));
    assert_eq!(h.items[0].timestamp, first);
    assert_eq!(h.items[0].content, LLMMessage::User("a".to_string()));
    assert_eq!(h.items[1].content, LLMMessage::User("b".to_string()));
}
