use ai_gateway::storage::ConversationRecord;
use ai_gateway::tools::memory_recall::{MemoryRecallError, MemoryRecallTool};

#[test]
fn parse_params_with_since() {
    let params = "payment issue since:2025-01-01";
    let (keyword, since) = MemoryRecallTool::parse_params(params);

    assert_eq!(keyword, "payment issue");
    assert_eq!(since, Some("2025-01-01".to_string()));
}

#[test]
fn parse_params_without_since() {
    let params = "database migration error";
    let (keyword, since) = MemoryRecallTool::parse_params(params);

    assert_eq!(keyword, "database migration error");
    assert!(since.is_none());
}

#[test]
fn parse_params_uses_last_since_and_trims() {
    let (keyword, since) = MemoryRecallTool::parse_params("  a since:b since: 2024-02-02  ");
    assert_eq!(keyword, "a since:b");
    assert_eq!(since, Some("2024-02-02".to_string()));
}

#[test]
fn format_results_empty() {
    assert_eq!(MemoryRecallTool::format_results(&[]), "No matching conversations found.");
}

#[test]
fn format_results_numbers_entries() {
    let records = vec![
        ConversationRecord {
            user_message: "hi".to_string(),
            assistant_response: "hello".to_string(),
            created_at: "2025-01-01".to_string(),
        },
        ConversationRecord {
            user_message: "bye".to_string(),
            assistant_response: "see you".to_string(),
            created_at: "2025-01-02".to_string(),
        },
    ];
    let out = MemoryRecallTool::format_results(&records);
    assert_eq!(
        out,
        "Found memory recall matches:\n\n1. [2025-01-01] User: hi\n   Assistant: hello\n\n2. [2025-01-02] User: bye\n   Assistant: see you\n\nReturn this information to the agent as relevant context."
    );
}

#[test]
fn render_error() {
    let out = MemoryRecallTool::render(Err(MemoryRecallError::Request("storage backend is not initialized".to_string())));
    assert_eq!(out, "MemoryRecallTool error: request failed: storage backend is not initialized");
}
