//! Conversations with an agent.
use slipstream::conversation::{AIConversation, AIConversationId, Exchange};
use slipstream::time::Timestamp;

fn exchange(query: Option<&str>, working_directory: Option<&str>) -> Exchange {
    Exchange {
        query: query.map(str::to_owned),
        output: Some("Done".to_owned()),
        working_directory: working_directory.map(str::to_owned),
        start_time: Timestamp { seconds: 0, nanos: 0 },
    }
}

fn conversation(exclude_from_navigation: bool, exchanges: Vec<Exchange>) -> AIConversation {
    AIConversation {
        id: AIConversationId { value: 1 },
        fallback_display_title: String::new(),
        exclude_from_navigation,
        provider: None,
        exchanges,
    }
}

fn restored_conversation_with_queries(queries: &[&str]) -> AIConversation {
    conversation(
        false,
        queries.iter().map(|query| exchange(Some(query), None)).collect(),
    )
}

#[test]
fn latest_user_query_returns_latest_non_empty_user_query() {
    let conversation =
        restored_conversation_with_queries(&["write unit tests", "fix the failing test"]);

    assert_eq!(
        conversation.latest_user_query(),
        Some("fix the failing test".to_string())
    );
}

#[test]
fn latest_user_query_trims_and_skips_empty_queries() {
    let conversation = restored_conversation_with_queries(&["  write unit tests  ", "  "]);

    assert_eq!(
        conversation.latest_user_query(),
        Some("write unit tests".to_string())
    );
}

#[test]
fn cli_agent_transcript_vehicle_is_excluded_from_navigation() {
    let conversation = conversation(true, Vec::new());

    assert!(conversation.should_exclude_from_navigation());
}

#[test]
fn codex_conversation_initial_working_directory_falls_back_to_exchange_cwd() {
    let conversation = conversation(
        false,
        vec![exchange(Some("what changed?"), Some("/Users/te/dev/warp"))],
    );

    assert_eq!(
        conversation.initial_working_directory().as_deref(),
        Some("/Users/te/dev/warp")
    );
}
