//! Conversations with an OpenCode server.
use slipstream::conversation::{AIConversationId, ExternalAgentConversationProvider};
use slipstream::json::JsonValue;
use slipstream::opencode_server::address::{
    basic_auth_header, directory_url, normalize_opencode_server_url, OpenCodeServerConfig,
};
use slipstream::opencode_server::catalog::matched_project_directories;
use slipstream::opencode_server::history::{
    opencode_prompt_result_output_text, opencode_session_detail_to_ai_conversation,
};
use slipstream::opencode_server::message::{
    message_to_conversation_item, messages_to_conversation_items,
};
use slipstream::opencode_server::types::{
    OpenCodeConversationItem, OpenCodePendingPermission, OpenCodePendingQuestion,
    OpenCodePermissionReply, OpenCodeSessionDetail, OpenCodeSessionSummary,
};
use slipstream::opencode_server::wire::{
    session_summary_for_directory, Decoded, OpenCodeMessageWire, OpenCodeProjectWire,
    OpenCodeSessionWire,
};
use slipstream::time::Timestamp;
use slipstream::path::PathStyle;

fn json(text: &str) -> JsonValue {
    JsonValue::parse(text).unwrap()
}

#[test]
fn normalize_opencode_server_url_defaults_to_loopback_server() {
    let url = normalize_opencode_server_url("").unwrap();
    assert_eq!(url.as_str(), "http://127.0.0.1:4096/");
}

#[test]
fn normalize_opencode_server_url_adds_http_scheme_and_default_port() {
    let url = normalize_opencode_server_url("localhost").unwrap();
    assert_eq!(url.as_str(), "http://localhost:4096/");
}

#[test]
fn normalize_opencode_server_url_rejects_non_http_scheme() {
    let error = normalize_opencode_server_url("ws://localhost:4096").unwrap_err();
    assert!(error.message().contains("http or https"));
}

#[test]
fn basic_auth_header_construction_uses_http_basic_format() {
    assert_eq!(
        basic_auth_header("opencode", "secret"),
        "Basic b3BlbmNvZGU6c2VjcmV0"
    );
}

#[test]
fn loopback_server_does_not_require_credentials() {
    let config = OpenCodeServerConfig::from_values("http://127.0.0.1:4096", "", "").unwrap();
    assert!(config.basic_auth_header().is_none());
}

#[test]
fn non_loopback_server_requires_credentials() {
    let error = OpenCodeServerConfig::from_values("http://example.com:4096", "", "").unwrap_err();
    assert!(error.message().contains("credentials are required"));
}

#[test]
fn non_loopback_server_accepts_basic_auth_credentials() {
    let config =
        OpenCodeServerConfig::from_values("http://example.com:4096", "opencode", "secret").unwrap();
    assert_eq!(
        config.basic_auth_header().unwrap(),
        "Basic b3BlbmNvZGU6c2VjcmV0"
    );
}

#[test]
fn directory_url_encodes_directory_query_parameter() {
    let config = OpenCodeServerConfig::from_values("http://127.0.0.1:4096", "", "").unwrap();
    let url = directory_url(
        &config,
        "/session",
        Some("/Users/te/dev/warp nested"),
    );
    assert_eq!(
        url.as_str(),
        "http://127.0.0.1:4096/session?directory=%2FUsers%2Fte%2Fdev%2Fwarp+nested"
    );
}

#[test]
fn project_matching_uses_exact_worktree_for_active_root() {
    let projects = projects(&["/Users/te/dev/warp"]);
    let matched =
        matched_project_directories(
            PathStyle::Posix,
            &projects,
            &vec![String::from("/Users/te/dev/warp")],
            &vec![],
        );
    assert_eq!(matched, vec![String::from("/Users/te/dev/warp")]);
}

#[test]
fn project_matching_uses_longest_prefix_for_nested_active_root() {
    let projects = projects(&["/Users/te/dev", "/Users/te/dev/warp"]);
    let matched =
        matched_project_directories(
            PathStyle::Posix,
            &projects,
            &vec![String::from("/Users/te/dev/warp/app")],
            &vec![],
        );
    assert_eq!(matched, vec![String::from("/Users/te/dev/warp")]);
}

#[test]
fn project_matching_deduplicates_multiple_active_roots() {
    let projects = projects(&["/Users/te/dev/warp"]);
    let matched = matched_project_directories(
        PathStyle::Posix, &projects,
        &vec![
            String::from("/Users/te/dev/warp"),
            String::from("/Users/te/dev/warp/app"),
        ],
        &vec![],
    );
    assert_eq!(matched, vec![String::from("/Users/te/dev/warp")]);
}

#[test]
fn project_matching_skips_missing_active_project() {
    let projects = projects(&["/Users/te/dev/warp"]);
    let matched =
        matched_project_directories(
            PathStyle::Posix,
            &projects,
            &vec![String::from("/Users/te/dev/other")],
            &vec![],
        );
    assert!(matched.is_empty());
}

#[test]
fn project_matching_keeps_imported_project_fallback() {
    let projects = projects(&["/Users/te/dev/warp"]);
    let matched =
        matched_project_directories(
            PathStyle::Posix,
            &projects,
            &vec![],
            &vec![String::from("/Users/te/dev/imported")],
        );
    assert_eq!(matched, vec![String::from("/Users/te/dev/imported")]);
}

#[test]
fn converts_session_detail_to_external_agent_conversation() {
    let detail = session_detail(vec![OpenCodeConversationItem {
        role: "user".to_string(),
        text: "fix the bridge".to_string(),
    }]);
    let conversation_id = AIConversationId { value: 7 };

    let conversation = opencode_session_detail_to_ai_conversation(
        conversation_id,
        &detail,
        Timestamp { seconds: 1_800_000_000, nanos: 0 },
    );

    assert_eq!(conversation.id(), conversation_id);
    assert_eq!(
        conversation.external_agent_provider(),
        Some(ExternalAgentConversationProvider::OpenCode)
    );
    assert!(conversation.should_exclude_from_navigation());
}

#[test]
fn session_summary_filters_opencode_child_sessions() {
    let parent = OpenCodeSessionWire::decode(&json(r#"{
        "id": "ses_parent",
        "title": "Parent session",
        "projectID": "project-1",
        "directory": "/Users/te/dev/warp",
        "time": { "updated": 1777040510640 }
    }"#))
    .unwrap();
    let child = OpenCodeSessionWire::decode(&json(r#"{
        "id": "ses_child",
        "parentID": "ses_parent",
        "title": "Find files (@explore subagent)",
        "projectID": "project-1",
        "directory": "/Users/te/dev/warp",
        "time": { "updated": 1777040510641 }
    }"#))
    .unwrap();
    let statuses = vec![("ses_parent".to_string(), "idle".to_string())];

    let parent_summary =
        session_summary_for_directory(parent, "/Users/te/dev/warp", &statuses).unwrap();
    let child_summary =
        session_summary_for_directory(child, "/Users/te/dev/warp", &statuses);

    assert_eq!(parent_summary.id, "ses_parent");
    assert_eq!(parent_summary.status.as_deref(), Some("idle"));
    assert!(child_summary.is_none());
}

#[test]
fn prompt_result_prefers_full_session_detail_for_live_response() {
    let prompt = "please say hello";
    let output_items = vec![OpenCodeConversationItem {
        role: "user".to_string(),
        text: prompt.to_string(),
    }];
    let detail = session_detail(vec![
        OpenCodeConversationItem {
            role: "user".to_string(),
            text: prompt.to_string(),
        },
        OpenCodeConversationItem {
            role: "assistant".to_string(),
            text: "Hello from the full session detail.".to_string(),
        },
    ]);

    assert_eq!(
        opencode_prompt_result_output_text(&output_items, Some(&detail), prompt),
        "Hello from the full session detail."
    );
}

#[test]
fn prompt_result_uses_latest_matching_detail_turn() {
    let prompt = "repeat this";
    let detail = session_detail(vec![
        OpenCodeConversationItem {
            role: "user".to_string(),
            text: prompt.to_string(),
        },
        OpenCodeConversationItem {
            role: "assistant".to_string(),
            text: "old response".to_string(),
        },
        OpenCodeConversationItem {
            role: "user".to_string(),
            text: prompt.to_string(),
        },
        OpenCodeConversationItem {
            role: "assistant".to_string(),
            text: "fresh response".to_string(),
        },
    ]);

    assert_eq!(
        opencode_prompt_result_output_text(&vec![], Some(&detail), prompt),
        "fresh response"
    );
}

#[test]
fn prompt_result_does_not_use_stale_detail_for_different_prompt() {
    let output_items = vec![OpenCodeConversationItem {
        role: "assistant".to_string(),
        text: "fresh immediate response".to_string(),
    }];
    let detail = session_detail(vec![
        OpenCodeConversationItem {
            role: "user".to_string(),
            text: "previous prompt".to_string(),
        },
        OpenCodeConversationItem {
            role: "assistant".to_string(),
            text: "stale response".to_string(),
        },
    ]);

    assert_eq!(
        opencode_prompt_result_output_text(&output_items, Some(&detail), "new prompt"),
        "fresh immediate response"
    );
}

#[test]
fn parses_message_parts_into_readable_items() {
    let messages = vec![
        message(
            "user",
            vec![
                json(r#"{"type": "text", "text": "please inspect"}"#),
                json(r#"{"type": "file", "path": "ignored"}"#),
            ],
            None,
            None,
        ),
        message(
            "assistant",
            vec![
                json(r#"{"type": "text", "text": "Sure."}"#),
                json(r#"{"type": "tool", "tool": "bash", "state": {"status": "completed", "title": "ls", "output": "app\ncrates"}}"#),
                json(r#"{"type": "patch", "files": [{"path": "app/src/lib.rs"}]}"#),
                json(r#"{"type": "subtask", "agent": "build", "description": "Run checks"}"#),
            ],
            None,
            None,
        ),
    ];

    let items = messages_to_conversation_items(&messages);
    assert_eq!(items[0].role, "user");
    assert_eq!(items[0].text, "please inspect");
    assert_eq!(items[1].role, "assistant");
    assert!(items[1].text.contains("Sure."));
    assert!(items[1].text.contains("commandExecution: ls"));
    assert!(items[1]
        .text
        .contains("commandExecution/output: \"app\\ncrates\""));
    assert!(items[1].text.contains("Patch applied: app/src/lib.rs"));
    assert!(items[1].text.contains("Subtask (build): Run checks"));
}

#[test]
fn parses_error_empty_and_aborted_messages() {
    let empty = message("assistant", vec![], None, None);
    assert!(message_to_conversation_item(&empty).is_none());

    let error = message(
        "assistant",
        vec![
            json(r#"{"type": "tool", "tool": "edit", "state": {"status": "error", "error": {"message": "failed"}}}"#),
        ],
        Some(json(r#"{"message": "request failed"}"#)),
        Some(json(r#"{"reason": "aborted"}"#)),
    );
    let item = message_to_conversation_item(&error).unwrap();
    assert!(item.text.contains("Tool edit error: failed"));
    assert!(item.text.contains("Error: request failed"));
    assert!(item.text.contains("Aborted."));
}

#[test]
fn parses_pending_permission_requests() {
    let pending = OpenCodePendingPermission::decode(&json(r#"{
        "id": "perm-1",
        "sessionID": "session-1",
        "permission": "bash",
        "patterns": ["cargo test -p warp"],
        "always": ["cargo test*"]
    }"#))
    .unwrap();

    assert_eq!(pending.id, "perm-1");
    assert_eq!(pending.session_id, "session-1");
    assert_eq!(pending.permission, "bash");
    assert_eq!(pending.patterns, vec!["cargo test -p warp"]);
    assert_eq!(OpenCodePermissionReply::Once.wire_value(), "once");
}

#[test]
fn parses_pending_question_requests() {
    let pending = OpenCodePendingQuestion::decode(&json(r#"{
        "id": "question-1",
        "sessionID": "session-1",
        "questions": [{
            "header": "Approve plan?",
            "question": "Should OpenCode continue?",
            "custom": true,
            "options": [
                { "label": "Approve", "description": "Continue" },
                { "label": "Reject", "description": "Stop" }
            ]
        }]
    }"#))
    .unwrap();

    assert_eq!(pending.title(), "Approve plan?");
    assert_eq!(pending.message(), "Should OpenCode continue?");
    assert_eq!(
        pending.single_question().unwrap().options[0].label,
        "Approve"
    );
    assert!(pending.single_question().unwrap().allows_custom_answer());
}

#[test]
fn parses_optionless_questions_as_custom_answer_requests() {
    let pending = OpenCodePendingQuestion::decode(&json(r#"{
        "id": "question-1",
        "sessionID": "session-1",
        "questions": [{
            "header": "Custom answer",
            "question": "What should OpenCode use?"
        }]
    }"#))
    .unwrap();

    let question = pending.single_question().unwrap();
    assert!(question.options.is_empty());
    assert!(question.allows_custom_answer());
}

#[test]
fn parses_question_options_with_missing_optional_fields() {
    let pending = OpenCodePendingQuestion::decode(&json(r#"{
        "id": "question-1",
        "sessionID": "session-1",
        "questions": [{
            "question": "Pick one",
            "options": [{ "label": "Choice A" }]
        }]
    }"#))
    .unwrap();

    let question = pending.single_question().unwrap();
    assert_eq!(question.header, "");
    assert_eq!(question.question, "Pick one");
    assert_eq!(question.options[0].description, "");
}

#[test]
fn parses_multi_step_question_requests() {
    let pending = OpenCodePendingQuestion::decode(&json(r#"{
        "id": "question-1",
        "sessionID": "session-1",
        "questions": [
            {
                "header": "Pick a path",
                "question": "Which implementation should OpenCode use?",
                "options": [{ "label": "Minimal" }]
            },
            {
                "header": "Add note",
                "question": "Any extra instructions?",
                "custom": true
            }
        ]
    }"#))
    .unwrap();

    assert!(pending.single_question().is_none());
    assert_eq!(pending.questions.len(), 2);
    assert_eq!(pending.title(), "OpenCode needs input");
    assert_eq!(pending.questions[1].header, "Add note");
    assert!(pending.questions[1].allows_custom_answer());
}

fn projects(paths: &[&str]) -> Vec<OpenCodeProjectWire> {
    paths
        .iter()
        .enumerate()
        .map(|(index, path)| OpenCodeProjectWire {
            id: format!("project-{index}"),
            worktree: String::from(*path),
        })
        .collect()
}

fn message(
    role: &str,
    parts: Vec<JsonValue>,
    error: Option<JsonValue>,
    finish: Option<JsonValue>,
) -> OpenCodeMessageWire {
    OpenCodeMessageWire {
        role: role.to_string(),
        error,
        finish,
        parts,
    }
}

fn session_detail(items: Vec<OpenCodeConversationItem>) -> OpenCodeSessionDetail {
    OpenCodeSessionDetail {
        summary: OpenCodeSessionSummary {
            id: "ses_test".to_string(),
            title: "Test session".to_string(),
            directory: Some(String::from("/Users/te/dev/warp")),
            project_id: Some("project-test".to_string()),
            updated_at: Some(1777040510640),
            status: None,
        },
        items,
    }
}
