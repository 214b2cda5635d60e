//! Conversations with a Codex server.
use slipstream::codex_app_server::address::{
    health_url_for_app_server, is_loopback_url, normalize_codex_app_server_url,
};
use slipstream::codex_app_server::approval::{CodexApprovalDecision, JsonRpcId};
use slipstream::codex_app_server::catalog::{
    dedupe_project_roots, should_apply_polled_thread_detail, should_resume_thread,
};
use slipstream::codex_app_server::history::codex_thread_detail_to_ai_conversation;
use slipstream::codex_app_server::machine::CodexAppServerModel;
use slipstream::codex_app_server::prompt::{
    initialize_params, parse_codex_prompt_request, thread_resume_params, thread_start_params,
    turn_start_params, CodexPromptCollaborationMode, CodexPromptRequest,
};
use slipstream::codex_app_server::request::{
    parse_approval_request, CodexPendingApproval, CodexPendingApprovalControl,
};
use slipstream::codex_app_server::transcript::codex_items_to_agent_text;
use slipstream::codex_app_server::turn::parse_incoming;
use slipstream::codex_app_server::types::{
    CodexConversationItem, CodexModelInfo, CodexThreadDetail, CodexThreadSummary,
};
use slipstream::codex_app_server::wire::{
    parse_model_list, parse_thread_detail, parse_thread_list,
};
use slipstream::conversation::AIConversationId;
use slipstream::json::JsonValue;
use slipstream::time::Timestamp;
use slipstream::path::PathStyle;

fn json(text: &str) -> JsonValue {
    JsonValue::parse(text).unwrap()
}

fn serde(text: &str) -> serde_json::Value {
    serde_json::from_str(text).unwrap()
}

#[test]
fn normalizes_url_with_default_scheme_and_port() {
    let url = normalize_codex_app_server_url("127.0.0.1").unwrap();
    assert_eq!(url.as_str(), "ws://127.0.0.1:4500/");
}

#[test]
fn normalizes_http_to_websocket() {
    let url = normalize_codex_app_server_url("http://localhost:5000/").unwrap();
    assert_eq!(url.as_str(), "ws://localhost:5000/");
}

#[test]
fn derives_health_url() {
    let url = normalize_codex_app_server_url("wss://codex.example.test:9443").unwrap();
    assert_eq!(
        health_url_for_app_server(&url).unwrap().as_str(),
        "https://codex.example.test:9443/healthz"
    );
}

#[test]
fn detects_loopback_hosts() {
    assert!(is_loopback_url(
        &normalize_codex_app_server_url("localhost:4500").unwrap()
    ));
    assert!(is_loopback_url(
        &normalize_codex_app_server_url("127.0.0.1:4500").unwrap()
    ));
    assert!(!is_loopback_url(
        &normalize_codex_app_server_url("codex.example.test:4500").unwrap()
    ));
}

#[test]
fn parses_thread_lists_from_common_shapes() {
    let payload = json(r#"{
        "threads": [{
            "id": "abc",
            "title": "Implement feature",
            "cwd": "/tmp/project",
            "updated_at": "2026-05-06T12:00:00Z",
            "sourceKind": "cli"
        }]
    }"#);
    let threads = parse_thread_list(&payload);
    assert_eq!(threads.len(), 1);
    assert_eq!(threads[0].id, "abc");
    assert_eq!(
        threads[0].cwd.as_deref(),
        Some("/tmp/project")
    );
}

#[test]
fn parses_codex_model_list_from_common_shapes() {
    let payload = json(r#"{
        "models": [
            {
                "id": "gpt-5.4",
                "displayName": "GPT-5.4",
                "isDefault": true
            },
            {
                "id": "gpt-5.4-codex",
                "name": "GPT-5.4 Codex"
            }
        ]
    }"#);

    let models = parse_model_list(&payload);

    assert_eq!(
        models,
        vec![
            CodexModelInfo {
                id: "gpt-5.4".to_string(),
                display_name: "GPT-5.4".to_string(),
                is_default: true,
            },
            CodexModelInfo {
                id: "gpt-5.4-codex".to_string(),
                display_name: "GPT-5.4 Codex".to_string(),
                is_default: false,
            },
        ]
    );
}

#[test]
fn codex_model_label_stays_codex_until_user_selects_override() {
    let mut model = CodexAppServerModel::new(PathStyle::Posix);
    model.finish_refresh(Ok((
        Vec::new(),
        vec![CodexModelInfo {
            id: "gpt-5.4-codex".to_string(),
            display_name: "GPT-5.4 Codex".to_string(),
            is_default: true,
        }],
    )));

    assert_eq!(model.selected_model_display_name(), "codex");

    model.set_selected_model_id(Some("gpt-5.4-codex".to_string()));

    assert_eq!(model.selected_model_display_name(), "GPT-5.4 Codex");
}

#[test]
fn codex_request_params_include_model_only_when_selected() {
    assert_eq!(
        thread_resume_params("thread-1", None).to_serde(),
        serde(r#"{
            "threadId": "thread-1",
            "approvalPolicy": "on-request",
            "approvalsReviewer": "user"
        }"#)
    );
    assert_eq!(
        thread_resume_params("thread-1", Some("gpt-5.4-codex")).to_serde(),
        serde(r#"{
            "threadId": "thread-1",
            "approvalPolicy": "on-request",
            "approvalsReviewer": "user",
            "model": "gpt-5.4-codex"
        }"#)
    );
    assert_eq!(
        turn_start_params("thread-1", "hello", Some("gpt-5.4-codex"), None, None).to_serde(),
        serde(r#"{
            "threadId": "thread-1",
            "approvalPolicy": "on-request",
            "approvalsReviewer": "user",
            "model": "gpt-5.4-codex",
            "input": [{
                "type": "text",
                "text": "hello"
            }]
        }"#)
    );
}

#[test]
fn codex_initialize_declares_experimental_api_capability() {
    assert_eq!(
        initialize_params("0.1.0").to_serde(),
        serde(r#"{
            "clientInfo": {
                "name": "Slipstream",
                "version": "0.1.0"
            },
            "capabilities": {
                "experimentalApi": true
            }
        }"#)
    );
}

#[test]
fn parses_codex_plan_prompt_commands() {
    assert_eq!(
        parse_codex_prompt_request("/plan inspect the diff"),
        Some(CodexPromptRequest {
            prompt: "inspect the diff".to_string(),
            collaboration_mode: Some(CodexPromptCollaborationMode::Plan),
        })
    );
    assert_eq!(
        parse_codex_prompt_request("/codex-plan\ninspect the diff"),
        Some(CodexPromptRequest {
            prompt: "inspect the diff".to_string(),
            collaboration_mode: Some(CodexPromptCollaborationMode::Plan),
        })
    );
    assert_eq!(
        parse_codex_prompt_request("/planetary work")
            .unwrap()
            .collaboration_mode,
        None
    );
}

#[test]
fn codex_plan_turn_params_include_collaboration_mode() {
    assert_eq!(
        turn_start_params(
            "thread-1",
            "inspect the diff",
            None,
            Some(CodexPromptCollaborationMode::Plan),
            Some("gpt-5.4-codex"),
        ).to_serde(),
        serde(r#"{
            "threadId": "thread-1",
            "approvalPolicy": "on-request",
            "approvalsReviewer": "user",
            "collaborationMode": {
                "mode": "plan",
                "settings": {
                    "model": "gpt-5.4-codex",
                    "developer_instructions": null,
                    "reasoning_effort": null
                }
            },
            "input": [{
                "type": "text",
                "text": "inspect the diff"
            }]
        }"#)
    );
}

#[test]
fn first_turn_on_newly_started_thread_does_not_resume() {
    assert!(!should_resume_thread(Some("thread-1"), "thread-1"));
    assert!(should_resume_thread(Some("thread-2"), "thread-1"));
    assert!(should_resume_thread(None, "thread-1"));
}

#[test]
fn polled_empty_thread_detail_does_not_replace_existing_items() {
    let current = CodexThreadDetail {
        summary: CodexThreadSummary {
            id: "thread-1".to_string(),
            title: "Existing thread".to_string(),
            cwd: None,
            updated_at: None,
            source_kind: None,
        },
        items: vec![CodexConversationItem {
            role: "agentMessage".to_string(),
            text: "Existing response".to_string(),
        }],
    };
    let next = CodexThreadDetail {
        summary: current.summary.clone(),
        items: Vec::new(),
    };

    assert!(!should_apply_polled_thread_detail(Some(&current), &next));
    assert!(should_apply_polled_thread_detail(None, &next));
}

#[test]
fn codex_thread_start_params_include_current_project_cwd() {
    assert_eq!(
        thread_start_params(Some("gpt-5.4-codex"), Some("/tmp/project")).to_serde(),
        serde(r#"{
            "approvalPolicy": "on-request",
            "approvalsReviewer": "user",
            "model": "gpt-5.4-codex",
            "cwd": "/tmp/project"
        }"#)
    );
}

#[test]
fn merges_active_and_imported_project_roots_without_duplicates() {
    let roots = dedupe_project_roots(
        PathStyle::Posix,
        &vec![String::from("/tmp/project"), String::from("/tmp/other")],
        &vec![
            String::from("/tmp/project"),
            String::from("/tmp/imported"),
        ],
    );
    assert_eq!(
        roots,
        vec![
            String::from("/tmp/project"),
            String::from("/tmp/other"),
            String::from("/tmp/imported"),
        ]
    );
}

#[test]
fn parses_command_approval_requests() {
    let payload = json(r#"{
        "threadId": "thread-1",
        "turnId": "turn-1",
        "itemId": "item-1",
        "reason": "Run tests?",
        "command": ["cargo", "test", "-p", "warp"],
        "cwd": "/tmp/project",
        "availableDecisions": ["accept", "decline", "cancel"]
    }"#);
    let approval = parse_approval_request(
        Some("item/commandExecution/requestApproval"),
        Some(JsonRpcId::Number(99)),
        Some(&payload),
    )
    .unwrap();

    assert_eq!(approval.reason, "Run tests?");
    assert_eq!(approval.command.as_deref(), Some("cargo test -p warp"));
    assert!(approval.user_input_questions.is_empty());
    assert_eq!(
        approval.available_decisions,
        vec![
            CodexApprovalDecision::Accept,
            CodexApprovalDecision::Decline,
            CodexApprovalDecision::Cancel,
        ]
    );
}

#[test]
fn approval_decision_result_uses_app_server_payload_shape() {
    let payload = json(r#"{
        "threadId": "thread-1",
        "turnId": "turn-1",
        "itemId": "item-1"
    }"#);
    let approval = parse_approval_request(
        Some("item/commandExecution/requestApproval"),
        Some(JsonRpcId::Number(99)),
        Some(&payload),
    )
    .unwrap();

    assert_eq!(
        approval.approval_result(CodexApprovalDecision::AcceptForSession).to_serde(),
        serde(r#"{ "decision": "acceptForSession" }"#)
    );
}

#[test]
fn approval_decision_result_preserves_new_codex_wire_values() {
    let payload = json(r#"{
        "thread_id": "thread-1",
        "turn_id": "turn-1",
        "approval_id": "approval-1",
        "execve": {
            "program": "cargo",
            "argv": ["test", "-p", "warp"]
        },
        "available_decisions": [
            "approve",
            "approve_for_session",
            "approve_for_prefix",
            "decline",
            "cancel"
        ]
    }"#);
    let approval = parse_approval_request(
        Some("exec_approval_request"),
        Some(JsonRpcId::Number(99)),
        Some(&payload),
    )
    .unwrap();

    assert_eq!(approval.item_id.as_deref(), Some("approval-1"));
    assert_eq!(approval.command.as_deref(), Some("cargo test -p warp"));
    assert_eq!(
        approval.available_decisions,
        vec![
            CodexApprovalDecision::Accept,
            CodexApprovalDecision::AcceptForSession,
            CodexApprovalDecision::AcceptForPrefix,
            CodexApprovalDecision::Decline,
            CodexApprovalDecision::Cancel,
        ]
    );
    assert_eq!(
        approval.approval_result(CodexApprovalDecision::AcceptForSession).to_serde(),
        serde(r#"{ "decision": "approve_for_session" }"#)
    );
}

#[test]
fn parses_request_user_input_questions() {
    let payload = json(r#"{
        "threadId": "thread-1",
        "turnId": "turn-1",
        "itemId": "call-1",
        "questions": [{
            "id": "approval",
            "header": "Approve plan?",
            "question": "Should Codex continue with this plan?",
            "options": [
                { "label": "Approve", "description": "Continue" },
                { "label": "Decline", "description": "Stop" }
            ]
        }]
    }"#);
    let approval = parse_approval_request(
        Some("item/tool/requestUserInput"),
        Some(JsonRpcId::Number(42)),
        Some(&payload),
    )
    .unwrap();

    assert!(approval.available_decisions.is_empty());
    assert_eq!(approval.title(), "Approve plan?");
    assert_eq!(approval.message(), "Should Codex continue with this plan?");
    assert_eq!(approval.user_input_questions[0].options[0].label, "Approve");
    assert_eq!(
        approval.user_input_result("approval", "Approve").map(|value| value.to_serde()),
        Some(serde(r#"{
            "answers": {
                "approval": {
                    "answers": ["Approve"]
                }
            }
        }"#))
    );
}

#[test]
fn parses_idless_request_user_input_questions_from_latest_codex_shape() {
    let payload = json(r#"{
        "thread_id": "thread-1",
        "turn_id": "turn-1",
        "questions": [{
            "header": "Prompt Test",
            "question": "What kind of prompt interaction would you like to test?",
            "isOther": true,
            "options": [
                { "label": "Single choice" },
                { "label": "Multiple choice" },
                { "label": "Custom answer" }
            ]
        }]
    }"#);
    let approval = parse_approval_request(
        Some("request_user_input"),
        Some(JsonRpcId::Number(42)),
        Some(&payload),
    )
    .unwrap();

    assert!(approval.available_decisions.is_empty());
    assert_eq!(approval.user_input_questions[0].id, "question-1");
    assert_eq!(approval.title(), "Prompt Test");
    assert_eq!(
        approval.message(),
        "What kind of prompt interaction would you like to test?"
    );
    assert_eq!(
        approval.user_input_result("question-1", "Single choice").map(|value| value.to_serde()),
        Some(serde(r#"{
            "answers": [{
                "answers": ["Single choice"]
            }]
        }"#))
    );
}

#[test]
fn request_user_input_without_questions_falls_back_to_approval_buttons() {
    let payload = json(r#"{
        "thread_id": "thread-1",
        "turn_id": "turn-1",
        "reason": "Codex is requesting approval."
    }"#);
    let approval = parse_approval_request(
        Some("request_user_input"),
        Some(JsonRpcId::Number(42)),
        Some(&payload),
    )
    .unwrap();

    assert!(approval.user_input_questions.is_empty());
    assert_eq!(approval.title(), "Codex needs approval");
    assert_eq!(
        approval.message(),
        "Approve Codex to continue with the proposed plan?"
    );
    assert_eq!(
        approval.effective_available_decisions(),
        vec![
            CodexApprovalDecision::Accept,
            CodexApprovalDecision::Decline,
            CodexApprovalDecision::Cancel,
        ]
    );
}

#[test]
fn parses_codex_user_message_content_as_user_item() {
    let payload = json(r#"{
        "thread": {
            "id": "thread-1",
            "turns": [{
                "items": [{
                    "type": "userMessage",
                    "content": [{ "type": "text", "text": "hello codex" }]
                }]
            }]
        }
    }"#);

    let detail = parse_thread_detail(&payload, None, "thread-1");
    assert_eq!(
        detail.items,
        vec![CodexConversationItem {
            role: "userMessage".to_string(),
            text: "hello codex".to_string(),
        }]
    );
}

#[test]
fn streamed_agent_deltas_are_joined_and_completed_duplicate_is_skipped() {
    let text = codex_items_to_agent_text(&[
        CodexConversationItem {
            role: "item/agentMessage/delta".to_string(),
            text: "You".to_string(),
        },
        CodexConversationItem {
            role: "item/agentMessage/delta".to_string(),
            text: "’".to_string(),
        },
        CodexConversationItem {
            role: "item/agentMessage/delta".to_string(),
            text: "re welcome.".to_string(),
        },
        CodexConversationItem {
            role: "item/completed".to_string(),
            text: "You’re welcome.".to_string(),
        },
    ]);

    assert_eq!(text, "You’re welcome.");
}

#[test]
fn completed_item_without_deltas_renders_as_assistant_text() {
    let text = codex_items_to_agent_text(&[CodexConversationItem {
        role: "item/completed".to_string(),
        text: "Done.".to_string(),
    }]);

    assert_eq!(text, "Done.");
}

#[test]
fn command_execution_items_render_as_command_markers_with_output() {
    let text = codex_items_to_agent_text(&[
        CodexConversationItem {
            role: "item/started".to_string(),
            text: "/bin/zsh -lc 'git status --short'".to_string(),
        },
        CodexConversationItem {
            role: "item/commandExecution/outputDelta".to_string(),
            text: json(r#"{
                "body": " M app/src/codex_app_server/mod.rs\n",
                "status": "running"
            }"#).compact(),
        },
        CodexConversationItem {
            role: "item/completed".to_string(),
            text: "/bin/zsh -lc 'git status --short'".to_string(),
        },
        CodexConversationItem {
            role: "item/agentMessage".to_string(),
            text: "Done.".to_string(),
        },
    ]);

    assert_eq!(
        text,
        "commandExecution: /bin/zsh -lc 'git status --short'\n\ncommandExecution/output: \" M app/src/codex_app_server/mod.rs\\n\"\n\nDone."
    );
}

#[test]
fn late_completed_command_execution_update_never_renders_raw_json() {
    let completed_command = json(r#"{
        "aggregatedOutput": " 47M\thomeassistant-config\n976M\t.esphome\n",
        "command": "/bin/zsh -lc 'du -sh homeassistant-config .esphome 2>/dev/null || true'",
        "commandActions": [{
            "command": "du -sh homeassistant-config .esphome 2>/dev/null || true",
            "type": "unknown"
        }],
        "cwd": "/Users/te/dev/esphome",
        "durationMs": 389,
        "exitCode": 0,
        "id": "call_brnPF99vxX7WcYLCQb9J6uju",
        "processId": "45778",
        "source": "unifiedExecStartup",
        "status": "completed",
        "type": "commandExecution"
    }"#);
    let text = codex_items_to_agent_text(&[
        CodexConversationItem {
            role: "item/started".to_string(),
            text: "/bin/zsh -lc 'du -sh homeassistant-config .esphome 2>/dev/null || true'"
                .to_string(),
        },
        CodexConversationItem {
            role: "item/started".to_string(),
            text: "/bin/zsh -lc 'git status --short'".to_string(),
        },
        CodexConversationItem {
            role: "item/completed".to_string(),
            text: completed_command.compact(),
        },
    ]);

    assert!(
        !text.contains("aggregatedOutput"),
        "raw commandExecution JSON leaked into agent text: {text}"
    );
    assert_eq!(
        text,
        "commandExecution: /bin/zsh -lc 'du -sh homeassistant-config .esphome 2>/dev/null || true'\n\ncommandExecution: /bin/zsh -lc 'git status --short'\n\ncommandExecution/output: {\"command\":\"/bin/zsh -lc 'du -sh homeassistant-config .esphome 2>/dev/null || true'\",\"output\":\" 47M\\thomeassistant-config\\n976M\\t.esphome\\n\"}"
    );
}

#[test]
fn parses_nested_request_user_input_questions() {
    let payload = json(r#"{
        "request": {
            "questions": [{
                "id": "approval",
                "header": "Approve plan?",
                "question": "Should Codex continue with this plan?",
                "options": [
                    { "label": "Approve", "description": "Continue" },
                    { "label": "Decline", "description": "Stop" }
                ]
            }]
        }
    }"#);
    let approval = parse_approval_request(
        Some("item/tool/requestUserInput"),
        Some(JsonRpcId::Number(42)),
        Some(&payload),
    )
    .unwrap();

    assert_eq!(approval.title(), "Approve plan?");
    assert_eq!(approval.user_input_questions[0].options[0].label, "Approve");
}

#[test]
fn thread_read_merges_fallback_cwd_from_project_scoped_list() {
    let payload = json(r#"{
        "thread": {
            "id": "thread-1",
            "title": "Project thread"
        }
    }"#);
    let fallback = CodexThreadSummary {
        id: "thread-1".to_string(),
        title: "Project thread".to_string(),
        cwd: Some(String::from("/tmp/project")),
        updated_at: Some("2026-05-06T12:00:00Z".to_string()),
        source_kind: Some("cli".to_string()),
    };

    let detail = parse_thread_detail(&payload, Some(fallback), "thread-1");

    assert_eq!(
        detail.summary.cwd.as_deref(),
        Some("/tmp/project")
    );
    assert_eq!(
        detail.summary.updated_at.as_deref(),
        Some("2026-05-06T12:00:00Z")
    );
}

#[test]
fn converts_thread_detail_to_hidden_agent_conversation() {
    let detail = CodexThreadDetail {
        summary: CodexThreadSummary {
            id: "thread-1".to_string(),
            title: "Fix Codex bridge".to_string(),
            cwd: Some(String::from("/tmp/project")),
            updated_at: Some("1730831111".to_string()),
            source_kind: Some("cli".to_string()),
        },
        items: vec![
            CodexConversationItem {
                role: "userMessage".to_string(),
                text: "render this thread".to_string(),
            },
            CodexConversationItem {
                role: "agentMessage".to_string(),
                text: "Rendered.".to_string(),
            },
        ],
    };

    let conversation_id = AIConversationId { value: 7 };
    let now = Timestamp { seconds: 1_800_000_000, nanos: 0 };
    let conversation = codex_thread_detail_to_ai_conversation(conversation_id, &detail, now);

    assert_eq!(conversation.id(), conversation_id);
    assert!(conversation.should_exclude_from_navigation());
    assert_eq!(
        conversation.latest_user_query().as_deref(),
        Some("render this thread")
    );
    assert_eq!(conversation.exchanges.len(), 1);
    assert_eq!(
        conversation.exchanges[0].query.as_deref(),
        Some("render this thread")
    );
    assert_eq!(
        conversation.exchanges[0].output.as_deref(),
        Some("Rendered.")
    );
    assert_eq!(
        conversation.exchanges[0].start_time,
        Timestamp { seconds: 1_730_831_111, nanos: 0 }
    );
}

fn approval_from_wire_message(message: JsonValue) -> CodexPendingApproval {
    let message = match message.get("message") {
        Some(inner) => inner.compact(),
        None => message.compact(),
    };
    let incoming = parse_incoming(&message).unwrap();
    parse_approval_request(
        incoming.method.as_deref(),
        incoming.id,
        incoming.params.as_ref(),
    )
    .unwrap()
}

#[test]
fn request_user_input_message_only_wire_request_stays_actionable() {
    let approval = approval_from_wire_message(json(r#"{
        "id": 7,
        "method": "request_user_input",
        "params": {
            "thread_id": "thread-1",
            "turn_id": "turn-1",
            "message": "Codex is requesting approval."
        }
    }"#));

    assert!(approval.user_input_questions.is_empty());
    assert_eq!(approval.message(), "Codex is requesting approval.");
    assert_eq!(
        approval.controls(),
        vec![
            CodexPendingApprovalControl::ApprovalDecision(CodexApprovalDecision::Accept),
            CodexPendingApprovalControl::ApprovalDecision(CodexApprovalDecision::Decline),
            CodexPendingApprovalControl::ApprovalDecision(CodexApprovalDecision::Cancel),
        ]
    );
    assert_eq!(
        approval.approval_result(CodexApprovalDecision::Accept).to_serde(),
        serde(r#"{ "decision": "accept" }"#)
    );
}

#[test]
fn request_user_input_prompt_only_wire_request_stays_actionable() {
    let approval = approval_from_wire_message(json(r#"{
        "id": 9,
        "method": "request_user_input",
        "params": {
            "thread_id": "thread-1",
            "turn_id": "turn-1",
            "prompt": "Codex is requesting approval."
        }
    }"#));

    assert_eq!(
        approval.controls(),
        vec![
            CodexPendingApprovalControl::ApprovalDecision(CodexApprovalDecision::Accept),
            CodexPendingApprovalControl::ApprovalDecision(CodexApprovalDecision::Decline),
            CodexPendingApprovalControl::ApprovalDecision(CodexApprovalDecision::Cancel),
        ]
    );
}

#[test]
fn request_user_input_question_wire_request_stays_a_prompt() {
    let approval = approval_from_wire_message(json(r#"{
        "id": 8,
        "method": "request_user_input",
        "params": {
            "thread_id": "thread-1",
            "turn_id": "turn-1",
            "questions": [{
                "header": "Prompt Test",
                "question": "What kind of prompt interaction would you like to test?",
                "options": [
                    { "label": "Single choice" },
                    { "label": "Multiple choice" }
                ]
            }]
        }
    }"#));

    assert_eq!(
        approval.controls(),
        vec![
            CodexPendingApprovalControl::UserInputOption {
                question_id: "question-1".to_string(),
                label: "Single choice".to_string(),
                description: String::new(),
            },
            CodexPendingApprovalControl::UserInputOption {
                question_id: "question-1".to_string(),
                label: "Multiple choice".to_string(),
                description: String::new(),
            },
        ]
    );
    assert_eq!(approval.title(), "Prompt Test");
    assert_eq!(
        approval.message(),
        "What kind of prompt interaction would you like to test?"
    );
    assert_eq!(
        approval.user_input_result("question-1", "Single choice").map(|value| value.to_serde()),
        Some(serde(r#"{
            "answers": [{
                "answers": ["Single choice"]
            }]
        }"#))
    );
}

#[test]
fn request_user_input_with_multiple_option_questions_never_renders_dead_card() {
    let approval = approval_from_wire_message(json(r#"{
        "id": 10,
        "method": "request_user_input",
        "params": {
            "thread_id": "thread-1",
            "turn_id": "turn-1",
            "reason": "Codex is requesting approval.",
            "questions": [
                {
                    "question": "Approve?",
                    "options": [{ "label": "Approve" }]
                },
                {
                    "question": "Scope?",
                    "options": [{ "label": "This command" }]
                }
            ]
        }
    }"#));

    assert_eq!(approval.title(), "Codex needs input");
    assert_eq!(
        approval.controls(),
        vec![
            CodexPendingApprovalControl::ApprovalDecision(CodexApprovalDecision::Accept),
            CodexPendingApprovalControl::ApprovalDecision(CodexApprovalDecision::Decline),
            CodexPendingApprovalControl::ApprovalDecision(CodexApprovalDecision::Cancel),
        ]
    );
}

#[test]
fn reading_a_server_address_again_changes_nothing() {
    for input in ["", "localhost", "http://host", "https://host:9443/path?x=1", "ws://host:80"] {
        let url = normalize_codex_app_server_url(input).unwrap();
        let again = normalize_codex_app_server_url(url.as_str()).unwrap();
        assert_eq!(again.scheme(), url.scheme());
        assert_eq!(again.host_str(), url.host_str());
        assert!(health_url_for_app_server(&url).is_ok());
    }
}
