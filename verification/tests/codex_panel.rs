//! The panel of Codex conversations.
use slipstream::codex_app_server::address::{
    codex_start_command, normalize_codex_app_server_url, CodexAddressError, CodexAppServerConfig,
};
use slipstream::codex_app_server::approval::{CodexApprovalDecision, JsonRpcId};
use slipstream::codex_app_server::capture::{approval_capture_record, codex_approval_capture_path};
use slipstream::codex_app_server::catalog::{add_model_page, next_cursor, CodexThreadCatalog};
use slipstream::codex_app_server::conversations::{start_hint, visible_threads};
use slipstream::codex_app_server::effect::{
    CodexAppServerModelEvent, CodexAppServerSettings, CodexAppServerStatus,
    CodexConversationTurnContext, CodexEffect, ReadPurpose,
};
use slipstream::codex_app_server::history::{codex_thread_updated_at_utc, parse_codex_timestamp};
use slipstream::codex_app_server::machine::CodexAppServerModel;
use slipstream::codex_app_server::model::CodexTurnProgress;
use slipstream::codex_app_server::prompt::{
    display_codex_prompt_request, parse_codex_prompt_request,
};
use slipstream::codex_app_server::request::{parse_approval_request, CodexPendingApproval};
use slipstream::codex_app_server::rpc::{
    check_health_status, closed_before_reply, notification_message, reply_message,
    request_message,
};
use slipstream::codex_app_server::transcript::codex_items_to_agent_text;
use slipstream::codex_app_server::turn::{
    collect_turn_message, wait_for_response_step, ReplyStep, TurnStep,
};
use slipstream::codex_app_server::types::{
    CodexConversationItem, CodexModelInfo, CodexThreadDetail, CodexThreadSummary,
};
use slipstream::conversation::{AIAgentExchangeId, AIConversationId, EntityId};
use slipstream::json::JsonValue;
use slipstream::time::Timestamp;
use slipstream::path::PathStyle;

const NOW: Timestamp = Timestamp {
    seconds: 1_800_000_000,
    nanos: 0,
};

fn json(text: &str) -> JsonValue {
    JsonValue::parse(text).unwrap()
}

fn settings(enabled: bool) -> CodexAppServerSettings {
    CodexAppServerSettings {
        enabled,
        server_url: "ws://127.0.0.1:4500".to_string(),
        imported_project_paths: Vec::new(),
        imported_thread_ids: Vec::new(),
        bearer_token: String::new(),
    }
}

fn summary(id: &str) -> CodexThreadSummary {
    CodexThreadSummary {
        id: id.to_string(),
        title: format!("Title of {id}"),
        cwd: Some("/tmp/project".to_string()),
        updated_at: None,
        source_kind: None,
    }
}

fn detail(id: &str, texts: &[(&str, &str)]) -> CodexThreadDetail {
    CodexThreadDetail {
        summary: summary(id),
        items: texts
            .iter()
            .map(|(role, text)| CodexConversationItem {
                role: role.to_string(),
                text: text.to_string(),
            })
            .collect(),
    }
}

fn model_info(id: &str) -> CodexModelInfo {
    CodexModelInfo {
        id: id.to_string(),
        display_name: id.to_uppercase(),
        is_default: false,
    }
}

fn approval() -> CodexPendingApproval {
    parse_approval_request(
        Some("item/commandExecution/requestApproval"),
        Some(JsonRpcId::Number(5)),
        Some(&json(r#"{"threadId": "t1", "command": "ls"}"#)),
    )
    .unwrap()
}

fn context(conversation_id: AIConversationId) -> CodexConversationTurnContext {
    CodexConversationTurnContext {
        conversation_id,
        exchange_id: AIAgentExchangeId { value: 3 },
        terminal_view_id: EntityId { value: 4 },
    }
}

/// A panel with the thread `t1` open as conversation 7.
fn opened() -> CodexAppServerModel {
    let mut model = CodexAppServerModel::new(PathStyle::Posix);
    model.finish_refresh(Ok((vec![summary("t1"), summary("t2")], vec![model_info("m1")])));
    model.open_thread_as_conversation("t1", AIConversationId { value: 7 }, &settings(true));
    model.finish_open_thread_as_conversation(
        AIConversationId { value: 7 },
        Ok(detail("t1", &[("userMessage", "hello")])),
        NOW,
    );
    model
}

fn scheduled_generation(effects: &[CodexEffect]) -> Option<u64> {
    effects.iter().find_map(|effect| match effect {
        CodexEffect::SchedulePoll { generation, .. } => Some(*generation),
        _ => None,
    })
}

#[test]
fn refresh_asks_for_the_threads() {
    let mut model = CodexAppServerModel::new(PathStyle::Posix);
    let effects = model.refresh(&settings(true));

    assert_eq!(model.status(), &CodexAppServerStatus::Loading);
    assert!(effects
        .iter()
        .any(|effect| matches!(effect, CodexEffect::ListThreads { .. })));
}

#[test]
fn panel_that_is_off_forgets_everything() {
    let mut model = opened();
    let effects = model.refresh(&settings(false));

    assert_eq!(model.status(), &CodexAppServerStatus::Disabled);
    assert!(model.threads().is_empty());
    assert!(model.active_thread().is_none());
    assert!(model.pending_approval().is_none());
    assert!(effects
        .iter()
        .all(|effect| matches!(effect, CodexEffect::Emit(_))));
}

#[test]
fn failed_refresh_disconnects() {
    let mut model = CodexAppServerModel::new(PathStyle::Posix);
    model.finish_refresh(Err("no answer".to_string()));

    assert_eq!(
        model.status(),
        &CodexAppServerStatus::Disconnected {
            message: "no answer".to_string()
        }
    );
}

#[test]
fn opened_thread_is_linked_to_its_conversation() {
    let model = opened();
    let id = AIConversationId { value: 7 };

    assert_eq!(model.conversation_id_for_thread("t1"), Some(id));
    assert_eq!(model.thread_id_for_conversation(id), Some("t1"));
    assert!(model.is_codex_conversation(id));
    assert!(!model.is_codex_conversation(AIConversationId { value: 8 }));
    assert_eq!(model.opening_thread_id(), None);
}

#[test]
fn opening_again_keeps_the_conversation() {
    let mut model = opened();
    let effects =
        model.open_thread_as_conversation("t1", AIConversationId { value: 9 }, &settings(true));

    assert_eq!(
        model.conversation_id_for_thread("t1"),
        Some(AIConversationId { value: 7 })
    );
    assert!(effects.iter().any(|effect| matches!(
        effect,
        CodexEffect::ReadThread {
            purpose: ReadPurpose::OpenAsConversation {
                conversation_id: AIConversationId { value: 7 }
            },
            ..
        }
    )));
}

#[test]
fn only_the_latest_poll_counts() {
    let mut model = CodexAppServerModel::new(PathStyle::Posix);
    model.finish_refresh(Ok((vec![summary("t1")], Vec::new())));
    model.open_thread_as_conversation("t1", AIConversationId { value: 7 }, &settings(true));
    let first = scheduled_generation(&model.finish_open_thread_as_conversation(
        AIConversationId { value: 7 },
        Ok(detail("t1", &[])),
        NOW,
    ))
    .unwrap();
    assert!(model.should_poll_active_thread("t1", first));
    assert!(!model.should_poll_active_thread("t2", first));

    model.open_thread_as_conversation("t1", AIConversationId { value: 7 }, &settings(true));
    let second = scheduled_generation(&model.finish_open_thread_as_conversation(
        AIConversationId { value: 7 },
        Ok(detail("t1", &[])),
        NOW,
    ))
    .unwrap();
    assert!(!model.should_poll_active_thread("t1", first));
    assert!(model.should_poll_active_thread("t1", second));
    assert!(model.poll_active_thread("t1", first, &settings(true)).is_empty());
}

#[test]
fn empty_poll_keeps_what_is_shown() {
    let mut model = CodexAppServerModel::new(PathStyle::Posix);
    model.finish_refresh(Ok((vec![summary("t1")], Vec::new())));
    model.open_thread_as_conversation("t1", AIConversationId { value: 7 }, &settings(true));
    let generation = scheduled_generation(&model.finish_open_thread_as_conversation(
        AIConversationId { value: 7 },
        Ok(detail("t1", &[("userMessage", "hello")])),
        NOW,
    ))
    .unwrap();

    model.finish_poll("t1", generation, Ok(detail("t1", &[])), NOW);
    assert_eq!(model.active_thread().unwrap().items.len(), 1);
}

#[test]
fn deleted_thread_is_gone() {
    let mut model = opened();
    model.delete_thread("t1", &settings(true));
    let effects = model.finish_delete_thread("t1", Ok(()));

    assert!(model.threads().iter().all(|thread| thread.id != "t1"));
    assert_eq!(model.conversation_id_for_thread("t1"), None);
    assert_eq!(
        model.thread_id_for_conversation(AIConversationId { value: 7 }),
        None
    );
    assert!(effects.iter().any(|effect| matches!(
        effect,
        CodexEffect::DeleteConversation(AIConversationId { value: 7 })
    )));
}

#[test]
fn unknown_model_is_not_selected() {
    let mut model = opened();
    model.set_selected_model_id(Some("m1".to_string()));
    assert_eq!(model.selected_model_id(), Some("m1"));
    assert_eq!(model.selected_model_display_name(), "M1");

    model.finish_refresh(Ok((Vec::new(), vec![model_info("m2")])));
    assert_eq!(model.selected_model_id(), None);
}

#[test]
fn request_is_answered_once() {
    let mut model = opened();
    let id = AIConversationId { value: 7 };
    let (_, plan) = model.plan_conversation_prompt(id, "/plan look around", &settings(true));
    let plan = plan.unwrap();
    assert_eq!(plan.thread_id, "t1");
    assert_eq!(plan.request.prompt, "look around");
    assert_eq!(plan.shown_prompt, "/plan look around");

    let effects = model.submit_conversation_prompt(plan, context(id));
    assert!(effects
        .iter()
        .any(|effect| matches!(effect, CodexEffect::ContinueThread { .. })));

    model.apply_conversation_turn_progress(
        "t1",
        context(id),
        Ok(CodexTurnProgress {
            items: Vec::new(),
            pending: Some((11, approval())),
        }),
    );
    assert!(model.pending_approval_for_conversation(id).is_some());

    let effects = model.resolve_pending_approval(CodexApprovalDecision::Accept);
    let sent = effects
        .iter()
        .find_map(|effect| match effect {
            CodexEffect::Respond {
                client,
                request_id,
                result,
                ..
            } => Some((*client, request_id, result.compact())),
            _ => None,
        })
        .unwrap();
    assert_eq!(
        sent,
        (
            11,
            &JsonRpcId::Number(5),
            r#"{"decision":"accept"}"#.to_string()
        )
    );
    assert!(model.pending_approval().is_none());
    assert!(model
        .resolve_pending_approval(CodexApprovalDecision::Accept)
        .is_empty());
}

#[test]
fn failed_turn_is_shown_as_an_error() {
    let mut model = opened();
    let id = AIConversationId { value: 7 };
    let (_, plan) = model.plan_conversation_prompt(id, "hello", &settings(true));
    model.submit_conversation_prompt(plan.unwrap(), context(id));
    let effects =
        model.apply_conversation_turn_progress("t1", context(id), Err("lost".to_string()));

    assert!(effects.iter().any(|effect| matches!(
        effect,
        CodexEffect::UpdateExchange {
            is_finished: true,
            is_error: true,
            ..
        }
    )));
}

#[test]
fn blank_prompt_is_not_sent() {
    let mut model = opened();
    let id = AIConversationId { value: 7 };
    let (_, plan) = model.plan_conversation_prompt(id, "   ", &settings(true));
    assert!(plan.is_none());
    assert!(model.submit_prompt("  ", &settings(true)).is_empty());
}

#[test]
fn new_conversation_uses_its_connection_once() {
    let mut model = CodexAppServerModel::new(PathStyle::Posix);
    model.refresh(&settings(true));
    model.start_new_conversation(&settings(true));
    let id = AIConversationId { value: 21 };
    let effects = model.finish_start_new_conversation(Ok((detail("new", &[]), 99)), id, NOW);
    assert!(effects.iter().any(|effect| matches!(
        effect,
        CodexEffect::Emit(CodexAppServerModelEvent::OpenConversation { .. })
    )));

    let clients = |effects: &[CodexEffect]| {
        effects
            .iter()
            .filter_map(|effect| match effect {
                CodexEffect::ContinueThread { client, .. } => Some(*client),
                _ => None,
            })
            .collect::<Vec<_>>()
    };
    let (_, plan) = model.plan_conversation_prompt(id, "first", &settings(true));
    let first = model.submit_conversation_prompt(plan.unwrap(), context(id));
    assert_eq!(clients(&first), vec![Some(99)]);

    model.apply_conversation_turn_progress(
        "new",
        context(id),
        Ok(CodexTurnProgress {
            items: Vec::new(),
            pending: None,
        }),
    );
    let (_, plan) = model.plan_conversation_prompt(id, "second", &settings(true));
    let second = model.submit_conversation_prompt(plan.unwrap(), context(id));
    assert_eq!(clients(&second), vec![None]);
}

#[test]
fn shown_prompt_reads_back() {
    for text in ["/plan inspect", "inspect", "/codex-plan\ninspect the diff"] {
        let request = parse_codex_prompt_request(text).unwrap();
        let shown = display_codex_prompt_request(&request);
        assert_eq!(parse_codex_prompt_request(&shown).unwrap(), request);
    }
    assert_eq!(parse_codex_prompt_request("   "), None);
}

#[test]
fn addresses_that_cannot_be_used_say_why() {
    assert_eq!(
        normalize_codex_app_server_url("ftp://localhost").unwrap_err(),
        CodexAddressError::UnsupportedScheme {
            scheme: "ftp".to_string()
        }
    );
    assert_eq!(
        normalize_codex_app_server_url("ws://").unwrap_err(),
        CodexAddressError::InvalidUrl
    );
    assert_eq!(
        CodexAppServerConfig::from_settings("wss://codex.example.test", "").unwrap_err(),
        CodexAddressError::MissingBearerToken
    );
    assert!(CodexAppServerConfig::from_settings("wss://codex.example.test", "token").is_ok());
    let config = CodexAppServerConfig::from_settings(
        "wss://codex.example.test",
        " token ",
    ).unwrap();
    assert_eq!(config.bearer_token, Some("token".to_string()));
    let config = CodexAppServerConfig::from_settings("ws://localhost:4500", "  ").unwrap();
    assert_eq!(config.bearer_token, None);
    assert_eq!(
        codex_start_command("ws://127.0.0.1:4500"),
        "codex app-server --listen 127.0.0.1:4500"
    );
}

#[test]
fn timestamps_are_read_in_every_form() {
    assert_eq!(
        parse_codex_timestamp("1730831111"),
        Some(Timestamp {
            seconds: 1_730_831_111,
            nanos: 0
        })
    );
    assert_eq!(
        parse_codex_timestamp("2024-11-05T19:25:11.250+01:00"),
        Some(Timestamp {
            seconds: 1_730_831_111,
            nanos: 250_000_000
        })
    );
    assert_eq!(
        parse_codex_timestamp("2024-11-05T18:25:11Z"),
        Some(Timestamp {
            seconds: 1_730_831_111,
            nanos: 0
        })
    );
    assert_eq!(parse_codex_timestamp("yesterday"), None);
    assert_eq!(codex_thread_updated_at_utc(&summary("t1")), None);
}

#[test]
fn threads_are_listed_once_and_latest_first() {
    let mut catalog = CodexThreadCatalog::new();
    let cursor = catalog.add_page(
        "/tmp/project",
        &json(
            r#"{"threads": [
                {"id": "a", "title": "A", "updated_at": "1730831111"},
                {"id": "b", "title": "B", "updated_at": "1730831112"}
            ], "nextCursor": "more"}"#,
        ),
    );
    assert_eq!(
        cursor.map(|cursor| cursor.compact()),
        Some(r#""more""#.to_string())
    );
    let cursor = catalog.add_page(
        "/tmp/project",
        &json(r#"{"threads": [{"id": "a", "title": "A again"}]}"#),
    );
    assert!(cursor.is_none());
    assert_eq!(catalog.missing_thread("c"), Some("c"));
    assert_eq!(catalog.missing_thread("a"), None);

    let ids = catalog
        .into_threads()
        .into_iter()
        .map(|thread| thread.id)
        .collect::<Vec<_>>();
    assert_eq!(ids.len(), 2);
    assert!(ids.contains(&"a".to_string()));
    assert!(ids.contains(&"b".to_string()));
}

#[test]
fn model_pages_list_each_model_once() {
    let mut known = Vec::new();
    let page = json(r#"{"models": [{"id": "m", "name": "M"}], "next_cursor": null}"#);
    assert!(add_model_page(&mut known, &page).is_none());
    add_model_page(&mut known, &page);
    assert_eq!(known.len(), 1);
    assert!(next_cursor(&page).is_none());
}

#[test]
fn search_finds_threads_by_title_id_and_directory() {
    let threads = vec![summary("alpha"), summary("beta")];
    assert_eq!(visible_threads(&threads, "ALPHA").len(), 1);
    assert_eq!(visible_threads(&threads, "tmp/proj").len(), 2);
    assert_eq!(visible_threads(&threads, "").len(), 2);
    assert!(visible_threads(&threads, "gamma").is_empty());
}

#[test]
fn hint_is_given_where_the_server_does_not_answer() {
    let hint = start_hint(
        &CodexAppServerStatus::Disconnected {
            message: "no".to_string(),
        },
        "ws://127.0.0.1:4500",
    );
    assert!(hint.unwrap().contains("codex app-server"));
    assert_eq!(
        start_hint(&CodexAppServerStatus::Connected, "ws://127.0.0.1:4500"),
        None
    );
}

#[test]
fn answers_are_told_from_other_messages() {
    assert!(matches!(
        wait_for_response_step(r#"{"id": 2, "result": {}}"#, 1, "initialize"),
        ReplyStep::Wait
    ));
    match wait_for_response_step(r#"{"id": 1, "result": {"ok": true}}"#, 1, "initialize") {
        ReplyStep::Done(Ok(result)) => assert_eq!(result.compact(), r#"{"ok":true}"#),
        _ => panic!("expected a result"),
    }
    match wait_for_response_step(
        r#"{"id": 1, "error": {"code": -1, "message": "refused"}}"#,
        1,
        "initialize",
    ) {
        ReplyStep::Done(Err(error)) => assert!(error.contains("refused")),
        _ => panic!("expected an error"),
    }
}

#[test]
fn turn_ends_with_its_notification() {
    let mut items = Vec::new();
    assert!(matches!(
        collect_turn_message(
            &mut items,
            r#"{"method": "item/agentMessage/delta", "params": {"delta": "Hi"}}"#
        ),
        TurnStep::Continue
    ));
    assert!(matches!(
        collect_turn_message(&mut items, r#"{"method": "turn/completed", "params": {}}"#),
        TurnStep::Finished
    ));
    assert!(codex_items_to_agent_text(&items).contains("Hi"));
}

#[test]
fn requests_interrupt_a_turn() {
    let mut items = Vec::new();
    let step = collect_turn_message(
        &mut items,
        r#"{"id": "r1", "method": "applyPatchApprovalRequest", "params": {"reason": "Write?"}}"#,
    );
    match step {
        TurnStep::Pending(pending) => {
            assert_eq!(pending.request_id, JsonRpcId::Text("r1".to_string()));
            assert_eq!(pending.message(), "Write?");
        }
        _ => panic!("expected a request"),
    }
}

#[test]
fn object_decisions_are_sent_back_as_they_came() {
    let pending = parse_approval_request(
        Some("item/commandExecution/requestApproval"),
        Some(JsonRpcId::Number(1)),
        Some(&json(
            r#"{"availableDecisions": [
                "accept",
                {"acceptWithExecpolicyAmendment": {"execpolicy_amendment": ["/bin/zsh"]}},
                "cancel"
            ]}"#,
        )),
    )
    .unwrap();

    assert_eq!(
        pending.available_decisions,
        vec![
            CodexApprovalDecision::Accept,
            CodexApprovalDecision::AcceptForPrefix,
            CodexApprovalDecision::Cancel,
        ]
    );
    assert_eq!(
        pending
            .approval_result(CodexApprovalDecision::AcceptForPrefix)
            .compact(),
        r#"{"decision":{"acceptWithExecpolicyAmendment":{"execpolicy_amendment":["/bin/zsh"]}}}"#
    );
}

#[test]
fn wire_names_of_decisions_read_back() {
    for decision in [
        CodexApprovalDecision::Accept,
        CodexApprovalDecision::AcceptForSession,
        CodexApprovalDecision::AcceptForPrefix,
        CodexApprovalDecision::Decline,
        CodexApprovalDecision::Cancel,
    ] {
        assert_eq!(
            CodexApprovalDecision::from_wire(decision.wire_value()),
            Some(decision)
        );
    }
    assert_eq!(CodexApprovalDecision::from_wire("maybe"), None);
}

#[test]
fn capture_is_off_unless_asked_for() {
    assert_eq!(codex_approval_capture_path(None), None);
    for word in ["", "  ", "0", "false", "FALSE", "off", "OFF"] {
        assert_eq!(codex_approval_capture_path(Some(word)), None);
    }
    for word in ["1", "true", "TRUE", " on ", "ON"] {
        assert_eq!(
            codex_approval_capture_path(Some(word)).as_deref(),
            Some("/tmp/slipstream-codex-approval-requests.jsonl")
        );
    }
    assert_eq!(
        codex_approval_capture_path(Some(" /var/log/codex.jsonl ")).as_deref(),
        Some("/var/log/codex.jsonl")
    );
}

#[test]
fn captured_messages_are_documents_or_texts() {
    assert_eq!(
        approval_capture_record(r#"{"id": 1}"#, "2026-01-01T00:00:00Z"),
        r#"{"captured_at":"2026-01-01T00:00:00Z","message":{"id":1}}"#
    );
    assert_eq!(
        approval_capture_record("not json", "now"),
        r#"{"captured_at":"now","message":"not json"}"#
    );
}

#[test]
fn messages_to_the_server() {
    assert_eq!(
        request_message(3, "thread/read", json(r#"{"threadId": "t"}"#)),
        r#"{"id":3,"method":"thread/read","params":{"threadId":"t"}}"#
    );
    assert_eq!(
        notification_message("initialized", json("{}")),
        r#"{"method":"initialized","params":{}}"#
    );
    assert_eq!(
        reply_message(&JsonRpcId::Text("r1".to_string()), json(r#"{"decision": "accept"}"#)),
        r#"{"id":"r1","result":{"decision":"accept"}}"#
    );
    assert_eq!(
        closed_before_reply("thread/list"),
        "Codex app-server closed the connection before responding to thread/list"
    );
    assert_eq!(check_health_status(true, "200 OK"), Ok(()));
    assert_eq!(
        check_health_status(false, "503 Service Unavailable"),
        Err("health request failed with HTTP 503 Service Unavailable".to_string())
    );
}

#[test]
fn questions_are_answered_once() {
    let mut model = opened();
    let pending = parse_approval_request(
        Some("request_user_input"),
        Some(JsonRpcId::Number(8)),
        Some(&json(
            r#"{"questions": [{"id": "q", "question": "Go on?", "options": [{"label": "Yes"}]}]}"#,
        )),
    )
    .unwrap();
    model.apply_turn_progress(
        "t1",
        Ok(CodexTurnProgress {
            items: Vec::new(),
            pending: Some((12, pending)),
        }),
    );

    assert!(model.resolve_pending_user_input("other", "Yes").is_empty());
    assert!(model.pending_approval().is_some());
    let effects = model.resolve_pending_user_input("q", "Yes");
    assert!(effects
        .iter()
        .any(|effect| matches!(effect, CodexEffect::Respond { client: 12, .. })));
    assert!(model.pending_approval().is_none());
}

#[test]
fn opened_thread_is_read() {
    let mut model = CodexAppServerModel::new(PathStyle::Posix);
    let effects = model.open_thread("t9", &settings(true));
    assert!(matches!(
        effects.as_slice(),
        [CodexEffect::ReadThread {
            purpose: ReadPurpose::Open,
            ..
        }]
    ));
    assert!(model.open_thread("t9", &settings(false)).is_empty());
}

#[test]
fn messages_state_their_members_once() {
    let done = |text: &str| match wait_for_response_step(text, 1, "initialize") {
        ReplyStep::Done(Ok(result)) => Some(result.compact()),
        _ => None,
    };
    assert_eq!(done(r#"{"id":1,"id":1,"result":2}"#), None);
    assert_eq!(
        done(r#"{"id":1,"x":1,"x":2,"result":{"a":1,"a":2}}"#),
        Some(r#"{"a":2}"#.to_string()),
    );
    assert_eq!(done("[1,null,null,3,null]"), Some("3".to_string()));
    assert_eq!(done("[1,null,null,3]"), None);
}

#[test]
fn unreadable_messages_name_their_fault() {
    let fault = |text: &str| match wait_for_response_step(text, 1, "initialize") {
        ReplyStep::Done(Err(error)) => error
            .strip_prefix(&format!("invalid JSON-RPC message: {text}: "))
            .unwrap()
            .to_string(),
        _ => panic!("expected an error"),
    };
    assert_eq!(fault("{"), "EOF while parsing an object at line 1 column 1");
    assert_eq!(
        fault(r#"{"id":1,"id":1,"result":2}"#),
        "duplicate field `id`"
    );
    assert_eq!(
        fault(r#"{"id":-1}"#),
        "data did not match any variant of untagged enum JsonRpcId in field `id`"
    );
    assert_eq!(
        fault(r#"{"id":1,"method":true}"#),
        "invalid type: boolean, expected a string in field `method`"
    );
    assert_eq!(
        fault(r#"{"id":1,"error":{"code":1}}"#),
        "missing field `message`"
    );
    assert_eq!(
        fault(r#"{"error":{"message":"no","code":1.5}}"#),
        "invalid type: floating point, expected i64 in field `code`"
    );
    assert_eq!(
        fault(r#"{"error":"no"}"#),
        "invalid type: string, expected struct JsonRpcError"
    );
    assert_eq!(
        fault("[1,null,null,3]"),
        "invalid length 4, expected struct JsonRpcIncoming with 5 elements"
    );
    assert_eq!(
        fault("null"),
        "invalid type: null, expected struct JsonRpcIncoming"
    );
}

#[test]
fn seconds_reach_as_far_as_the_calendar() {
    let seconds = |text: &str| parse_codex_timestamp(text).map(|time| time.seconds);
    assert_eq!(seconds("8210266876799"), Some(8_210_266_876_799));
    assert_eq!(seconds("8210266876800"), None);
    assert_eq!(seconds("-8334601228800"), Some(-8_334_601_228_800));
    assert_eq!(seconds("-8334601228801"), None);
}
