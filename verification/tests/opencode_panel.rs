//! The panel of OpenCode conversations.
use slipstream::conversation::{AIAgentExchangeId, AIConversationId, EntityId};
use slipstream::json::JsonValue;
use slipstream::opencode_server::address::{
    message_path, normalize_opencode_server_url, opencode_start_command, permission_reply_path,
    question_reject_path, question_reply_path, session_list_url, session_path,
    OpenCodeAddressError, OpenCodeServerConfig,
};
use slipstream::opencode_server::catalog::{
    directory_for_new_session, sort_sessions, OpenCodeSessionCatalog,
};
use slipstream::opencode_server::conversations::{
    row_trailing, start_hint, visible_sessions, OpenCodeConversationsAction,
    OpenCodeConversationsView, OpenCodePanelEffect,
};
use slipstream::opencode_server::effect::{
    new_session_body, permission_reply_body, prompt_body, question_reply_body, OpenCodeEffect,
    OpenCodeSelectedModel, OpenCodeServerSettings, OpenCodeTurnContext,
};
use slipstream::opencode_server::history::{
    opencode_session_updated_at_utc, timestamp_to_utc, turns_of_session,
};
use slipstream::opencode_server::machine::{
    OpenCodePendingRequests, OpenCodePromptResult, OpenCodeServerModel,
};
use slipstream::opencode_server::message::{
    messages_to_conversation_items, read_messages, read_statuses,
};
use slipstream::opencode_server::provider::{provider_list_to_models, ProviderListWire};
use slipstream::opencode_server::types::{
    OpenCodeConversationItem, OpenCodeModelInfo, OpenCodePendingPermission,
    OpenCodePendingQuestion, OpenCodePermissionReply, OpenCodeServerStatus, OpenCodeSessionDetail,
    OpenCodeSessionSummary,
};
use slipstream::opencode_server::wire::{
    check_health, read_answer, read_message, read_value, read_values, Decoded,
    OpenCodeMessageWire, OpenCodeProjectWire, OpenCodeSessionWire,
};
use slipstream::time::Timestamp;
use slipstream::path::PathStyle;

const NOW: Timestamp = Timestamp {
    seconds: 1_800_000_000,
    nanos: 0,
};

fn json(text: &str) -> JsonValue {
    JsonValue::parse(text).unwrap()
}

fn settings(enabled: bool) -> OpenCodeServerSettings {
    OpenCodeServerSettings {
        enabled,
        server_url: "http://127.0.0.1:4096".to_string(),
        username: String::new(),
        password: String::new(),
        imported_project_paths: Vec::new(),
    }
}

fn summary(id: &str, updated_at: i64) -> OpenCodeSessionSummary {
    OpenCodeSessionSummary {
        id: id.to_string(),
        title: format!("Title of {id}"),
        directory: Some("/tmp/project".to_string()),
        project_id: None,
        updated_at: Some(updated_at),
        status: Some("idle".to_string()),
    }
}

fn item(role: &str, text: &str) -> OpenCodeConversationItem {
    OpenCodeConversationItem {
        role: role.to_string(),
        text: text.to_string(),
    }
}

fn detail(id: &str, items: Vec<OpenCodeConversationItem>) -> OpenCodeSessionDetail {
    OpenCodeSessionDetail {
        summary: summary(id, 1_777_040_510),
        items,
    }
}

fn model_info(id: &str) -> OpenCodeModelInfo {
    OpenCodeModelInfo {
        id: id.to_string(),
        display_name: id.to_uppercase(),
        provider_id: "provider".to_string(),
        model_id: id.to_string(),
        is_default: false,
    }
}

fn context(conversation_id: AIConversationId) -> OpenCodeTurnContext {
    OpenCodeTurnContext {
        conversation_id,
        exchange_id: AIAgentExchangeId { value: 3 },
        terminal_view_id: EntityId { value: 4 },
    }
}

fn permission(id: &str, session_id: &str) -> OpenCodePendingPermission {
    OpenCodePendingPermission {
        id: id.to_string(),
        session_id: session_id.to_string(),
        permission: "bash".to_string(),
        patterns: Vec::new(),
        always: Vec::new(),
    }
}

fn question(id: &str, session_id: &str) -> OpenCodePendingQuestion {
    OpenCodePendingQuestion {
        id: id.to_string(),
        session_id: session_id.to_string(),
        questions: Vec::new(),
    }
}

const ID: AIConversationId = AIConversationId { value: 7 };

/// A panel with the session `s1` open.
fn opened() -> OpenCodeServerModel {
    let mut model = OpenCodeServerModel::new(PathStyle::Posix);
    model.finish_refresh(Ok((
        vec![summary("s1", 2), summary("s2", 1)],
        vec![model_info("m1")],
    )));
    model.open_session_as_conversation("s1", ID, &settings(true));
    model.finish_open_session_as_conversation(
        ID,
        Ok(detail("s1", vec![item("user", "hello")])),
        NOW,
    );
    model
}

fn pending_generation(effects: &[OpenCodeEffect]) -> Option<u64> {
    effects.iter().find_map(|effect| match effect {
        OpenCodeEffect::SchedulePendingPoll { generation, .. } => Some(*generation),
        OpenCodeEffect::ListPendingRequests { generation, .. } => Some(*generation),
        _ => None,
    })
}

fn session_generation(effects: &[OpenCodeEffect]) -> Option<u64> {
    effects.iter().find_map(|effect| match effect {
        OpenCodeEffect::ScheduleSessionPoll { generation, .. } => Some(*generation),
        _ => None,
    })
}

#[test]
fn opened_session_is_linked_to_its_conversation() {
    let model = opened();

    assert_eq!(model.conversation_id_for_session("s1"), Some(ID));
    assert_eq!(model.session_id_for_conversation(ID), Some("s1"));
    assert!(model.is_opencode_conversation(ID));
    assert_eq!(model.opening_session_id(), None);
    assert_eq!(model.active_session().unwrap().summary.id, "s1");
}

#[test]
fn opencode_panel_that_is_off_forgets_everything() {
    let mut model = opened();
    model.refresh(&settings(false));

    assert_eq!(model.status(), &OpenCodeServerStatus::Disabled);
    assert!(model.sessions().is_empty());
    assert!(model.active_session().is_none());
    assert!(!model.has_model_choices());
}

#[test]
fn sessions_are_polled_for_the_latest_opening() {
    let mut model = opened();
    model.open_session_as_conversation("s1", ID, &settings(true));
    let first = session_generation(&model.finish_open_session_as_conversation(
        ID,
        Ok(detail("s1", Vec::new())),
        NOW,
    ))
    .unwrap();
    model.open_session_as_conversation("s1", ID, &settings(true));
    let second = session_generation(&model.finish_open_session_as_conversation(
        ID,
        Ok(detail("s1", Vec::new())),
        NOW,
    ))
    .unwrap();

    assert!(!model.should_poll_active_session("s1", first));
    assert!(model.should_poll_active_session("s1", second));
    assert!(model
        .poll_active_session("s1", first, &settings(true))
        .is_empty());
}

#[test]
fn prompt_is_answered_and_requests_are_settled() {
    let mut model = opened();
    let (_, plan) = model.plan_conversation_prompt(ID, "do it", &settings(true));
    let effects = model.submit_conversation_prompt(plan.unwrap(), context(ID), &settings(true));
    assert!(effects
        .iter()
        .any(|effect| matches!(effect, OpenCodeEffect::PromptSession { .. })));
    let generation = pending_generation(&effects).unwrap();
    assert!(model.should_poll_pending_requests("s1", generation));

    model.finish_pending_poll(
        "s1",
        generation,
        Ok(OpenCodePendingRequests {
            permissions: vec![permission("p1", "s1"), permission("p2", "other")],
            questions: vec![question("q1", "s1")],
        }),
    );
    assert_eq!(model.pending_permission_for_conversation(ID).unwrap().id, "p1");
    assert_eq!(model.pending_question_for_conversation(ID).unwrap().id, "q1");

    let effects =
        model.resolve_pending_permission("p1", OpenCodePermissionReply::Always, &settings(true));
    assert!(effects.iter().any(|effect| matches!(
        effect,
        OpenCodeEffect::ReplyPermission {
            reply: OpenCodePermissionReply::Always,
            ..
        }
    )));
    assert!(model.pending_permission_for_conversation(ID).is_none());
    assert!(model
        .resolve_pending_permission("p1", OpenCodePermissionReply::Once, &settings(true))
        .is_empty());

    let effects = model.reject_pending_question("q1", &settings(true));
    assert!(effects
        .iter()
        .any(|effect| matches!(effect, OpenCodeEffect::RejectQuestion { .. })));
    assert!(model.pending_question_for_conversation(ID).is_none());
    assert!(model
        .resolve_pending_question("q1", Vec::new(), &settings(true))
        .is_empty());

    let effects = model.finish_conversation_prompt(
        "s1",
        context(ID),
        "do it",
        Ok(OpenCodePromptResult {
            output_items: vec![item("assistant", "done")],
            detail: None,
        }),
        NOW,
    );
    let text = effects
        .iter()
        .find_map(|effect| match effect {
            OpenCodeEffect::UpdateExchange {
                output_text,
                is_error: false,
                ..
            } => Some(output_text.as_str()),
            _ => None,
        })
        .unwrap();
    assert_eq!(text, "done");
    assert!(!model.should_poll_pending_requests("s1", generation));
}

#[test]
fn failed_prompt_is_an_error() {
    let mut model = opened();
    let (_, plan) = model.plan_conversation_prompt(ID, "do it", &settings(true));
    model.submit_conversation_prompt(plan.unwrap(), context(ID), &settings(true));
    let effects = model.finish_conversation_prompt(
        "s1",
        context(ID),
        "do it",
        Err("server gone".to_string()),
        NOW,
    );

    assert!(effects.iter().any(|effect| matches!(
        effect,
        OpenCodeEffect::UpdateExchange { is_error: true, .. }
    )));
}

#[test]
fn new_session_opens_as_a_conversation() {
    let mut model = OpenCodeServerModel::new(PathStyle::Posix);
    let effects = model.start_new_conversation(&settings(true));
    assert!(effects
        .iter()
        .any(|effect| matches!(effect, OpenCodeEffect::CreateSession { .. })));

    model.finish_start_new_conversation(Ok(detail("fresh", Vec::new())), ID, NOW);
    assert_eq!(model.conversation_id_for_session("fresh"), Some(ID));
    assert_eq!(model.sessions().len(), 1);
}

#[test]
fn selected_opencode_model_is_one_of_the_list() {
    let mut model = opened();
    model.set_selected_model_id(Some("m1".to_string()));
    assert_eq!(model.selected_model_id(), Some("m1"));
    assert_eq!(model.selected_model_display_name(), "M1");
    model.finish_refresh(Ok((Vec::new(), Vec::new())));
    assert_eq!(model.selected_model_id(), None);
}

#[test]
fn opencode_addresses_that_cannot_be_used_say_why() {
    assert!(matches!(
        normalize_opencode_server_url("http://"),
        Err(OpenCodeAddressError::InvalidUrl { .. })
    ));
    assert_eq!(
        normalize_opencode_server_url("ftp://localhost").unwrap_err(),
        OpenCodeAddressError::UnsupportedScheme
    );
    assert_eq!(
        OpenCodeServerConfig::from_values("http://example.com", "user", "").unwrap_err(),
        OpenCodeAddressError::MissingCredentials
    );
    let once = normalize_opencode_server_url("localhost").unwrap();
    let twice = normalize_opencode_server_url(once.as_str()).unwrap();
    assert_eq!(once, twice);
}

#[test]
fn requests_go_to_their_paths() {
    let config = OpenCodeServerConfig::from_values("http://127.0.0.1:4096", "", "").unwrap();
    assert_eq!(session_path("s1"), "/session/s1");
    assert_eq!(message_path("s1"), "/session/s1/message");
    assert_eq!(permission_reply_path("p1"), "/permission/p1/reply");
    assert_eq!(question_reply_path("q1"), "/question/q1/reply");
    assert_eq!(question_reject_path("q1"), "/question/q1/reject");
    assert_eq!(
        config.endpoint("/project").as_str(),
        "http://127.0.0.1:4096/project"
    );
    assert!(session_list_url(&config, "/tmp/a b")
        .as_str()
        .starts_with("http://127.0.0.1:4096/session?directory=%2Ftmp%2Fa+b"));
    assert!(opencode_start_command("http://127.0.0.1:4096").starts_with("opencode serve"));
}

#[test]
fn bodies_of_requests() {
    assert_eq!(
        new_session_body().compact(),
        r#"{"title":"New OpenCode conversation"}"#
    );
    assert_eq!(
        permission_reply_body(OpenCodePermissionReply::Reject).compact(),
        r#"{"reply":"reject"}"#
    );
    assert_eq!(
        question_reply_body(&vec![vec!["a".to_string()], Vec::new()]).compact(),
        r#"{"answers":[["a"],[]]}"#
    );
    let body = prompt_body(
        "hi",
        Some(OpenCodeSelectedModel {
            provider_id: "p".to_string(),
            model_id: "m".to_string(),
        }),
    )
    .to_serde();
    assert_eq!(
        body,
        serde_json::from_str::<serde_json::Value>(
            r#"{"parts": [{"type": "text", "text": "hi"}],
                "model": {"providerID": "p", "modelID": "m"}}"#
        )
        .unwrap()
    );
}

#[test]
fn health_is_told_from_the_answer() {
    assert_eq!(check_health(true, "200 OK", r#"{"healthy": true}"#), Ok(()));
    assert!(check_health(true, "200 OK", r#"{"healthy": false}"#).is_err());
    assert!(check_health(false, "500", "").unwrap_err().contains("500"));
    assert_eq!(
        check_health(true, "200 OK", r#"{"healthy": 1}"#).unwrap_err(),
        "Could not parse OpenCode health response: error decoding response body: \
         invalid type: integer, expected a boolean in field `healthy`"
    );
    assert_eq!(
        check_health(true, "200 OK", "").unwrap_err(),
        "Could not parse OpenCode health response: error decoding response body: \
         EOF while parsing a value at line 1 column 0"
    );
    assert_eq!(
        check_health(true, "200 OK", r#"{"healthy": false, "version": "2"}"#).unwrap_err(),
        "OpenCode server reported unhealthy (2)"
    );
}

#[test]
fn answers_are_read_or_refused() {
    assert_eq!(
        read_answer(true, "200 OK", "http://h/session", "[1]")
            .unwrap()
            .compact(),
        "[1]"
    );
    assert_eq!(
        read_answer(false, "404 Not Found", "http://h/session", "gone").unwrap_err(),
        "OpenCode server returned 404 Not Found: gone"
    );
    assert_eq!(
        read_answer(true, "200 OK", "http://h/session", "[").unwrap_err(),
        "Could not parse OpenCode response from http://h/session: error decoding response body: \
         EOF while parsing a list at line 1 column 1"
    );
}

#[test]
fn sessions_are_sorted_latest_first() {
    let ids = sort_sessions(vec![summary("old", 1), summary("new", 9), summary("mid", 5)])
        .into_iter()
        .map(|session| session.id)
        .collect::<Vec<_>>();
    assert_eq!(ids, vec!["new", "mid", "old"]);
}

#[test]
fn each_session_is_listed_once() {
    let wire = |text: &str| OpenCodeSessionWire::decode(&json(text)).unwrap();
    let mut catalog = OpenCodeSessionCatalog::new();
    catalog.add_directory(
        &vec![
            wire(r#"{"id": "a", "title": "A", "time": {"updated": 1}}"#),
            wire(r#"{"id": "child", "parentID": "a"}"#),
        ],
        "/tmp/project",
        &vec![("a".to_string(), "busy".to_string())],
    );
    catalog.add_directory(
        &vec![wire(r#"{"id": "a", "title": "A", "time": {"updated": 2}}"#)],
        "/tmp/other",
        &Vec::new(),
    );
    let sessions = catalog.into_sessions();
    assert_eq!(sessions.len(), 1);
    assert_eq!(sessions[0].id, "a");
}

#[test]
fn new_sessions_need_a_project() {
    let projects = vec![OpenCodeProjectWire {
        id: "p".to_string(),
        worktree: "/tmp/project".to_string(),
    }];
    assert_eq!(
        directory_for_new_session(
            PathStyle::Posix,
            &projects,
            &vec!["/tmp/project/app".to_string()],
            &Vec::new()
        ),
        Ok("/tmp/project".to_string())
    );
    assert!(directory_for_new_session(PathStyle::Posix, &Vec::new(), &Vec::new(), &Vec::new()).is_err());
}

#[test]
fn timestamps_may_be_seconds_or_milliseconds() {
    assert_eq!(
        timestamp_to_utc(1_777_040_510),
        Some(Timestamp {
            seconds: 1_777_040_510,
            nanos: 0
        })
    );
    assert_eq!(
        timestamp_to_utc(1_777_040_510_640),
        Some(Timestamp {
            seconds: 1_777_040_510,
            nanos: 640_000_000
        })
    );
    let mut session = summary("s", 0);
    session.updated_at = None;
    assert_eq!(opencode_session_updated_at_utc(&session), None);
}

#[test]
fn turns_keep_every_item() {
    let turns = turns_of_session(&vec![
        item("assistant", "welcome"),
        item("user", "one"),
        item("assistant", "1"),
        item("user", "two"),
    ]);
    let queries = turns
        .iter()
        .map(|turn| turn.query.as_deref())
        .collect::<Vec<_>>();
    assert_eq!(queries, vec![None, Some("one"), Some("two")]);
    assert_eq!(turns[1].items, vec![item("assistant", "1")]);
}

#[test]
fn shell_tools_show_command_and_output() {
    let messages = vec![OpenCodeMessageWire {
        role: "assistant".to_string(),
        error: None,
        finish: None,
        parts: vec![
            json(r#"{"type": "text", "text": "I will list the files."}"#),
            json(
                r#"{"type": "tool", "tool": "bash", "state": {
                    "status": "completed",
                    "input": {"command": "ls", "description": "Lists files"},
                    "output": "a.txt\nb.txt\n",
                    "title": "Lists files"
                }}"#,
            ),
            json(r#"{"type": "text", "text": "Files listed."}"#),
        ],
    }];
    let items = messages_to_conversation_items(&messages);
    assert_eq!(items.len(), 1);
    assert_eq!(
        items[0].text,
        "I will list the files.\n\ncommandExecution: ls\n\n\
         commandExecution/output: \"a.txt\\nb.txt\\n\"\n\nFiles listed."
    );
}

#[test]
fn providers_list_their_models() {
    let list = ProviderListWire::from_json(&json(
        r#"{"providers": [{"id": "local", "name": "Local", "models": {
                "b": {"id": "b", "name": "Model B"},
                "a": {"id": "a", "name": "Model A"}
            }}], "default": {"local": "b"}}"#,
    ))
    .unwrap();
    let models = provider_list_to_models(&list);
    assert_eq!(models.len(), 2);
    assert!(models
        .iter()
        .any(|model| model.model_id == "b" && model.is_default));
    assert!(models
        .iter()
        .any(|model| model.model_id == "a" && !model.is_default));
}

#[test]
fn session_menu_opens_and_closes() {
    let mut view = OpenCodeConversationsView::new();
    view.handle_action(OpenCodeConversationsAction::ToggleSessionMenu("s1".to_string()));
    assert!(view.is_menu_open("s1"));
    view.handle_action(OpenCodeConversationsAction::ToggleSessionMenu("s1".to_string()));
    assert!(!view.is_menu_open("s1"));

    let effects = view.handle_action(OpenCodeConversationsAction::OpenSession("s2".to_string()));
    assert!(effects.contains(&OpenCodePanelEffect::OpenSession {
        session_id: "s2".to_string()
    }));
    let effects = view.handle_action(OpenCodeConversationsAction::Refresh);
    assert_eq!(effects, vec![OpenCodePanelEffect::Refresh]);
}

#[test]
fn sessions_are_found_and_described() {
    let sessions = vec![summary("alpha", 1), summary("beta", 2)];
    assert_eq!(visible_sessions(&sessions, "ALPHA").len(), 1);
    assert!(visible_sessions(&sessions, "gamma").is_empty());
    assert_eq!(
        row_trailing(&sessions[0], Some("1h".to_string())).as_deref(),
        Some("idle")
    );
    let mut quiet = summary("quiet", 3);
    quiet.status = None;
    assert_eq!(
        row_trailing(&quiet, Some("1h".to_string())).as_deref(),
        Some("1h")
    );
    assert_eq!(
        start_hint(&OpenCodeServerStatus::Connected, "http://127.0.0.1:4096"),
        None
    );
}

fn members(text: &str) -> JsonValue {
    read_answer(true, "200 OK", "http://127.0.0.1", text).unwrap()
}

#[test]
fn answers_state_their_members_once() {
    let twice = members(r#"{"id": "s", "id": "s"}"#);
    assert!(OpenCodeSessionWire::decode(&twice).is_none());
    let unknown_twice = members(r#"{"id": "s", "x": 1, "x": 2}"#);
    assert_eq!(OpenCodeSessionWire::decode(&unknown_twice).unwrap().id, "s");
    let listed = members(r#"["s", "Title", null, "p", "/tmp", [7]]"#);
    let session = OpenCodeSessionWire::decode(&listed).unwrap();
    assert_eq!(session.title.as_deref(), Some("Title"));
    assert_eq!(session.updated_at, Some(7));
    assert!(OpenCodeSessionWire::decode(&members(r#"["s", "Title"]"#)).is_none());

    let message = OpenCodeMessageWire::from_json(&members(
        r#"{"info": {"role": "user"}, "parts": [{"type": "a", "type": "text"}]}"#,
    ))
    .unwrap();
    assert_eq!(message.parts[0].get_str("type"), Some("text"));

    assert!(check_health(true, "200 OK", r#"{"healthy": true, "healthy": true}"#).is_err());
    assert_eq!(check_health(true, "200 OK", "[true, null]"), Ok(()));
}

#[test]
fn the_last_model_under_a_key_counts() {
    let list = ProviderListWire::from_json(&members(
        r#"[[["p", null, {"k": {"id": "old", "name": null}, "k": ["new", "New"]}]]]"#,
    ))
    .unwrap();
    let models = provider_list_to_models(&list);
    assert_eq!(models.len(), 1);
    assert_eq!(models[0].model_id, "new");
    let broken = members(r#"{"providers": [{"id": "p", "models": {"k": 1, "k": ["a", "b"]}}]}"#);
    assert!(ProviderListWire::from_json(&broken).is_none());
    assert!(ProviderListWire::from_json(&members(r#"{"all": [], "providers": []}"#)).is_none());
}

#[test]
fn milliseconds_reach_as_far_as_the_calendar() {
    let time = |milliseconds: i64| {
        timestamp_to_utc(milliseconds).map(|time| (time.seconds, time.nanos))
    };
    assert_eq!(
        time(8_210_266_876_799_999),
        Some((8_210_266_876_799, 999_000_000))
    );
    assert_eq!(time(8_210_266_876_800_000), None);
    assert_eq!(
        time(-8_334_601_228_800_000),
        Some((-8_334_601_228_800, 0))
    );
    assert_eq!(time(-8_334_601_228_800_001), None);
}

/// What is wrong with an answer, behind what is said first.
fn fault_in<T>(result: Result<T, String>) -> String {
    result
        .err()
        .unwrap()
        .strip_prefix("Could not parse OpenCode response from http://h/x: error decoding response body: ")
        .unwrap()
        .to_string()
}

#[test]
fn unreadable_lists_name_their_fault() {
    let projects = |text: &str| {
        fault_in(read_values::<OpenCodeProjectWire>(&members(text), "http://h/x"))
    };
    assert_eq!(projects("{}"), "invalid type: map, expected a sequence");
    assert_eq!(
        projects(r#"[{"id": "p", "worktree": "/w"}, {"id": "q"}]"#),
        "missing field `worktree`"
    );
    assert_eq!(
        projects(r#"[{"id": "p", "worktree": 7}]"#),
        "invalid type: integer, expected path string in field `worktree`"
    );
    let found =
        read_values::<OpenCodeProjectWire>(&members(r#"[["p", "/w"]]"#), "http://h/x").unwrap();
    assert_eq!(found[0].worktree, "/w");

    let permissions = |text: &str| {
        fault_in(read_values::<OpenCodePendingPermission>(
            &members(text),
            "http://h/x",
        ))
    };
    assert_eq!(
        permissions(r#"[{"id": "a", "sessionID": "s", "permission": "p", "always": ["x", 1]}]"#),
        "invalid type: integer, expected a string in field `always`"
    );
    assert_eq!(
        permissions(r#"[["a", "s"]]"#),
        "invalid length 2, expected struct OpenCodePermissionRequestWire with 5 elements"
    );

    let questions = |text: &str| {
        fault_in(read_values::<OpenCodePendingQuestion>(
            &members(text),
            "http://h/x",
        ))
    };
    assert_eq!(
        questions(
            r#"[{"id": "a", "sessionID": "s", "questions": [{"options": [{"description": "d"}]}]}]"#
        ),
        "missing field `label`"
    );
    assert_eq!(
        questions(r#"[{"id": "a", "sessionID": "s", "questions": [{"custom": null}]}]"#),
        "invalid type: null, expected a boolean in field `custom`"
    );
}

#[test]
fn unreadable_sessions_name_their_fault() {
    let session =
        |text: &str| fault_in(read_value::<OpenCodeSessionWire>(&members(text), "http://h/x"));
    assert_eq!(
        session("7"),
        "invalid type: integer, expected struct OpenCodeSessionWire"
    );
    assert_eq!(
        session(r#"{"id": "s", "parentID": 1}"#),
        "invalid type: integer, expected a string in field `parentID`"
    );
    assert_eq!(
        session(r#"{"id": "s", "directory": []}"#),
        "invalid type: sequence, expected path string in field `directory`"
    );
    assert_eq!(
        session(r#"{"id": "s", "time": 1}"#),
        "invalid type: integer, expected struct OpenCodeSessionTimeWire"
    );
    assert_eq!(
        read_value::<OpenCodeSessionWire>(&members(r#"{"id": "s"}"#), "http://h/x")
            .unwrap()
            .id,
        "s"
    );
    assert_eq!(
        fault_in(read_statuses(&members("[]"), "http://h/x")),
        "invalid type: sequence, expected a map"
    );
    assert_eq!(
        read_statuses(&members(r#"{"s": {"status": "busy"}}"#), "http://h/x"),
        Ok(vec![("s".to_string(), "busy".to_string())])
    );
}

#[test]
fn unreadable_session_messages_name_their_fault() {
    let message = |text: &str| fault_in(read_message(&members(text), "http://h/x"));
    assert_eq!(message("{}"), "missing field `info`");
    assert_eq!(message(r#"{"info": {}}"#), "missing field `role`");
    assert_eq!(
        message(r#"{"info": {"role": "user"}, "parts": "none"}"#),
        "invalid type: string, expected a sequence in field `parts`"
    );
    assert_eq!(
        fault_in(read_messages(
            &members(r#"[{"info": {"role": "user"}}, {"info": 1}]"#),
            "http://h/x"
        )),
        "invalid type: integer, expected struct OpenCodeMessageInfoWire"
    );
    assert_eq!(
        read_messages(&members(r#"[{"info": {"role": "user"}}]"#), "http://h/x")
            .unwrap()
            .len(),
        1
    );
}
