//! What holds of what is asked of a Codex server, where it is asked, and what is made of its
//! answers.
use crate::codex_app_server::address::{
    AddressErrorView, address_text, config_of, health_address, is_loopback,
    law_address_has_health_check, normalized_address, socket_url, start_command,
};
use crate::codex_app_server::approval::IdView;
use crate::codex_app_server::capture::{capture_path, captured_record};
use crate::codex_app_server::catalog::{
    is_news, law_pages_list_each_thread_once, missing_thread, model_list_of, next_page,
    thread_list_of, thread_position, thread_precedes, thread_read_of, upserted, with_cwd,
    with_models, with_page,
};
use crate::codex_app_server::prompt::{
    CodexPromptCollaborationMode, PromptView, after_command, collaboration_mode_of, initialize_of,
    prompt_of, thread_archive_of, thread_resume_of, thread_start_of, turn_input_of, turn_start_of,
};
use crate::codex_app_server::request::approval_of;
use crate::codex_app_server::rpc::{notification_document, reply_document, request_document};
use crate::codex_app_server::turn::{
    IncomingView, ReplyView, TurnStepView, incoming_text, reply_step, turn_step,
};
use crate::codex_app_server::types::{ModelView, SummaryView};
use crate::codex_app_server::wire::{items_of, notification_item};
use crate::json::{JsonView, json_parse, lookup, whole_number};
use crate::opencode_server::pending::Pending;
use crate::ordered::{is_keyed, law_insert_keyed};
use crate::path::PathStyle;
use crate::server_url::{UrlView, is_network_scheme};
use crate::text::{
    contains_text, decimal, is_blank, is_space, lemma_trim_empty, lemma_trim_idempotent, lower,
    signed_decimal, text_lt, trim,
};
use vstd::prelude::*;

verus! {

proof fn lemma_member(entries: Seq<(Seq<char>, JsonView)>, i: int, key: Seq<char>)
    requires
        0 <= i < entries.len(),
        entries[i].0 == key,
        forall|j: int| 0 <= j < i ==> (#[trigger] entries[j]).0 != key,
    ensures
        lookup(entries, key) == Some(entries[i].1),
    decreases entries.len(),
{
    if i > 0 {
        assert(entries[0].0 != key);
        let rest = entries.skip(1);
        assert forall|j: int| 0 <= j < i - 1 implies (#[trigger] rest[j]).0 != key by {
            assert(rest[j] == entries[j + 1]);
        }
        lemma_member(rest, i - 1, key);
    }
}

proof fn lemma_no_member(entries: Seq<(Seq<char>, JsonView)>, key: Seq<char>)
    requires
        forall|j: int| 0 <= j < entries.len() ==> (#[trigger] entries[j]).0 != key,
    ensures
        lookup(entries, key) is None,
    decreases entries.len(),
{
    if entries.len() > 0 {
        assert(entries[0].0 != key);
        let rest = entries.skip(1);
        assert forall|j: int| 0 <= j < rest.len() implies (#[trigger] rest[j]).0 != key by {
            assert(rest[j] == entries[j + 1]);
        }
        lemma_no_member(rest, key);
    }
}

proof fn lemma_thread_names()
    ensures
        "threadId"@ != "approvalPolicy"@,
        "threadId"@ != "approvalsReviewer"@,
        "threadId"@ != "model"@,
        "threadId"@ != "cwd"@,
        "threadId"@ != "collaborationMode"@,
        "threadId"@ != "input"@,
        "approvalPolicy"@ != "approvalsReviewer"@,
        "approvalPolicy"@ != "model"@,
        "approvalPolicy"@ != "cwd"@,
        "approvalPolicy"@ != "collaborationMode"@,
        "approvalPolicy"@ != "input"@,
        "approvalsReviewer"@ != "model"@,
        "approvalsReviewer"@ != "cwd"@,
        "approvalsReviewer"@ != "collaborationMode"@,
        "approvalsReviewer"@ != "input"@,
        "model"@ != "cwd"@,
        "model"@ != "collaborationMode"@,
        "model"@ != "input"@,
        "cwd"@ != "collaborationMode"@,
        "cwd"@ != "input"@,
        "collaborationMode"@ != "input"@,
{
    reveal_strlit("threadId");
    reveal_strlit("approvalPolicy");
    reveal_strlit("approvalsReviewer");
    reveal_strlit("model");
    reveal_strlit("cwd");
    reveal_strlit("collaborationMode");
    reveal_strlit("input");
    assert("threadId"@.len() == 8);
    assert("approvalPolicy"@.len() == 14);
    assert("approvalsReviewer"@.len() == 17);
    assert("model"@.len() == 5);
    assert("cwd"@.len() == 3);
    assert("collaborationMode"@.len() == 17);
    assert("input"@.len() == 5);
    assert("approvalsReviewer"@[0] == 'a');
    assert("collaborationMode"@[0] == 'c');
    assert("model"@[0] == 'm');
    assert("input"@[0] == 'i');
}

proof fn lemma_list_names()
    ensures
        "cursor"@ != "limit"@,
        "cursor"@ != "cwd"@,
        "cursor"@ != "sortKey"@,
        "cursor"@ != "archived"@,
        "cursor"@ != "sourceKinds"@,
        "limit"@ != "cwd"@,
        "limit"@ != "sortKey"@,
        "limit"@ != "archived"@,
        "limit"@ != "sourceKinds"@,
        "cwd"@ != "sortKey"@,
        "cwd"@ != "archived"@,
        "cwd"@ != "sourceKinds"@,
        "sortKey"@ != "archived"@,
        "sortKey"@ != "sourceKinds"@,
        "archived"@ != "sourceKinds"@,
{
    reveal_strlit("cursor");
    reveal_strlit("limit");
    reveal_strlit("cwd");
    reveal_strlit("sortKey");
    reveal_strlit("archived");
    reveal_strlit("sourceKinds");
    assert("cursor"@.len() == 6);
    assert("limit"@.len() == 5);
    assert("cwd"@.len() == 3);
    assert("sortKey"@.len() == 7);
    assert("archived"@.len() == 8);
    assert("sourceKinds"@.len() == 11);
}

proof fn lemma_message_names()
    ensures
        "id"@ != "method"@,
        "id"@ != "params"@,
        "id"@ != "result"@,
        "method"@ != "params"@,
        "method"@ != "result"@,
        "params"@ != "result"@,
{
    reveal_strlit("id");
    reveal_strlit("method");
    reveal_strlit("params");
    reveal_strlit("result");
    assert("id"@.len() == 2);
    assert("method"@.len() == 6);
    assert("params"@.len() == 6);
    assert("result"@.len() == 6);
    assert("method"@[0] == 'm');
    assert("params"@[0] == 'p');
    assert("result"@[0] == 'r');
}

proof fn lemma_small_names()
    ensures
        "type"@ != "text"@,
        "type"@ != "mode"@,
        "type"@ != "settings"@,
        "type"@ != "clientInfo"@,
        "type"@ != "capabilities"@,
        "type"@ != "name"@,
        "type"@ != "version"@,
        "type"@ != "threadId"@,
        "type"@ != "includeTurns"@,
        "type"@ != "captured_at"@,
        "type"@ != "message"@,
        "text"@ != "mode"@,
        "text"@ != "settings"@,
        "text"@ != "clientInfo"@,
        "text"@ != "capabilities"@,
        "text"@ != "name"@,
        "text"@ != "version"@,
        "text"@ != "threadId"@,
        "text"@ != "includeTurns"@,
        "text"@ != "captured_at"@,
        "text"@ != "message"@,
        "mode"@ != "settings"@,
        "mode"@ != "clientInfo"@,
        "mode"@ != "capabilities"@,
        "mode"@ != "name"@,
        "mode"@ != "version"@,
        "mode"@ != "threadId"@,
        "mode"@ != "includeTurns"@,
        "mode"@ != "captured_at"@,
        "mode"@ != "message"@,
        "settings"@ != "clientInfo"@,
        "settings"@ != "capabilities"@,
        "settings"@ != "name"@,
        "settings"@ != "version"@,
        "settings"@ != "threadId"@,
        "settings"@ != "includeTurns"@,
        "settings"@ != "captured_at"@,
        "settings"@ != "message"@,
        "clientInfo"@ != "capabilities"@,
        "clientInfo"@ != "name"@,
        "clientInfo"@ != "version"@,
        "clientInfo"@ != "threadId"@,
        "clientInfo"@ != "includeTurns"@,
        "clientInfo"@ != "captured_at"@,
        "clientInfo"@ != "message"@,
        "capabilities"@ != "name"@,
        "capabilities"@ != "version"@,
        "capabilities"@ != "threadId"@,
        "capabilities"@ != "includeTurns"@,
        "capabilities"@ != "captured_at"@,
        "capabilities"@ != "message"@,
        "name"@ != "version"@,
        "name"@ != "threadId"@,
        "name"@ != "includeTurns"@,
        "name"@ != "captured_at"@,
        "name"@ != "message"@,
        "version"@ != "threadId"@,
        "version"@ != "includeTurns"@,
        "version"@ != "captured_at"@,
        "version"@ != "message"@,
        "threadId"@ != "includeTurns"@,
        "threadId"@ != "captured_at"@,
        "threadId"@ != "message"@,
        "includeTurns"@ != "captured_at"@,
        "includeTurns"@ != "message"@,
        "captured_at"@ != "message"@,
{
    reveal_strlit("type");
    reveal_strlit("text");
    reveal_strlit("mode");
    reveal_strlit("settings");
    reveal_strlit("clientInfo");
    reveal_strlit("capabilities");
    reveal_strlit("name");
    reveal_strlit("version");
    reveal_strlit("threadId");
    reveal_strlit("includeTurns");
    reveal_strlit("captured_at");
    reveal_strlit("message");
    assert("type"@.len() == 4);
    assert("text"@.len() == 4);
    assert("mode"@.len() == 4);
    assert("settings"@.len() == 8);
    assert("clientInfo"@.len() == 10);
    assert("capabilities"@.len() == 12);
    assert("name"@.len() == 4);
    assert("version"@.len() == 7);
    assert("threadId"@.len() == 8);
    assert("includeTurns"@.len() == 12);
    assert("captured_at"@.len() == 11);
    assert("message"@.len() == 7);
    assert("type"@[1] == 'y');
    assert("text"@[1] == 'e');
    assert("type"@[0] == 't');
    assert("mode"@[0] == 'm');
    assert("name"@[0] == 'n');
    assert("text"@[0] == 't');
    assert("settings"@[0] == 's');
    assert("threadId"@[0] == 't');
    assert("capabilities"@[0] == 'c');
    assert("includeTurns"@[0] == 'i');
    assert("version"@[0] == 'v');
    assert("message"@[0] == 'm');
}

proof fn lemma_schemes()
    ensures
        "http"@ != "https"@,
        "http"@ != "ws"@,
        "http"@ != "wss"@,
        "https"@ != "ws"@,
        "https"@ != "wss"@,
        "ws"@ != "wss"@,
{
    reveal_strlit("http");
    reveal_strlit("https");
    reveal_strlit("ws");
    reveal_strlit("wss");
    assert("http"@.len() == 4);
    assert("https"@.len() == 5);
    assert("ws"@.len() == 2);
    assert("wss"@.len() == 3);
}

/// A thread is started with the model and in the directory that are given, where they are given,
/// and asks the user for approval.
pub proof fn law_thread_is_started(model_id: Option<Seq<char>>, cwd: Option<Seq<char>>)
    ensures
        thread_start_of(model_id, cwd).get_text("model"@) == model_id,
        thread_start_of(model_id, cwd).get_text("cwd"@) == cwd,
        thread_start_of(model_id, cwd).get_text("approvalPolicy"@) == Some("on-request"@),
        thread_start_of(model_id, cwd).get_text("approvalsReviewer"@) == Some("user"@),
{
    lemma_thread_names();
    let entries = thread_start_of(model_id, cwd)->Object_0;
    assert(entries[0].0 == "approvalPolicy"@);
    assert(entries[1].0 == "approvalsReviewer"@);
    lemma_member(entries, 0, "approvalPolicy"@);
    lemma_member(entries, 1, "approvalsReviewer"@);
    let n: int = if model_id is Some {
        1
    } else {
        0
    };
    if model_id is Some {
        assert(entries[2].0 == "model"@);
        lemma_member(entries, 2, "model"@);
    } else {
        lemma_no_member(entries, "model"@);
    }
    if cwd is Some {
        assert(entries[2 + n].0 == "cwd"@);
        lemma_member(entries, 2 + n, "cwd"@);
    } else {
        lemma_no_member(entries, "cwd"@);
    }
}

/// A thread is taken up and put away by its identifier.
pub proof fn law_thread_is_named(thread_id: Seq<char>, model_id: Option<Seq<char>>)
    ensures
        thread_resume_of(thread_id, model_id).get_text("threadId"@) == Some(thread_id),
        thread_resume_of(thread_id, model_id).get_text("model"@) == model_id,
        thread_resume_of(thread_id, model_id).get_text("approvalPolicy"@) == Some("on-request"@),
        thread_resume_of(thread_id, model_id).get_text("approvalsReviewer"@) == Some("user"@),
        thread_archive_of(thread_id).get_text("threadId"@) == Some(thread_id),
        thread_read_of(thread_id).get_text("threadId"@) == Some(thread_id),
        thread_read_of(thread_id).get("includeTurns"@) == Some(JsonView::Bool(true)),
{
    lemma_thread_names();
    lemma_small_names();
    let entries = thread_resume_of(thread_id, model_id)->Object_0;
    assert(entries[0].0 == "threadId"@);
    assert(entries[1].0 == "approvalPolicy"@);
    assert(entries[2].0 == "approvalsReviewer"@);
    lemma_member(entries, 0, "threadId"@);
    lemma_member(entries, 1, "approvalPolicy"@);
    lemma_member(entries, 2, "approvalsReviewer"@);
    if model_id is Some {
        assert(entries[3].0 == "model"@);
        lemma_member(entries, 3, "model"@);
    } else {
        lemma_no_member(entries, "model"@);
    }
    lemma_member(thread_archive_of(thread_id)->Object_0, 0, "threadId"@);
    let read = thread_read_of(thread_id)->Object_0;
    assert(read[0].0 == "threadId"@);
    assert(read[1].0 == "includeTurns"@);
    lemma_member(read, 0, "threadId"@);
    lemma_member(read, 1, "includeTurns"@);
}

/// A turn takes the prompt as it is to the thread, with the model that is given. It plans exactly
/// where it is asked to and some model is known, with that model.
pub proof fn law_turn_is_started(
    thread_id: Seq<char>,
    prompt: Seq<char>,
    model_id: Option<Seq<char>>,
    mode: Option<CodexPromptCollaborationMode>,
    mode_model_id: Option<Seq<char>>,
)
    ensures
        ({
            let turn = turn_start_of(thread_id, prompt, model_id, mode, mode_model_id);
            &&& turn.get_text("threadId"@) == Some(thread_id)
            &&& turn.get_text("model"@) == model_id
            &&& turn.get_text("approvalPolicy"@) == Some("on-request"@)
            &&& turn.get("input"@) matches Some(JsonView::Array(input)) && input.len() == 1
                && input[0].get_text("text"@) == Some(prompt) && input[0].get_text("type"@) == Some(
                "text"@,
            )
            &&& turn.get("collaborationMode"@) is Some <==> mode is Some && (mode_model_id is Some
                || model_id is Some)
            &&& (turn.get("collaborationMode"@) matches Some(plan) ==> plan.get_text("mode"@)
                == Some("plan"@) && (plan.get("settings"@) matches Some(settings)
                && settings.get_text("model"@) == (if mode_model_id is Some {
                mode_model_id
            } else {
                model_id
            })))
        }),
{
    lemma_thread_names();
    lemma_small_names();
    let turn = turn_start_of(thread_id, prompt, model_id, mode, mode_model_id);
    let entries = turn->Object_0;
    let plans = mode is Some && (mode_model_id is Some || model_id is Some);
    let n: int = if model_id is Some {
        1
    } else {
        0
    };
    let k: int = if plans {
        1
    } else {
        0
    };
    assert(entries[0].0 == "threadId"@);
    assert(entries[1].0 == "approvalPolicy"@);
    assert(entries[2].0 == "approvalsReviewer"@);
    lemma_member(entries, 0, "threadId"@);
    lemma_member(entries, 1, "approvalPolicy"@);
    assert(entries.len() == 4 + n + k);
    if model_id is Some {
        assert(entries[3].0 == "model"@);
        lemma_member(entries, 3, "model"@);
    }
    if plans {
        assert(entries[3 + n].0 == "collaborationMode"@);
        lemma_member(entries, 3 + n, "collaborationMode"@);
        let model = if mode_model_id is Some {
            mode_model_id->0
        } else {
            model_id->0
        };
        assert(entries[3 + n].1 == collaboration_mode_of(model));
        let plan = collaboration_mode_of(model)->Object_0;
        assert(plan[0].0 == "mode"@);
        assert(plan[1].0 == "settings"@);
        lemma_member(plan, 0, "mode"@);
        lemma_member(plan, 1, "settings"@);
        let settings = plan[1].1->Object_0;
        assert(settings[0].0 == "model"@);
        lemma_member(settings, 0, "model"@);
    }
    assert(entries[3 + n + k].0 == "input"@);
    lemma_member(entries, 3 + n + k, "input"@);
    if model_id is None {
        lemma_no_member(entries, "model"@);
    }
    if !plans {
        lemma_no_member(entries, "collaborationMode"@);
    }
    let part = turn_input_of(prompt)->Array_0[0]->Object_0;
    assert(part[0].0 == "type"@);
    assert(part[1].0 == "text"@);
    lemma_member(part, 0, "type"@);
    lemma_member(part, 1, "text"@);
}

/// The client tells its name and its version.
pub proof fn law_client_is_introduced(version: Seq<char>)
    ensures
        initialize_of(version).get("clientInfo"@) matches Some(client) && client.get_text("name"@)
            == Some("Slipstream"@) && client.get_text("version"@) == Some(version),
{
    lemma_small_names();
    let entries = initialize_of(version)->Object_0;
    assert(entries[0].0 == "clientInfo"@);
    lemma_member(entries, 0, "clientInfo"@);
    let client = entries[0].1->Object_0;
    assert(client[0].0 == "name"@);
    assert(client[1].0 == "version"@);
    lemma_member(client, 0, "name"@);
    lemma_member(client, 1, "version"@);
}

/// Threads are asked for page by page, those of one directory, without those put away, newest
/// first; models are asked for page by page.
pub proof fn law_pages_are_asked_for(cursor: JsonView, root: Seq<char>)
    ensures
        thread_list_of(cursor, root).get("cursor"@) == Some(cursor),
        thread_list_of(cursor, root).get_text("cwd"@) == Some(root),
        thread_list_of(cursor, root).get_text("sortKey"@) == Some("updated_at"@),
        thread_list_of(cursor, root).get("archived"@) == Some(JsonView::Bool(false)),
        model_list_of(cursor).get("cursor"@) == Some(cursor),
{
    lemma_list_names();
    let entries = thread_list_of(cursor, root)->Object_0;
    assert(entries[0].0 == "cursor"@);
    assert(entries[1].0 == "limit"@);
    assert(entries[2].0 == "cwd"@);
    assert(entries[3].0 == "sortKey"@);
    assert(entries[4].0 == "archived"@);
    lemma_member(entries, 0, "cursor"@);
    lemma_member(entries, 2, "cwd"@);
    lemma_member(entries, 3, "sortKey"@);
    lemma_member(entries, 4, "archived"@);
    lemma_member(model_list_of(cursor)->Object_0, 0, "cursor"@);
}

/// A further page is asked for exactly where the answer names one.
pub proof fn law_further_page(result: JsonView, cursor: JsonView)
    ensures
        result.get("nextCursor"@) is None ==> next_page(result) is None,
        result.get("nextCursor"@) == Some(JsonView::Null) ==> next_page(result) is None,
        result.get("nextCursor"@) == Some(cursor) && !(cursor is Null) ==> next_page(result)
            == Some(cursor),
{
}

/// A request has an identifier, a method and parameters, a notice none of the first, and an answer
/// the identifier of its request.
pub proof fn law_request_is_answered(id: u64, method: Seq<char>, params: JsonView, reply: IdView)
    ensures
        request_document(id, method, params).get("id"@) == Some(JsonView::Number(whole_number(id))),
        request_document(id, method, params).get_text("method"@) == Some(method),
        request_document(id, method, params).get("params"@) == Some(params),
        notification_document(method, params).get("id"@) is None,
        notification_document(method, params).get_text("method"@) == Some(method),
        notification_document(method, params).get("params"@) == Some(params),
        reply matches IdView::Text(text) ==> reply_document(reply, params).get("id"@) == Some(
            JsonView::Text(text),
        ),
        reply matches IdView::Number(n) ==> reply_document(reply, params).get("id"@) == Some(
            JsonView::Number(whole_number(n)),
        ),
        reply_document(reply, params).get("result"@) == Some(params),
        reply_document(reply, params).get("method"@) is None,
{
    lemma_message_names();
    let request = request_document(id, method, params)->Object_0;
    assert(request[0].0 == "id"@);
    assert(request[1].0 == "method"@);
    assert(request[2].0 == "params"@);
    lemma_member(request, 0, "id"@);
    lemma_member(request, 1, "method"@);
    lemma_member(request, 2, "params"@);
    let notice = notification_document(method, params)->Object_0;
    assert(notice[0].0 == "method"@);
    assert(notice[1].0 == "params"@);
    lemma_member(notice, 0, "method"@);
    lemma_member(notice, 1, "params"@);
    lemma_no_member(notice, "id"@);
    let answer = reply_document(reply, params)->Object_0;
    assert(answer[0].0 == "id"@);
    assert(answer[1].0 == "result"@);
    lemma_member(answer, 0, "id"@);
    lemma_member(answer, 1, "result"@);
    lemma_no_member(answer, "method"@);
}

/// The answer to a request is waited for until a message bears its identifier. An error in it is
/// told with the request's name, else its result is taken, and nothing where it has none.
pub proof fn law_answer_to_a_request(
    text: Seq<char>,
    id: u64,
    method: Seq<char>,
    message: IncomingView,
)
    requires
        incoming_text(text) == Ok::<IncomingView, Seq<char>>(message),
    ensures
        reply_step(text, id, method) is Wait <==> message.id != Some(IdView::Number(id)),
        message.id == Some(IdView::Number(id)) ==> {
            &&& message.error is None ==> (message.result matches Some(result) ==> reply_step(
                text,
                id,
                method,
            ) == ReplyView::Done(Ok(result)))
            &&& message.error is None && message.result is None ==> reply_step(text, id, method)
                == ReplyView::Done(Ok(JsonView::Null))
            &&& message.error matches Some((code, reason)) ==> reply_step(text, id, method)
                == ReplyView::Done(
                Err(
                    "Codex app-server "@ + method + " failed ("@ + signed_decimal(code as int)
                        + "): "@ + reason,
                ),
            )
        },
{
}

/// A message that cannot be read ends the wait for an answer, and is told; it does not end a turn.
pub proof fn law_unreadable_message(text: Seq<char>, id: u64, method: Seq<char>, error: Seq<char>)
    requires
        incoming_text(text) == Err::<IncomingView, Seq<char>>(error),
    ensures
        reply_step(text, id, method) == ReplyView::Done(
            Err("invalid JSON-RPC message: "@ + text + ": "@ + error),
        ),
        turn_step(text).0.len() == 0,
        turn_step(text).1 is Continue,
{
}

/// What a message does to a turn: a request for approval halts it, the notice that it is complete
/// ends it, and any other lets it go on.
pub proof fn law_turn_goes_on(text: Seq<char>, message: IncomingView)
    requires
        incoming_text(text) == Ok::<IncomingView, Seq<char>>(message),
    ensures
        approval_of(
            message.method,
            message.id,
            message.params,
        ) matches Some(approval) ==> turn_step(
            text,
        ).1 == TurnStepView::Pending(approval),
        turn_step(text).1 is Pending <==> approval_of(message.method, message.id, message.params)
            is Some,
        approval_of(message.method, message.id, message.params) is None && (message.method == Some(
            "turn/completed"@,
        ) || message.method == Some("turn/finished"@)) ==> turn_step(text).1 is Finished
            && turn_step(text).0 == (match message.params {
            Some(params) => items_of(params),
            None => Seq::empty(),
        }),
        approval_of(message.method, message.id, message.params) is None && message.method != Some(
            "turn/completed"@,
        ) && message.method != Some("turn/finished"@) && message.params is None ==> turn_step(
            text,
        ).1 is Continue && turn_step(text).0.len() == 0,
        approval_of(message.method, message.id, message.params) is None && message.method != Some(
            "turn/completed"@,
        ) && message.method != Some("turn/finished"@) ==> (message.params matches Some(params)
            ==> (notification_item(message.method, params) matches Some(item) ==> turn_step(text).0
            == seq![item] && (turn_step(text).1 is Finished <==> item.role == "status"@
            && contains_text(lower(item.text), "turn complete"@)))),
{
}

/// An address without a scheme is one of a socket; where none is given, the one of this machine is
/// taken.
pub proof fn law_address_of_a_server(input: Seq<char>)
    ensures
        is_blank(input) ==> address_text(input) == "ws://127.0.0.1:4500"@,
        !is_blank(input) && contains_text(trim(input), "://"@) ==> address_text(input) == trim(
            input,
        ),
        !is_blank(input) && !contains_text(trim(input), "://"@) ==> address_text(input) == "ws://"@
            + trim(input),
{
    lemma_trim_empty(input);
}

/// The socket of a server is on the same host, in the same path, on the port that was given, else
/// on the usual one; it is a safe one exactly where the address was.
pub proof fn law_socket_of_a_server(url: UrlView)
    requires
        is_network_scheme(url.scheme),
    ensures
        socket_url(url).host == url.host,
        socket_url(url).path == url.path,
        socket_url(url).query == url.query,
        socket_url(url).scheme == "wss"@ <==> url.scheme == "https"@ || url.scheme == "wss"@,
        socket_url(url).scheme == "ws"@ <==> url.scheme == "http"@ || url.scheme == "ws"@,
        url.port is None ==> socket_url(url).port == Some(4500u16),
        url.port matches Some(port) ==> (port != 80 && port != 443 ==> socket_url(url).port == Some(
            port,
        )),
{
    lemma_schemes();
}

/// The health of a server is asked on its own host and port, safely exactly where its socket is
/// safe.
pub proof fn law_health_of_a_server(url: UrlView)
    ensures
        health_address(url) is Ok <==> url.scheme == "ws"@ || url.scheme == "wss"@,
        health_address(url) matches Ok(health) ==> {
            &&& health.host == url.host
            &&& health.path == "/healthz"@
            &&& health.query is None
            &&& health.fragment is None
            &&& (health.scheme == "https"@ <==> url.scheme == "wss"@)
            &&& (health.scheme == "http"@ <==> url.scheme == "ws"@)
            &&& (url.port matches Some(port) ==> (port != 80 && port != 443 ==> health.port == Some(
                port,
            )))
        },
        health_address(url) matches Err(error) ==> error
            == (AddressErrorView::UnsupportedHealthScheme { scheme: url.scheme }),
{
    lemma_schemes();
}

/// A server on this machine needs no token; one elsewhere is refused exactly where none is given.
pub proof fn law_token_of_a_server(server_url: Seq<char>, bearer_token: Seq<char>, url: UrlView)
    requires
        normalized_address(server_url) == Ok::<UrlView, AddressErrorView>(url),
    ensures
        config_of(server_url, bearer_token) is Ok <==> is_loopback(url) || !is_blank(bearer_token),
        config_of(server_url, bearer_token) matches Ok(config) ==> config.server_url == url
            && config.bearer_token == (if is_blank(bearer_token) {
            None
        } else {
            Some(trim(bearer_token))
        }),
        config_of(server_url, bearer_token) matches Err(error) ==> error
            is MissingBearerToken,
{
    lemma_trim_idempotent(bearer_token);
    lemma_trim_empty(bearer_token);
    lemma_trim_empty(trim(bearer_token));
}

/// The command that starts a server listens where its address says.
pub proof fn law_server_listens_at_its_address(input: Seq<char>, url: UrlView, host: Seq<char>)
    requires
        normalized_address(input) == Ok::<UrlView, AddressErrorView>(url),
        url.host == Some(host),
    ensures
        url.port matches Some(port) && start_command(input) == "codex app-server --listen "@ + host
            + ":"@ + decimal(port as nat),
{
    law_address_has_health_check(input);
}

/// A text is a plan where it begins with the command for one, which is then left out; the rest of
/// it, and any other text, is the prompt.
pub proof fn law_prompt_of_a_text(text: Seq<char>, command: Seq<char>)
    ensures
        prompt_of(text) is None <==> is_blank(text),
        after_command(trim(text), "/plan"@) is None && after_command(trim(text), "/codex-plan"@)
            is None && !is_blank(text) ==> prompt_of(text) == Some(
            PromptView { prompt: trim(text), collaboration_mode: None },
        ),
        after_command(text, command) matches Some(rest) ==> text == command + rest && (rest.len()
            == 0 || is_space(rest[0])),
        prompt_of(text) matches Some(request) ==> (request.collaboration_mode is Some <==> (
        after_command(trim(text), "/plan"@) is Some || after_command(trim(text), "/codex-plan"@)
            is Some)),
{
    lemma_trim_empty(text);
    if command.is_prefix_of(text) {
        assert(text =~= command + text.skip(command.len() as int));
    }
}

/// Requests are written to the file that is named, to the usual one where they are only switched
/// on, and to none where they are switched off or nothing is said.
pub proof fn law_requests_are_written(text: Seq<char>, value: Seq<char>)
    requires
        value == trim(text),
    ensures
        capture_path(None) is None,
        capture_path(Some(text)) is None <==> value.len() == 0 || value == "0"@ || value == "false"@
            || value == "FALSE"@ || value == "off"@ || value == "OFF"@,
        capture_path(Some(text)) matches Some(path) ==> path == value || path
            == "/tmp/slipstream-codex-approval-requests.jsonl"@,
        capture_path(Some(text)) matches Some(path) ==> (path != value ==> value == "1"@ || value
            == "true"@ || value == "TRUE"@ || value == "on"@ || value == "ON"@),
{
}

/// A written record tells when, and the message as it was read, or its text where it was not.
pub proof fn law_written_record(raw: Seq<char>, captured_at: Seq<char>)
    ensures
        captured_record(raw, captured_at).get_text("captured_at"@) == Some(captured_at),
        captured_record(raw, captured_at).get("message"@) matches Some(message) && (json_parse(raw)
            matches Ok(value) ==> message == value) && (json_parse(raw) is Err ==> message
            == JsonView::Text(raw)),
{
    lemma_small_names();
    let entries = captured_record(raw, captured_at)->Object_0;
    assert(entries[0].0 == "captured_at"@);
    assert(entries[1].0 == "message"@);
    lemma_member(entries, 0, "captured_at"@);
    lemma_member(entries, 1, "message"@);
}

/// A thread that changed later comes first, one without a time last, and threads of the same time
/// come in the order of their titles.
pub proof fn law_later_thread_first(a: SummaryView, b: SummaryView)
    ensures
        a.updated_at is Some && b.updated_at is Some && text_lt(b.updated_at->0, a.updated_at->0)
            ==> thread_precedes(a, b),
        a.updated_at is Some && b.updated_at is None ==> thread_precedes(a, b) && !thread_precedes(
            b,
            a,
        ),
        a.updated_at == b.updated_at && text_lt(a.title, b.title) ==> thread_precedes(a, b),
{
}

/// Every thread of a page is listed, as the page says last, in the directory that was asked where
/// it names none; those listed before stay unless the page has them.
pub proof fn law_page_is_listed(
    known: Seq<SummaryView>,
    root: Seq<char>,
    page: Seq<SummaryView>,
    last: SummaryView,
    other: SummaryView,
)
    requires
        is_keyed(known, |m: SummaryView| m.id),
    ensures
        with_page(known, root, page.push(last)).contains(with_cwd(last, root)),
        with_page(known, root, page).contains(other) && other.id != last.id ==> with_page(
            known,
            root,
            page.push(last),
        ).contains(other),
        with_page(known, root, Seq::empty()) == known,
        last.cwd is Some ==> with_cwd(last, root) == last,
        last.cwd is None ==> with_cwd(last, root).cwd == Some(root) && with_cwd(last, root).id
            == last.id && with_cwd(last, root).title == last.title && with_cwd(
            last,
            root,
        ).updated_at == last.updated_at,
{
    let key = |m: SummaryView| m.id;
    law_pages_list_each_thread_once(known, root, page);
    assert(page.push(last).drop_last() =~= page);
    law_insert_keyed(with_page(known, root, page), with_cwd(last, root), key);
    assert(key(other) == other.id);
    assert(key(with_cwd(last, root)) == last.id);
}

proof fn lemma_models_keyed(known: Seq<ModelView>, page: Seq<ModelView>)
    requires
        is_keyed(known, |m: ModelView| m.id),
    ensures
        is_keyed(with_models(known, page), |m: ModelView| m.id),
    decreases page.len(),
{
    if page.len() > 0 {
        lemma_models_keyed(known, page.drop_last());
        law_insert_keyed(with_models(known, page.drop_last()), page.last(), |m: ModelView| m.id);
    }
}

/// Every model of a page is listed, as the page says last; those listed before stay unless the page
/// has them.
pub proof fn law_models_are_listed(
    known: Seq<ModelView>,
    page: Seq<ModelView>,
    last: ModelView,
    other: ModelView,
)
    requires
        is_keyed(known, |m: ModelView| m.id),
    ensures
        with_models(known, page.push(last)).contains(last),
        with_models(known, page).contains(other) && other.id != last.id ==> with_models(
            known,
            page.push(last),
        ).contains(other),
        with_models(known, Seq::empty()) == known,
{
    let key = |m: ModelView| m.id;
    lemma_models_keyed(known, page);
    assert(page.push(last).drop_last() =~= page);
    law_insert_keyed(with_models(known, page), last, key);
    assert(key(other) == other.id);
    assert(key(last) == last.id);
}

/// A thread that is to be shown is read by itself exactly where it is named and not listed.
pub proof fn law_missing_thread(known: Seq<SummaryView>, thread_id: Seq<char>, i: int)
    ensures
        is_blank(thread_id) ==> missing_thread(known, thread_id) is None,
        0 <= i < known.len() && known[i].id == trim(thread_id) ==> missing_thread(known, thread_id)
            is None,
        !is_blank(thread_id) && (forall|j: int|
            0 <= j < known.len() ==> (#[trigger] known[j]).id != trim(thread_id))
            ==> missing_thread(known, thread_id) == Some(trim(thread_id)),
{
}

proof fn lemma_thread_place(threads: Seq<SummaryView>, id: Seq<char>)
    ensures
        match thread_position(threads, id) {
            Some(i) => 0 <= i < threads.len() && threads[i].id == id,
            None => forall|i: int| 0 <= i < threads.len() ==> (#[trigger] threads[i]).id != id,
        },
    decreases threads.len(),
{
    if threads.len() > 0 {
        let rest = threads.skip(1);
        lemma_thread_place(rest, id);
        if threads[0].id != id && thread_position(rest, id) is None {
            assert forall|i: int| 0 <= i < threads.len() implies (#[trigger] threads[i]).id
                != id by {
                if i > 0 {
                    assert(rest[i - 1] == threads[i]);
                }
            }
        }
    }
}

/// A thread that is told anew takes the place of what was known of it, or comes first where it was
/// not known; every other thread stays.
pub proof fn law_thread_is_brought_up_to_date(
    style: PathStyle,
    threads: Seq<SummaryView>,
    summary: SummaryView,
    j: int,
)
    requires
        0 <= j < threads.len(),
    ensures
        is_news(style, threads, summary) ==> upserted(style, threads, summary).contains(summary),
        !is_news(style, threads, summary) ==> upserted(style, threads, summary) == threads,
        threads[j].id != summary.id ==> upserted(style, threads, summary).contains(threads[j]),
        (forall|i: int| 0 <= i < threads.len() ==> (#[trigger] threads[i]).id != summary.id)
            ==> upserted(style, threads, summary) == seq![summary] + threads,
        upserted(style, threads, summary).len() <= threads.len() + 1,
        threads[j].id == summary.id ==> upserted(style, threads, summary).len() == threads.len(),
{
    lemma_thread_place(threads, summary.id);
    let r = upserted(style, threads, summary);
    match thread_position(threads, summary.id) {
        Some(i) => {
            if threads[i].says_same(style, summary) {
                assert(r[j] == threads[j]);
            } else {
                assert(r[i] == summary);
                if j != i {
                    assert(r[j] == threads[j]);
                }
            }
        },
        None => {
            assert(r[0] == summary);
            assert(r[j + 1] == threads[j]);
        },
    }
}

} // verus!
