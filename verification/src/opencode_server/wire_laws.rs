//! What holds of the answers of an OpenCode server as they are read.
use crate::decode::{default_flag, default_text, default_text_list, optional_text};
use crate::json::{JsonView, NumberView, canonical, lookup, pretty_text};
use crate::members::{is_repeated, members_parse, stated};
use crate::opencode_server::catalog::{imported_directories, project_of_path, root_directories};
use crate::opencode_server::conversations::{
    OpenCodeConversationsAction, PanelActionView, menu_after,
};
use crate::opencode_server::effect::{OpenCodeServerSettings, PanelEffectView, new_session_document};
use crate::opencode_server::message::{error_of, file_name, is_aborted};
use crate::opencode_server::model::{
    PanelView, configured, pending_applied, pending_poll_finished, session_requested,
};
use crate::opencode_server::provider::{
    ProviderModelView, described_models, mapped_models, mapped_texts, provider_items,
    provider_list_members, provider_list_of, provider_members, provider_of, providers_of,
    text_entries,
};
use crate::opencode_server::types::{
    OpenCodePermissionReply, OpenCodeQuestionInfo, OpenCodeQuestionOption, PendingQuestionView,
    PermissionView, reply_word, text_or,
};
use crate::opencode_server::wire::{
    Decoded, answer_of, choice_members, decoded_all, decoded_list, health_of, health_verdict,
    pending_question_members, permission_members, project_members, question_members,
    session_members, session_time, wire_time,
};
use crate::path::{PathStyle, components, is_inside, lemma_with_path, lists_path};
use crate::text::{is_blank, lower, views};
use vstd::prelude::*;

verus! {

/// A project is read exactly where it states its identifier and its directory.
pub proof fn law_read_project(value: JsonView)
    ensures
        project_members(value) is Some <==> value.get_text("id"@) is Some
            && value.get_text("worktree"@) is Some,
        project_members(value) matches Some(project) ==> {
            &&& value.get_text("id"@) == Some(project.0)
            &&& value.get_text("worktree"@) == Some(project.1)
        },
{
}

/// A request for permission is read exactly where its members are of their kinds, each into the part of its name.
pub proof fn law_read_permission(value: JsonView)
    ensures
        permission_members(value) is Some <==> value.get_text("id"@) is Some
            && value.get_text("sessionID"@) is Some
            && value.get_text("permission"@) is Some
            && default_text_list(value, "patterns"@) is Some
            && default_text_list(value, "always"@) is Some,
        permission_members(value) matches Some(request) ==> {
            &&& value.get_text("id"@) == Some(request.id)
            &&& value.get_text("sessionID"@) == Some(request.session_id)
            &&& value.get_text("permission"@) == Some(request.permission)
            &&& default_text_list(value, "patterns"@) == Some(request.patterns)
            &&& default_text_list(value, "always"@) == Some(request.always)
        },
{
}

/// A choice is read exactly where it has a label, with its description where it has one.
pub proof fn law_read_choice(value: JsonView)
    ensures
        choice_members(value) is Some <==> value.get_text("label"@) is Some
            && default_text(value, "description"@) is Some,
        choice_members(value) matches Some(choice) ==> {
            &&& value.get_text("label"@) == Some(choice.label)
            &&& default_text(value, "description"@) == Some(choice.description)
        },
{
}

/// A question is read exactly where its members are of their kinds, each into the part of its name.
pub proof fn law_read_question(value: JsonView)
    ensures
        question_members(value) is Some <==> default_text(value, "header"@) is Some
            && default_text(value, "question"@) is Some
            && decoded_list::<OpenCodeQuestionOption>(value, "options"@) is Some
            && default_flag(value, "multiple"@) is Some
            && default_flag(value, "custom"@) is Some,
        question_members(value) matches Some(question) ==> {
            &&& default_text(value, "header"@) == Some(question.header)
            &&& default_text(value, "question"@) == Some(question.question)
            &&& decoded_list::<OpenCodeQuestionOption>(value, "options"@) == Some(question.options)
            &&& default_flag(value, "multiple"@) == Some(question.multiple)
            &&& default_flag(value, "custom"@) == Some(question.custom)
        },
{
}

/// Pending questions are read exactly where their members are of their kinds, each into the part of its name.
pub proof fn law_read_questions(value: JsonView)
    ensures
        pending_question_members(value) is Some <==> value.get_text("id"@) is Some
            && value.get_text("sessionID"@) is Some
            && decoded_list::<OpenCodeQuestionInfo>(value, "questions"@) is Some,
        pending_question_members(value) matches Some(request) ==> {
            &&& value.get_text("id"@) == Some(request.id)
            &&& value.get_text("sessionID"@) == Some(request.session_id)
            &&& decoded_list::<OpenCodeQuestionInfo>(value, "questions"@) == Some(request.questions)
        },
{
}

/// A session is read exactly where its members are of their kinds, each into the part of its name.
pub proof fn law_read_session(value: JsonView)
    ensures
        session_members(value) is Some <==> value.get_text("id"@) is Some
            && optional_text(value, "parentID"@) is Some
            && optional_text(value, "title"@) is Some
            && optional_text(value, "slug"@) is Some
            && optional_text(value, "projectID"@) is Some
            && optional_text(value, "directory"@) is Some
            && session_time(value) is Some,
        session_members(value) matches Some(session) ==> {
            &&& value.get_text("id"@) == Some(session.id)
            &&& optional_text(value, "parentID"@) == Some(session.parent_id)
            &&& optional_text(value, "title"@) == Some(session.title)
            &&& optional_text(value, "slug"@) == Some(session.slug)
            &&& optional_text(value, "projectID"@) == Some(session.project_id)
            &&& optional_text(value, "directory"@) == Some(session.directory)
            &&& session_time(value) == Some(session.updated_at)
        },
{
}

/// A list of values is read where each can be, an absent one as empty; nothing but a list is.
pub proof fn law_read_list<T: Decoded>(value: JsonView, key: Seq<char>, items: Seq<JsonView>)
    ensures
        value.get(key) is None ==> decoded_list::<T>(value, key) == Some(Seq::<T::Model>::empty()),
        value.get(key) == Some(JsonView::Array(items)) ==> decoded_list::<T>(value, key)
            == decoded_all::<T>(items),
        value.get(key) matches Some(list) ==> (!(list is Array) ==> decoded_list::<T>(value, key)
            is None),
{
}

/// A time is the whole number that is written, as far as 64 bits hold it; nothing but a number is
/// one.
pub proof fn law_written_time(value: JsonView, n: NumberView)
    ensures
        !(value is Number) ==> wire_time(value) is None,
        n.signed is Some ==> wire_time(JsonView::Number(n)) == n.signed,
        n.signed is None ==> (n.unsigned matches Some(m) ==> (m <= 0x7fff_ffff_ffff_ffff ==> (
        wire_time(JsonView::Number(n)) matches Some(time) && time == m))),
        n.signed is None && n.unsigned is None ==> wire_time(JsonView::Number(n)) == n.truncated,
{
}

/// A session without a time is read without one.
pub proof fn law_session_without_time(value: JsonView)
    ensures
        value.get("time"@) is None ==> session_time(value) == Some(None::<i64>),
        value.get("time"@) == Some(JsonView::Null) ==> session_time(value) == Some(None::<i64>),
        value.get("time"@) matches Some(JsonView::Object(entries)) ==> (session_time(value) matches
            Some(time) ==> time == (match lookup(entries, "updated"@) {
            Some(updated) => if updated is Null {
                None
            } else {
                wire_time(updated)
            },
            None => None,
        })),
{
}

/// A server is well exactly where its answer succeeds and says so; else it is told what it
/// answered.
pub proof fn law_healthy_server(is_success: bool, status: Seq<char>, body: Seq<char>)
    ensures
        health_verdict(is_success, status, body) is Ok <==> is_success && (members_parse(body)
            matches Ok(value) && (health_of(value) matches Some((healthy, version)) && healthy)),
        !is_success ==> health_verdict(is_success, status, body) == Err::<(), Seq<char>>(
            "OpenCode health check returned "@ + status + ": "@ + body,
        ),
        is_success ==> (members_parse(body) matches Ok(value) ==> (health_of(value) matches Some(
            (healthy, version),
        ) ==> (!healthy ==> (version matches Some(text) ==> health_verdict(is_success, status, body)
            == Err::<(), Seq<char>>("OpenCode server reported unhealthy"@ + (" ("@ + text + ")"@))))
            && (!healthy && version is None ==> health_verdict(is_success, status, body) == Err::<
            (),
            Seq<char>,
        >("OpenCode server reported unhealthy"@ + Seq::<char>::empty())))),
{
}

/// An answer is taken exactly where it succeeds and can be read; a failure is told with its status
/// and its body.
pub proof fn law_answer_is_taken(
    is_success: bool,
    status: Seq<char>,
    url: Seq<char>,
    body: Seq<char>,
)
    ensures
        answer_of(is_success, status, url, body) is Ok <==> is_success && members_parse(body) is Ok,
        is_success ==> (members_parse(body) matches Ok(value) ==> answer_of(
            is_success,
            status,
            url,
            body,
        ) == Ok::<JsonView, Seq<char>>(value)),
        !is_success ==> answer_of(is_success, status, url, body) == Err::<JsonView, Seq<char>>(
            "OpenCode server returned "@ + status + ": "@ + body,
        ),
        is_success ==> (members_parse(body) matches Err(error) ==> answer_of(
            is_success,
            status,
            url,
            body,
        ) == Err::<JsonView, Seq<char>>(
            "Could not parse OpenCode response from "@ + url + ": "@ + (
            "error decoding response body: "@ + error),
        )),
{
}

/// The model that a member of an object describes: its key, and its identifier and its name where
/// they are stated.
pub open spec fn described_model(entry: (Seq<char>, JsonView)) -> Option<ProviderModelView> {
    match stated(entry.1, seq!["id"@, "name"@], 2) {
        Some(value) => if optional_text(value, "id"@) is Some && optional_text(value, "name"@)
            is Some {
            Some(
                ProviderModelView {
                    key: entry.0,
                    id: optional_text(value, "id"@)->0,
                    name: optional_text(value, "name"@)->0,
                },
            )
        } else {
            None
        },
        None => None,
    }
}

/// Models are read where each member describes one, and then all of them, in order.
pub proof fn law_every_model_is_described(items: Seq<(Seq<char>, JsonView)>)
    ensures
        described_models(items) is Some <==> forall|i: int|
            0 <= i < items.len() ==> described_model((#[trigger] items[i])) is Some,
        described_models(items) matches Some(all) ==> all.len() == items.len() && forall|i: int|
            0 <= i < items.len() ==> described_model((#[trigger] items[i])) == Some(all[i]),
    decreases items.len(),
{
    if items.len() > 0 {
        let front = items.drop_last();
        let n = items.len() - 1;
        law_every_model_is_described(front);
        assert(items[n] == items.last());
        assert(forall|i: int| 0 <= i < n ==> front[i] == #[trigger] items[i]);
        if forall|i: int| 0 <= i < items.len() ==> described_model((#[trigger] items[i])) is Some {
            assert forall|i: int| 0 <= i < front.len() implies described_model(
                (#[trigger] front[i])
            ) is Some by {
                assert(front[i] == items[i]);
            }
        }
        if let Some(all) = described_models(items) {
            let before = described_models(front)->0;
            assert forall|i: int| 0 <= i < items.len() implies described_model(
                (#[trigger] items[i])
            ) == Some(all[i]) by {
                if i < n {
                    assert(front[i] == items[i]);
                    assert(all[i] == before[i]);
                }
            }
        }
    }
}

/// Texts under keys are read where each member is one, and then all of them, in order.
pub proof fn law_every_text_entry_is_read(items: Seq<(Seq<char>, JsonView)>)
    ensures
        text_entries(items) is Some <==> forall|i: int|
            0 <= i < items.len() ==> (#[trigger] items[i]).1 is Text,
        text_entries(items) matches Some(all) ==> all.len() == items.len() && forall|i: int|
            0 <= i < items.len() ==> (
                #[trigger] items[i]
            ).0 == all[i].0 && items[i].1 == JsonView::Text(all[i].1),
    decreases items.len(),
{
    if items.len() > 0 {
        let front = items.drop_last();
        let n = items.len() - 1;
        law_every_text_entry_is_read(front);
        assert(items[n] == items.last());
        assert(forall|i: int| 0 <= i < n ==> front[i] == #[trigger] items[i]);
        if forall|i: int| 0 <= i < items.len() ==> (#[trigger] items[i]).1 is Text {
            assert forall|i: int| 0 <= i < front.len() implies (#[trigger] front[i]).1 is Text by {
                assert(front[i] == items[i]);
            }
        }
        if let Some(all) = text_entries(items) {
            let before = text_entries(front)->0;
            assert forall|i: int| 0 <= i < items.len() implies (
                #[trigger] items[i]
            ).0 == all[i].0 && items[i].1 == JsonView::Text(all[i].1) by {
                if i < n {
                    assert(front[i] == items[i]);
                    assert(all[i] == before[i]);
                }
            }
        }
    }
}

/// Providers are listed under either of two names, and not under both; absent, there are none.
pub proof fn law_place_of_providers(value: JsonView, items: Seq<JsonView>)
    ensures
        value.get("providers"@) == Some(JsonView::Array(items)) && value.get("all"@) is None
            ==> provider_items(value) == Some(items),
        value.get("all"@) == Some(JsonView::Array(items)) && value.get("providers"@) is None
            ==> provider_items(value) == Some(items),
        value.get("all"@) is None && value.get("providers"@) is None ==> provider_items(value)
            == Some(Seq::<JsonView>::empty()),
        value.get("all"@) is Some && value.get("providers"@) is Some ==> provider_items(value)
            is None,
{
}

/// A provider is read with its identifier, its name where it has one, and its models.
pub proof fn law_read_provider(value: JsonView, entries: Seq<(Seq<char>, JsonView)>)
    ensures
        provider_members(value) matches Some(provider) ==> value.get_text("id"@) == Some(
            provider.id,
        ) && optional_text(value, "name"@) == Some(provider.name),
        value.get("models"@) is None ==> (provider_members(value) matches Some(provider)
            ==> mapped_models(Seq::empty()) == Some(provider.models)),
        value.get("models"@) == Some(JsonView::Object(entries)) ==> (provider_members(value) matches
            Some(provider) ==> mapped_models(entries) == Some(provider.models)),
        value.get_text("id"@) is None ==> provider_members(value) is None,
        provider_list_members(value) matches Some(list) ==> (provider_items(value) matches Some(
            items,
        ) && providers_of(items) == Some(list.providers)),
        value.get("default"@) == Some(JsonView::Object(entries)) ==> (provider_list_members(value)
            matches Some(list) ==> mapped_texts(entries) == Some(list.default)),
{
}

/// An error is told by its text, else by its message, else by what it calls its error, else whole.
pub proof fn law_text_of_an_error(value: JsonView, text: Seq<char>)
    ensures
        error_of(JsonView::Null) is None,
        error_of(JsonView::Text(text)) == Some(text),
        value is Object && value.get("message"@) == Some(JsonView::Text(text)) ==> error_of(value)
            == Some(text),
        value is Object && value.get("message"@) is None && value.get("error"@) == Some(
            JsonView::Text(text),
        ) ==> error_of(value) == Some(text),
        !(value is Null) ==> error_of(value) is Some,
        value is Object && value.get("message"@) is None && value.get("error"@) is None
            ==> error_of(value) == Some(pretty_text(canonical(value))),
{
}

/// A message is aborted exactly where its end, or the reason of its end, says so.
pub proof fn law_aborted(finish: JsonView, text: Seq<char>)
    ensures
        !is_aborted(None),
        is_aborted(Some(JsonView::Text(text))) <==> lower(text) == "abort"@ || lower(text)
            == "aborted"@,
        finish is Object && finish.get("reason"@) == Some(JsonView::Text(text)) ==> (is_aborted(
            Some(finish),
        ) <==> lower(text) == "abort"@ || lower(text) == "aborted"@),
        finish is Object && finish.get("reason"@) is None ==> !is_aborted(Some(finish)),
{
}

/// What each action of the panel leads to. A menu that is toggled twice is closed again.
pub proof fn law_panel_actions(menu: Option<Seq<char>>, id: String)
    ensures
        menu_after(menu, OpenCodeConversationsAction::Refresh) == (
            menu,
            seq![PanelActionView::Refresh],
        ),
        menu_after(menu, OpenCodeConversationsAction::OpenSession(id)) == (
            menu,
            seq![PanelActionView::OpenSession { session_id: id@ }],
        ),
        menu_after(menu, OpenCodeConversationsAction::NewConversation) == (
            menu,
            seq![PanelActionView::StartNewConversation],
        ),
        menu_after(menu, OpenCodeConversationsAction::DeleteSession(id)).0 is None,
        menu_after(menu, OpenCodeConversationsAction::DeleteSession(id)).1[0]
            == (PanelActionView::DeleteSession { session_id: id@ }),
        menu != Some(id@) ==> menu_after(
            menu,
            OpenCodeConversationsAction::ToggleSessionMenu(id),
        ).0 == Some(id@) && menu_after(
            menu_after(menu, OpenCodeConversationsAction::ToggleSessionMenu(id)).0,
            OpenCodeConversationsAction::ToggleSessionMenu(id),
        ).0 is None,
{
}

proof fn lemma_reply_words()
    ensures
        "once"@ != "always"@,
        "once"@ != "reject"@,
        "always"@ != "reject"@,
{
    reveal_strlit("once");
    reveal_strlit("always");
    reveal_strlit("reject");
    assert("once"@.len() == 4);
    assert("always"@.len() == 6);
    assert("reject"@.len() == 6);
    assert("always"@[0] == 'a');
    assert("reject"@[0] == 'r');
}

/// Each reply has a word of its own.
pub proof fn law_reply_words(a: OpenCodePermissionReply, b: OpenCodePermissionReply)
    ensures
        reply_word(a) == reply_word(b) ==> a == b,
        reply_word(OpenCodePermissionReply::Once) == "once"@,
        reply_word(OpenCodePermissionReply::Always) == "always"@,
        reply_word(OpenCodePermissionReply::Reject) == "reject"@,
{
    lemma_reply_words();
}

/// The project of a path is one that the path lies in, and none that the path lies in is nearer to
/// it; there is one wherever the path lies in any.
pub proof fn law_project_of_a_path(
    style: PathStyle,
    worktrees: Seq<Seq<char>>,
    path: Seq<char>,
)
    ensures
        match project_of_path(style, worktrees, path) {
            Some(best) => worktrees.contains(best) && is_inside(style, path, best) && forall|i: int|
                0 <= i < worktrees.len() && is_inside(style, path, #[trigger] worktrees[i])
                    ==> components(style, worktrees[i]).len() <= components(style, best).len(),
            None => forall|i: int|
                0 <= i < worktrees.len() ==> !is_inside(style, path, #[trigger] worktrees[i]),
        },
    decreases worktrees.len(),
{
    if worktrees.len() > 0 {
        let front = worktrees.drop_last();
        let n = worktrees.len() - 1;
        law_project_of_a_path(style, front, path);
        assert(worktrees[n] == worktrees.last());
        assert(forall|i: int| 0 <= i < n ==> front[i] == #[trigger] worktrees[i]);
        if let Some(best) = project_of_path(style, front, path) {
            let k = choose|k: int| 0 <= k < front.len() && front[k] == best;
            assert(worktrees[k] == best);
        }
        match project_of_path(style, worktrees, path) {
            Some(best) => {
                assert forall|i: int|
                    0 <= i < worktrees.len() && is_inside(
                        style,
                        path,
                        #[trigger] worktrees[i],
                    ) implies components(style, worktrees[i]).len() <= components(
                    style,
                    best,
                ).len() by {
                    if i < n {
                        assert(is_inside(style, path, front[i]));
                    }
                }
            },
            None => {
                assert forall|i: int| 0 <= i < worktrees.len() implies !is_inside(
                    style,
                    path,
                    #[trigger] worktrees[i],
                ) by {
                    if i < n {
                        assert(!is_inside(style, path, front[i]));
                    }
                }
            },
        }
    }
}

/// The project of every root that lies in one is among the directories, and so is every imported
/// path, or its project where it lies in one; those that were there stay.
pub proof fn law_directories_of_sessions(
    style: PathStyle,
    worktrees: Seq<Seq<char>>,
    roots: Seq<Seq<char>>,
    imported: Seq<Seq<char>>,
    known: Seq<Seq<char>>,
    path: Seq<char>,
)
    ensures
        project_of_path(style, worktrees, path) matches Some(project) ==> lists_path(
            style,
            root_directories(style, worktrees, roots.push(path)),
            project,
        ) && lists_path(
            style,
            imported_directories(style, worktrees, known, imported.push(path)),
            project,
        ),
        project_of_path(style, worktrees, path) is None ==> root_directories(
            style,
            worktrees,
            roots.push(path),
        ) == root_directories(style, worktrees, roots) && lists_path(
            style,
            imported_directories(style, worktrees, known, imported.push(path)),
            path,
        ),
        forall|other: Seq<char>|
            lists_path(style, imported_directories(style, worktrees, known, imported), other)
                ==> #[trigger] lists_path(
                style,
                imported_directories(style, worktrees, known, imported.push(path)),
                other,
            ),
        forall|other: Seq<char>|
            lists_path(style, root_directories(style, worktrees, roots), other)
                ==> #[trigger] lists_path(
                style,
                root_directories(style, worktrees, roots.push(path)),
                other,
            ),
        imported_directories(style, worktrees, known, Seq::empty()) == known,
{
    assert(roots.push(path).drop_last() =~= roots);
    assert(imported.push(path).drop_last() =~= imported);
    let before = imported_directories(style, worktrees, known, imported);
    match project_of_path(style, worktrees, path) {
        Some(project) => {
            lemma_with_path(style, root_directories(style, worktrees, roots), project);
            lemma_with_path(style, before, project);
        },
        None => {
            lemma_with_path(style, before, path);
        },
    }
}

/// What is pending is looked for again as long as the session's prompt runs or it still asks
/// something; an error in looking changes nothing.
pub proof fn law_pending_requests_read_again(
    state: PanelView,
    session_id: Seq<char>,
    generation: u64,
    error: Seq<char>,
    permissions: Seq<PermissionView>,
    questions: Seq<PendingQuestionView>,
)
    requires
        state.wants_pending_poll(session_id, generation),
    ensures
        pending_poll_finished(state, session_id, generation, Err(error)).0 == state,
        pending_poll_finished(state, session_id, generation, Err(error)).1 == seq![
            PanelEffectView::SchedulePendingPoll { session_id, generation },
        ],
        pending_poll_finished(state, session_id, generation, Ok((permissions, questions))).0
            == pending_applied(state, session_id, permissions, questions).0,
        state.local_turn_session_id == Some(session_id) ==> pending_poll_finished(
            state,
            session_id,
            generation,
            Ok((permissions, questions)),
        ).1.contains(PanelEffectView::SchedulePendingPoll { session_id, generation }),
{
    assert(pending_poll_finished(state, session_id, generation, Err(error)).1 =~= seq![
        PanelEffectView::SchedulePendingPoll { session_id, generation },
    ]);
    if state.local_turn_session_id == Some(session_id) {
        let told = pending_poll_finished(
            state,
            session_id,
            generation,
            Ok((permissions, questions)),
        ).1;
        assert(told[told.len() - 1] == (PanelEffectView::SchedulePendingPoll {
            session_id,
            generation,
        }));
    }
}

/// A new session is asked for in the projects of the terminal and those imported; what was open is
/// closed.
pub proof fn law_new_session_is_asked_for(state: PanelView, settings: OpenCodeServerSettings)
    requires
        settings.enabled,
        configured(settings) is Ok,
    ensures
        session_requested(state, settings).0.active_session is None,
        session_requested(state, settings).1.contains(
            PanelEffectView::CreateSession {
                config: configured(settings)->Ok_0,
                project_roots: state.project_roots,
                imported_project_paths: views(settings.imported_project_paths@),
            },
        ),
        new_session_document().get_text("title"@) == Some("New OpenCode conversation"@),
{
    assert(session_requested(state, settings).1[1] == (PanelEffectView::CreateSession {
        config: configured(settings)->Ok_0,
        project_roots: state.project_roots,
        imported_project_paths: views(settings.imported_project_paths@),
    }));
    let entries = new_session_document()->Object_0;
    assert(entries[0].0 == "title"@);
}

/// A request with one question is that question, and one with none or several is not.
pub proof fn law_single_question(request: PendingQuestionView, other: Seq<char>, text: Seq<char>)
    ensures
        request.questions.len() == 1 ==> request.single() == Some(request.questions[0]),
        request.questions.len() != 1 ==> request.single() is None,
        !is_blank(text) ==> text_or(Some(text), other) == text,
        is_blank(text) ==> text_or(Some(text), other) == other,
        text_or(None, other) == other,
{
}

/// A file is named by its text, or by its path.
pub proof fn law_name_of_a_file(file: JsonView, name: Seq<char>)
    ensures
        file_name(JsonView::Text(name)) == Some(name),
        file.get("path"@) == Some(JsonView::Text(name)) ==> file_name(file) == Some(name),
        file is Object && file.get("path"@) is None ==> file_name(file) is None,
        file is Null || file is Array || file is Bool ==> file_name(file) is None,
{
}

/// A provider, or a list of them, that states one of its members twice is not read.
pub proof fn law_repeated_member_of_a_provider(
    entries: Seq<(Seq<char>, JsonView)>,
    i: int,
    j: int,
)
    requires
        0 <= i < j < entries.len(),
        entries[i].0 == entries[j].0,
    ensures
        entries[i].0 == "id"@ || entries[i].0 == "name"@ || entries[i].0 == "models"@
            ==> provider_of(JsonView::Object(entries)) is None,
        entries[i].0 == "all"@ || entries[i].0 == "providers"@ || entries[i].0 == "default"@
            ==> provider_list_of(JsonView::Object(entries)) is None,
{
    let name = entries[i].0;
    assert(is_repeated(entries, name));
    let a = seq!["id"@, "name"@, "models"@];
    let b = seq!["providers"@, "default"@];
    assert(a[0] == "id"@ && a[1] == "name"@ && a[2] == "models"@);
    assert(b[0] == "providers"@ && b[1] == "default"@);
}

/// A provider that states each of its members once is read as its members say.
pub proof fn law_provider_without_repetition(entries: Seq<(Seq<char>, JsonView)>)
    requires
        forall|i: int, j: int|
            0 <= i < j < entries.len() ==> (#[trigger] entries[i]).0 != (#[trigger] entries[j]).0,
    ensures
        provider_of(JsonView::Object(entries)) == provider_members(JsonView::Object(entries)),
        provider_list_of(JsonView::Object(entries)) == provider_list_members(
            JsonView::Object(entries),
        ),
{
}

} // verus!
