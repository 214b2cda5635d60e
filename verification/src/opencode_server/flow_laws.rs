//! What holds of a panel for an OpenCode server as it is used: where it connects, what is shown, what
//! is sent, and what stays.
use crate::conversation::AIConversationId;
use crate::opencode_server::address::{
    ServerConfigView, ServerErrorView, base64_text, directory_address, is_local, serve_command,
    server_address, server_config, server_text,
};
use crate::opencode_server::catalog::{session_position, session_with_id};
use crate::opencode_server::effect::{
    OpenCodeServerSettings, OpenCodeTurnContext, PanelEffectView, PanelEventView,
    SessionReadPurpose,
};
use crate::opencode_server::history::{prompt_answer, session_conversation};
use crate::opencode_server::list_laws::{
    law_first_request, law_other_requests_stay, law_requests_told_apart,
    law_session_is_brought_up_to_date,
};
use crate::opencode_server::model::{
    PanelView, PromptPlanView, PromptResultView, configured, model_named, panel_refresh_finished,
    panel_refreshed, pending_applied, pending_cleared, pending_poll_due, permission_resolved,
    question_settled, session_detail_applied, session_open_finished, session_opened,
    session_poll_due, session_prompt_finished, session_prompt_planned, session_prompt_sent,
    session_started, shown_answer,
};
use crate::opencode_server::pending::{Pending, request_with_id};
use crate::opencode_server::types::{
    MessageView, ModelInfoView, OpenCodePendingPermission, OpenCodePendingQuestion,
    OpenCodePermissionReply, PendingQuestionView, PermissionView, ServerStatusView,
    SessionDetailView, SessionView,
};
use crate::server_url::{UrlView, url_parse, url_query};
use crate::text::{contains_text, decimal, is_blank, lemma_trim_empty, trim, views};
use crate::time::Timestamp;
use vstd::prelude::*;

verus! {

/// An address without a scheme is one of the web; where none is given, the one of this machine is
/// taken.
pub proof fn law_server_text(input: Seq<char>)
    ensures
        is_blank(input) ==> server_text(input) == "http://127.0.0.1:4096"@,
        !is_blank(input) && contains_text(
            trim(input),
            "://"@,
        ) ==> server_text(input) == trim(input),
        !is_blank(input) && !contains_text(trim(input), "://"@) ==> server_text(input) == "http://"@
            + trim(input),
{
    lemma_trim_empty(input);
}

/// A server is taken exactly where its address is one of the web and names a host, on that host and
/// the port that it names, else on the usual one.
pub proof fn law_address_is_taken(input: Seq<char>, url: UrlView)
    requires
        url_parse(server_text(input)) is Ok,
        url_parse(server_text(input))->Ok_0 == url,
    ensures
        server_address(input) is Ok <==> (url.scheme == "http"@ || url.scheme == "https"@)
            && url.host is Some,
        server_address(input) matches Ok(server) ==> {
            &&& server.scheme == url.scheme
            &&& server.host == url.host
            &&& server.path == "/"@
            &&& server.query is None
            &&& server.fragment is None
            &&& (url.port is Some ==> server.port == url.port)
            &&& (url.port is None ==> server.port == Some(4096u16))
        },
        url.scheme != "http"@ && url.scheme != "https"@ ==> server_address(input) == Err::<
            UrlView,
            ServerErrorView,
        >(ServerErrorView::UnsupportedScheme),
{
}

/// The command that starts a server listens where its address says.
pub proof fn law_server_is_served_at_its_address(input: Seq<char>, url: UrlView)
    requires
        server_address(input) == Ok::<UrlView, ServerErrorView>(url),
    ensures
        url.host matches Some(host) && (url.port matches Some(port) && serve_command(input)
            == "opencode serve --hostname "@ + host + " --port "@ + decimal(port as nat)),
{
}

/// The credentials are sent where both are given. Without them a server on this machine is still
/// taken, and no other.
pub proof fn law_credentials(
    server_url: Seq<char>,
    username: Seq<char>,
    password: Seq<char>,
    url: UrlView,
)
    requires
        server_address(server_url) == Ok::<UrlView, ServerErrorView>(url),
    ensures
        server_config(server_url, username, password) is Ok <==> is_local(url) || (!is_blank(
            username,
        ) && !is_blank(password)),
        server_config(server_url, username, password) matches Ok(config) ==> {
            &&& config.server_url == url
            &&& (config.basic_auth_header is Some <==> !is_blank(username) && !is_blank(password))
            &&& (config.basic_auth_header matches Some(header) ==> header == "Basic "@
                + base64_text(trim(username) + ":"@ + trim(password)))
        },
        server_config(server_url, username, password) matches Err(error) ==> error
            is MissingCredentials,
{
    lemma_trim_empty(username);
    lemma_trim_empty(password);
}

/// A request goes to the host of the server, and names the directory exactly where one is given.
pub proof fn law_address_of_a_request(
    url: UrlView,
    path: Seq<char>,
    directory: Option<Seq<char>>,
)
    ensures
        directory_address(url, path, directory).host == url.host,
        directory_address(url, path, directory).scheme == url.scheme,
        directory_address(url, path, directory).port == url.port,
        directory_address(url, path, directory).path == directory_address(url, path, None).path,
        directory is None ==> directory_address(url, path, directory).query is None,
        directory matches Some(text) ==> directory_address(url, path, directory).query == Some(
            url_query(None, "directory"@, text),
        ),
{
}

/// A model is found by its identifier where one has it.
pub proof fn law_model_by_name(models: Seq<ModelInfoView>, id: Seq<char>)
    ensures
        match model_named(models, id) {
            Some(model) => models.contains(model) && model.id == id,
            None => forall|i: int| 0 <= i < models.len() ==> (#[trigger] models[i]).id != id,
        },
    decreases models.len(),
{
    if models.len() > 0 {
        let rest = models.skip(1);
        law_model_by_name(rest, id);
        assert(models[0] == models[0]);
        if models[0].id != id {
            match model_named(rest, id) {
                Some(model) => {
                    let i = choose|i: int| 0 <= i < rest.len() && rest[i] == model;
                    assert(models[i + 1] == model);
                },
                None => {
                    assert forall|i: int| 0 <= i < models.len() implies (#[trigger] models[i]).id
                        != id by {
                        if i > 0 {
                            assert(rest[i - 1] == models[i]);
                        }
                    }
                },
            }
        }
    }
}

/// A prompt goes to the model that was chosen, by its provider's name and its own.
pub proof fn law_chosen_model(state: PanelView, i: int)
    ensures
        state.selected_model_id is None ==> state.selected_model() is None,
        state.selected_model() matches Some((provider_id, model_id)) ==> exists|k: int|
            0 <= k < state.models.len() && state.selected_model_id == Some(
                (#[trigger] state.models[k]).id,
            ) && state.models[k].provider_id == provider_id && state.models[k].model_id == model_id,
        0 <= i < state.models.len() && state.selected_model_id == Some(state.models[i].id)
            ==> state.selected_model() is Some,
{
    if let Some(id) = state.selected_model_id {
        law_model_by_name(state.models, id);
        if let Some(model) = model_named(state.models, id) {
            let k = choose|k: int| 0 <= k < state.models.len() && state.models[k] == model;
            assert(state.models[k].id == id);
        }
    }
}

/// The directory of a session is the one that is shown of it, else the one that it is listed with.
pub proof fn law_directory_of_a_session(
    state: PanelView,
    session_id: Seq<char>,
    session: SessionDetailView,
    listed: SessionView,
)
    ensures
        state.active_session == Some(session) && session.summary.id == session_id ==> (
        session.summary.directory is Some ==> state.directory_of(session_id)
            == session.summary.directory) && state.known_summary(session_id) == Some(
            session.summary,
        ),
        state.active_session is None && session_with_id(state.sessions, session_id) == Some(listed)
            ==> state.directory_of(session_id) == listed.directory && state.known_summary(
            session_id,
        ) == Some(listed),
        state.active_session is None && session_with_id(state.sessions, session_id) is None
            ==> state.directory_of(session_id) is None && state.known_summary(session_id) is None,
{
}

/// A refresh asks the server for its sessions where the panel is on and its settings are right.
pub proof fn law_panel_asks_the_server(
    state: PanelView,
    settings: OpenCodeServerSettings,
    config: ServerConfigView,
)
    ensures
        settings.enabled && configured(settings) == Ok::<ServerConfigView, ServerErrorView>(config)
            ==> panel_refreshed(state, settings).0.status is Loading && panel_refreshed(
            state,
            settings,
        ).0.sessions == state.sessions && panel_refreshed(state, settings).1.contains(
            PanelEffectView::ListSessions {
                config,
                project_roots: state.project_roots,
                imported_project_paths: views(settings.imported_project_paths@),
            },
        ),
        settings.enabled && configured(settings) is Err ==> panel_refreshed(
            state,
            settings,
        ).0.status is Disconnected && panel_refreshed(state, settings).0.sessions.len() == 0,
        !settings.enabled ==> panel_refreshed(state, settings).0.status is Disabled,
{
    if settings.enabled && configured(settings) == Ok::<ServerConfigView, ServerErrorView>(config) {
        assert(panel_refreshed(state, settings).1[1] == (PanelEffectView::ListSessions {
            config,
            project_roots: state.project_roots,
            imported_project_paths: views(settings.imported_project_paths@),
        }));
    }
}

/// What the server answers to a refresh is shown; the chosen model stays chosen exactly where it is
/// still offered. Where it fails, the reason is shown and nothing of the server stays.
pub proof fn law_panel_shows_the_answer(
    state: PanelView,
    sessions: Seq<SessionView>,
    models: Seq<ModelInfoView>,
    error: Seq<char>,
    id: Seq<char>,
    i: int,
)
    ensures
        ({
            let next = panel_refresh_finished(state, Ok((sessions, models))).0;
            &&& next.status is Connected
            &&& next.sessions == sessions
            &&& next.models == models
            &&& next.active_session == state.active_session
            &&& next.conversations == state.conversations
            &&& (state.selected_model_id == Some(id) && 0 <= i < models.len() && models[i].id == id
                ==> next.selected_model_id == Some(id))
            &&& (next.selected_model_id is Some ==> next.selected_model_id
                == state.selected_model_id)
        }),
        ({
            let next = panel_refresh_finished(state, Err(error)).0;
            &&& next.status == (ServerStatusView::Disconnected { message: error })
            &&& next.sessions.len() == 0
            &&& next.models.len() == 0
            &&& next.active_session is None
            &&& next.permissions.len() == 0
            &&& next.questions.len() == 0
        }),
{
    law_model_by_name(models, id);
}

/// A session that is opened is read, for the conversation that it has, else for the fresh one, which
/// it has from then on.
pub proof fn law_session_has_one_conversation(
    state: PanelView,
    session_id: Seq<char>,
    fresh: AIConversationId,
    settings: OpenCodeServerSettings,
)
    requires
        settings.enabled,
        configured(settings) is Ok,
    ensures
        ({
            let (next, told) = session_opened(state, session_id, fresh, settings);
            &&& next.conversations.contains_key(session_id)
            &&& (state.conversations.contains_key(session_id) ==> next.conversations[session_id]
                == state.conversations[session_id])
            &&& (!state.conversations.contains_key(session_id) ==> next.conversations[session_id]
                == fresh)
            &&& next.opening_session_id == Some(session_id)
            &&& told.contains(
                PanelEffectView::ReadSession {
                    config: configured(settings)->Ok_0,
                    session_id,
                    fallback_summary: session_with_id(state.sessions, session_id),
                    purpose: SessionReadPurpose::OpenAsConversation {
                        conversation_id: next.conversations[session_id],
                    },
                },
            )
        }),
{
    let (next, told) = session_opened(state, session_id, fresh, settings);
    assert(told[1] == (PanelEffectView::ReadSession {
        config: configured(settings)->Ok_0,
        session_id,
        fallback_summary: session_with_id(state.sessions, session_id),
        purpose: SessionReadPurpose::OpenAsConversation {
            conversation_id: next.conversations[session_id],
        },
    }));
}

/// The conversation of a session holds what was read of it, and is opened; where the session could
/// not be read, the reason is shown and none is.
pub proof fn law_read_session_is_shown(
    state: PanelView,
    conversation_id: AIConversationId,
    detail: SessionDetailView,
    error: Seq<char>,
    now: Timestamp,
)
    ensures
        ({
            let (next, told) = session_open_finished(state, conversation_id, Ok(detail), now);
            let id = detail.summary.id;
            &&& next.active_session == Some(detail)
            &&& next.opening_session_id is None
            &&& next.session_ids.contains_pair(conversation_id, id)
            &&& told.contains(
                PanelEffectView::CacheConversation(
                    session_conversation(conversation_id, detail, now),
                ),
            )
            &&& told.contains(
                PanelEffectView::ScheduleSessionPoll {
                    session_id: id,
                    generation: next.poll_generation,
                },
            )
            &&& told.contains(
                PanelEffectView::Emit(
                    PanelEventView::OpenConversation { conversation_id, session_id: id },
                ),
            )
        }),
        ({
            let next = session_open_finished(state, conversation_id, Err(error), now).0;
            &&& next.status == (ServerStatusView::Disconnected { message: error })
            &&& next.active_session == state.active_session
            &&& next.opening_session_id is None
        }),
{
    let (next, told) = session_open_finished(state, conversation_id, Ok(detail), now);
    let id = detail.summary.id;
    assert(told[0] == PanelEffectView::CacheConversation(
        session_conversation(conversation_id, detail, now),
    ));
    assert(told[1] == (PanelEffectView::ScheduleSessionPoll {
        session_id: id,
        generation: next.poll_generation,
    }));
    assert(told[3] == PanelEffectView::Emit(
        PanelEventView::OpenConversation { conversation_id, session_id: id },
    ));
}

/// A session that was started is listed, shown and opened as a conversation.
pub proof fn law_started_session_is_shown(
    state: PanelView,
    detail: SessionDetailView,
    fresh: AIConversationId,
    now: Timestamp,
    error: Seq<char>,
)
    ensures
        ({
            let (next, told) = session_started(state, Ok(detail), fresh, now);
            let id = detail.summary.id;
            &&& next.active_session == Some(detail)
            &&& next.status is Connected
            &&& next.conversations.contains_key(id)
            &&& next.session_ids.contains_pair(next.conversations[id], id)
            &&& told.contains(
                PanelEffectView::CacheConversation(
                    session_conversation(next.conversations[id], detail, now),
                ),
            )
            &&& told.contains(
                PanelEffectView::Emit(
                    PanelEventView::OpenConversation {
                        conversation_id: next.conversations[id],
                        session_id: id,
                    },
                ),
            )
            &&& (session_position(state.sessions, id) is None ==> next.sessions.to_multiset()
                == state.sessions.push(detail.summary).to_multiset())
        }),
        session_started(state, Err(error), fresh, now).0.status == (
        ServerStatusView::Disconnected { message: error }),
        session_started(state, Err(error), fresh, now).0.sessions == state.sessions,
{
    let (next, told) = session_started(state, Ok(detail), fresh, now);
    let id = detail.summary.id;
    assert(told[0] == PanelEffectView::CacheConversation(
        session_conversation(next.conversations[id], detail, now),
    ));
    assert(told[5] == PanelEffectView::Emit(
        PanelEventView::OpenConversation {
            conversation_id: next.conversations[id],
            session_id: id,
        },
    ));
    law_session_is_brought_up_to_date(state.path_style, state.sessions, detail.summary);
}

/// The requests of a session are those that the server lists for it; those of other sessions are not
/// shown.
pub proof fn law_pending_requests_are_shown(
    state: PanelView,
    session_id: Seq<char>,
    permissions: Seq<PermissionView>,
    questions: Seq<PendingQuestionView>,
)
    ensures
        ({
            let next = pending_applied(state, session_id, permissions, questions).0;
            &&& next.permissions == permissions.filter(
                |p: PermissionView| p.session_id == session_id,
            )
            &&& next.questions == questions.filter(
                |q: PendingQuestionView| q.session_id == session_id,
            )
            &&& next.active_session == state.active_session
            &&& next.sessions == state.sessions
        }),
{
    law_requests_told_apart::<OpenCodePendingPermission>(permissions, session_id);
    law_requests_told_apart::<OpenCodePendingQuestion>(questions, session_id);
    assert((|r: PermissionView| <OpenCodePendingPermission as Pending>::session_of(r) == session_id)
        =~= (|p: PermissionView| p.session_id == session_id));
    assert((
        |r: PendingQuestionView| <OpenCodePendingQuestion as Pending>::session_of(r) == session_id
    )
        =~= (|q: PendingQuestionView| q.session_id == session_id));
}

/// When a session is done with, its requests go and those of the other sessions stay.
pub proof fn law_other_sessions_requests_stay(state: PanelView, session_id: Seq<char>)
    ensures
        ({
            let next = pending_cleared(state, session_id).0;
            &&& next.permissions == state.permissions.filter(
                |p: PermissionView| p.session_id != session_id,
            )
            &&& next.questions == state.questions.filter(
                |q: PendingQuestionView| q.session_id != session_id,
            )
        }),
{
    law_requests_told_apart::<OpenCodePendingPermission>(state.permissions, session_id);
    law_requests_told_apart::<OpenCodePendingQuestion>(state.questions, session_id);
    assert((|r: PermissionView| <OpenCodePendingPermission as Pending>::session_of(r) != session_id)
        =~= (|p: PermissionView| p.session_id != session_id));
    assert((
        |r: PendingQuestionView| <OpenCodePendingQuestion as Pending>::session_of(r) != session_id
    )
        =~= (|q: PendingQuestionView| q.session_id != session_id));
}

/// Requests are looked for again exactly where the session's prompt runs or it still asks something,
/// in the session's directory.
pub proof fn law_requests_are_looked_for(
    state: PanelView,
    session_id: Seq<char>,
    generation: u64,
    settings: OpenCodeServerSettings,
    config: ServerConfigView,
)
    requires
        configured(settings) == Ok::<ServerConfigView, ServerErrorView>(config),
    ensures
        state.pending_generation != generation ==> pending_poll_due(
            state,
            session_id,
            generation,
            settings,
        ).len() == 0,
        state.pending_generation == generation && state.local_turn_session_id == Some(session_id)
            ==> pending_poll_due(state, session_id, generation, settings) == seq![
            PanelEffectView::ListPendingRequests {
                config,
                directory: state.directory_of(session_id),
                session_id,
                generation,
            },
        ],
        state.local_turn_session_id != Some(session_id) && state.permissions.len() == 0
            && state.questions.len() == 0 ==> pending_poll_due(
            state,
            session_id,
            generation,
            settings,
        ).len() == 0,
{
}

/// A session that was read again is shown as it was read, unless that is what is shown; it is listed
/// either way.
pub proof fn law_session_read_again(state: PanelView, detail: SessionDetailView, now: Timestamp)
    ensures
        ({
            let next = session_detail_applied(state, detail, now).0;
            &&& (next.active_session matches Some(shown) && (shown == detail
                || state.active_session == Some(shown) && shown.says_same(
                state.path_style,
                detail,
            )))
            &&& next.conversations == state.conversations
            &&& next.status == state.status
            &&& (session_position(state.sessions, detail.summary.id) is None
                ==> next.sessions.to_multiset() == state.sessions.push(
                detail.summary,
            ).to_multiset())
        }),
        state.active_session is None && state.conversations.contains_key(detail.summary.id)
            ==> session_detail_applied(state, detail, now).1.contains(
            PanelEffectView::RefreshConversation(
                session_conversation(state.conversations[detail.summary.id], detail, now),
            ),
        ),
{
    law_session_is_brought_up_to_date(state.path_style, state.sessions, detail.summary);
    if state.active_session is None && state.conversations.contains_key(detail.summary.id) {
        assert(session_detail_applied(state, detail, now).1[0]
            == PanelEffectView::RefreshConversation(
            session_conversation(state.conversations[detail.summary.id], detail, now),
        ));
    }
}

/// A session is read again exactly where it is still shown and no prompt of it runs; while one runs,
/// it is put off.
pub proof fn law_session_is_read_again(
    state: PanelView,
    session_id: Seq<char>,
    generation: u64,
    settings: OpenCodeServerSettings,
    session: SessionDetailView,
)
    requires
        settings.enabled,
        configured(settings) is Ok,
        state.active_session == Some(session),
    ensures
        ({
            let told = session_poll_due(state, session_id, generation, settings).1;
            let shown = session.summary.id == session_id && state.poll_generation == generation;
            &&& (!shown ==> told.len() == 0)
            &&& (shown && state.local_turn_session_id == Some(session_id) ==> told == seq![
                PanelEffectView::ScheduleSessionPoll { session_id, generation },
            ])
            &&& (shown && state.local_turn_session_id != Some(session_id) ==> told == seq![
                PanelEffectView::ReadSession {
                    config: configured(settings)->Ok_0,
                    session_id,
                    fallback_summary: Some(session.summary),
                    purpose: SessionReadPurpose::Poll { generation },
                },
            ])
            &&& session_poll_due(state, session_id, generation, settings).0 == state
        }),
{
}

/// A prompt of a conversation is planned for its session, in that session's directory; without a
/// session or right settings none is.
pub proof fn law_session_prompt_is_planned(
    state: PanelView,
    conversation_id: AIConversationId,
    prompt: Seq<char>,
    settings: OpenCodeServerSettings,
)
    ensures
        session_prompt_planned(state, conversation_id, prompt, settings).2 is Some
            <==> state.session_ids.contains_key(conversation_id) && configured(settings) is Ok,
        session_prompt_planned(state, conversation_id, prompt, settings).2 matches Some(plan) ==> {
            &&& plan.session_id == state.session_ids[conversation_id]
            &&& plan.prompt == prompt
            &&& configured(settings) == Ok::<ServerConfigView, ServerErrorView>(plan.config)
            &&& plan.fallback_summary == state.known_summary(plan.session_id)
            &&& (state.known_summary(plan.session_id) matches Some(summary)
                ==> plan.working_directory == summary.directory)
        },
{
}

/// A prompt is sent to its session as it is, with the chosen model.
pub proof fn law_session_prompt_is_sent(
    state: PanelView,
    plan: PromptPlanView,
    context: OpenCodeTurnContext,
    settings: OpenCodeServerSettings,
)
    ensures
        session_prompt_sent(state, plan, context, settings).0.local_turn_session_id == Some(
            plan.session_id,
        ),
        session_prompt_sent(state, plan, context, settings).0.pending_generation
            != state.pending_generation,
        session_prompt_sent(state, plan, context, settings).1.contains(
            PanelEffectView::PromptSession {
                config: plan.config,
                session_id: plan.session_id,
                fallback_summary: plan.fallback_summary,
                prompt: plan.prompt,
                selected_model: state.selected_model(),
                context,
            },
        ),
{
    let told = session_prompt_sent(state, plan, context, settings).1;
    assert(told[told.len() - 1] == (PanelEffectView::PromptSession {
        config: plan.config,
        session_id: plan.session_id,
        fallback_summary: plan.fallback_summary,
        prompt: plan.prompt,
        selected_model: state.selected_model(),
        context,
    }));
}

/// The answer to a prompt is its text, or that there is none; an error is told as one.
pub proof fn law_answer_or_error(
    result: Result<PromptResultView, Seq<char>>,
    prompt: Seq<char>,
)
    ensures
        result matches Err(error) ==> shown_answer(result, prompt) == "OpenCode server error: "@
            + error,
        result matches Ok(answer) ==> (!is_blank(
            prompt_answer(answer.output_items, answer.detail, prompt),
        ) ==> shown_answer(result, prompt) == prompt_answer(
            answer.output_items,
            answer.detail,
            prompt,
        )),
        result matches Ok(answer) ==> (is_blank(
            prompt_answer(answer.output_items, answer.detail, prompt),
        ) ==> shown_answer(result, prompt) == "OpenCode returned no response text."@),
{
}

/// The answer to a prompt is the exchange's, in error exactly where the prompt failed; it comes last
/// in the session that is shown, and the session's prompt runs no more.
pub proof fn law_answered_prompt(
    state: PanelView,
    session_id: Seq<char>,
    context: OpenCodeTurnContext,
    prompt: Seq<char>,
    result: Result<PromptResultView, Seq<char>>,
    now: Timestamp,
)
    ensures
        ({
            let (next, told) = session_prompt_finished(
                state,
                session_id,
                context,
                prompt,
                result,
                now,
            );
            &&& next.local_turn_session_id is None
            &&& told.contains(
                PanelEffectView::UpdateExchange {
                    context,
                    output_text: shown_answer(result, prompt),
                    is_error: result is Err,
                },
            )
            &&& told.contains(
                PanelEffectView::ScheduleSessionPoll {
                    session_id,
                    generation: next.poll_generation,
                },
            )
            &&& (next.is_active(session_id) ==> next.active_session->0.items.len() > 0
                && next.active_session->0.items.last() == (MessageView {
                role: if result is Err {
                    "error"@
                } else {
                    "assistant"@
                },
                text: shown_answer(result, prompt),
            }))
        }),
        result is Err && state.is_active(session_id) ==> session_prompt_finished(
            state,
            session_id,
            context,
            prompt,
            result,
            now,
        ).0.active_session->0.items.drop_last() == state.active_session->0.items,
{
    let (next, told) = session_prompt_finished(state, session_id, context, prompt, result, now);
    let (cleared, told_cleared) = pending_cleared(
        PanelView { local_turn_session_id: None, ..state },
        session_id,
    );
    let (applied, told_applied) = match result {
        Ok(result) => match result.detail {
            Some(detail) => session_detail_applied(cleared, detail, now),
            None => (cleared, Seq::empty()),
        },
        Err(_) => (cleared, Seq::empty()),
    };
    let n = (told_cleared + told_applied).len() as int;
    assert(told[n] == (PanelEffectView::ScheduleSessionPoll {
        session_id,
        generation: next.poll_generation,
    }));
    assert(told[n + 1] == (PanelEffectView::UpdateExchange {
        context,
        output_text: shown_answer(result, prompt),
        is_error: result is Err,
    }));
    if result is Err && state.is_active(session_id) {
        assert(next.active_session->0.items.drop_last() =~= state.active_session->0.items);
    }
}

/// The user's reply to a request for permission is sent for that request, to its session's
/// directory, and the request goes; a request that is not there is not replied to.
pub proof fn law_permission_is_replied_to(
    state: PanelView,
    request_id: Seq<char>,
    reply: OpenCodePermissionReply,
    settings: OpenCodeServerSettings,
    config: ServerConfigView,
    i: int,
)
    requires
        configured(settings) == Ok::<ServerConfigView, ServerErrorView>(config),
    ensures
        (forall|j: int|
            0 <= j < state.permissions.len() ==> (#[trigger] state.permissions[j]).id
                != request_id) ==> permission_resolved(state, request_id, reply, settings) == (
            state,
            Seq::<PanelEffectView>::empty(),
        ),
        0 <= i < state.permissions.len() && state.permissions[i].id == request_id ==> {
            let (next, told) = permission_resolved(state, request_id, reply, settings);
            &&& next.permissions == state.permissions.filter(
                |p: PermissionView| p.id != request_id,
            )
            &&& exists|k: int|
                0 <= k < state.permissions.len() && (#[trigger] state.permissions[k]).id
                    == request_id && told.contains(
                    PanelEffectView::ReplyPermission {
                        config,
                        request_id,
                        directory: state.directory_of(state.permissions[k].session_id),
                        reply,
                    },
                )
        },
{
    law_first_request::<OpenCodePendingPermission>(state.permissions, request_id);
    law_other_requests_stay::<OpenCodePendingPermission>(state.permissions, request_id);
    assert((|r: PermissionView| <OpenCodePendingPermission as Pending>::request_of(r) != request_id)
        =~= (|p: PermissionView| p.id != request_id));
    match request_with_id::<OpenCodePendingPermission>(state.permissions, request_id) {
        Some(permission) => {
            let (next, told) = permission_resolved(state, request_id, reply, settings);
            let k = choose|k: int| 0 <= k < state.permissions.len() && state.permissions[k]
                == permission;
            assert(state.permissions[k].id == request_id);
            assert(told[1] == (PanelEffectView::ReplyPermission {
                config,
                request_id,
                directory: state.directory_of(state.permissions[k].session_id),
                reply,
            }));
        },
        None => {
            if 0 <= i < state.permissions.len() {
                assert(<OpenCodePendingPermission as Pending>::request_of(
                    state.permissions[i]
                ) != request_id);
            }
        },
    }
}

/// The user's answers to questions are sent for that request, to its session's directory, or the
/// request is refused where there are none; the request goes, and no other.
pub proof fn law_questions_are_answered(
    state: PanelView,
    request_id: Seq<char>,
    answers: Option<Seq<Seq<Seq<char>>>>,
    settings: OpenCodeServerSettings,
    config: ServerConfigView,
    i: int,
)
    requires
        configured(settings) == Ok::<ServerConfigView, ServerErrorView>(config),
        0 <= i < state.questions.len(),
        state.questions[i].id == request_id,
    ensures
        ({
            let (next, told) = question_settled(state, request_id, answers, settings);
            &&& next.questions == state.questions.filter(
                |q: PendingQuestionView| q.id != request_id,
            )
            &&& exists|k: int|
                0 <= k < state.questions.len() && (#[trigger] state.questions[k]).id
                    == request_id && told.contains(
                    match answers {
                        Some(answers) => PanelEffectView::ReplyQuestion {
                            config,
                            request_id,
                            directory: state.directory_of(state.questions[k].session_id),
                            answers,
                        },
                        None => PanelEffectView::RejectQuestion {
                            config,
                            request_id,
                            directory: state.directory_of(state.questions[k].session_id),
                        },
                    },
                )
        }),
{
    law_first_request::<OpenCodePendingQuestion>(state.questions, request_id);
    law_other_requests_stay::<OpenCodePendingQuestion>(state.questions, request_id);
    assert((
        |r: PendingQuestionView| <OpenCodePendingQuestion as Pending>::request_of(r) != request_id
    )
        =~= (|q: PendingQuestionView| q.id != request_id));
    assert(<OpenCodePendingQuestion as Pending>::request_of(state.questions[i]) == request_id);
    let question = request_with_id::<OpenCodePendingQuestion>(state.questions, request_id)->0;
    let (next, told) = question_settled(state, request_id, answers, settings);
    let k = choose|k: int| 0 <= k < state.questions.len() && state.questions[k] == question;
    assert(state.questions[k].id == request_id);
    assert(told[1] == told[1]);
    assert(told.contains(told[1]));
}

} // verus!
