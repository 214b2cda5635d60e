//! The state behind the OpenCode panel, and how events change it.
//!
//! Talking to the server and to the conversation history happens elsewhere: each transition gives
//! the next state and, in order, what has to be done outside.
use crate::codex_app_server::model::next_generation;
use crate::conversation::AIConversationId;
use crate::opencode_server::address::{
    ServerConfigView, ServerErrorView, server_config, server_error_message,
};
use crate::opencode_server::catalog::{is_new_summary, session_with_id, with_summary};
use crate::opencode_server::effect::{
    OpenCodeServerSettings, OpenCodeTurnContext, PanelEffectView, PanelEventView,
    SessionReadPurpose,
};
use crate::opencode_server::history::{prompt_answer, session_conversation};
use crate::opencode_server::pending::{
    first_of_session, request_with_id, sorted_out, without_request,
};
use crate::opencode_server::types::{
    MessageView, ModelInfoView, OpenCodePendingPermission, OpenCodePendingQuestion,
    OpenCodePermissionReply, PendingQuestionView, PermissionView, ServerStatusView,
    SessionDetailView, SessionView,
};
use crate::path::PathStyle;
use crate::text::{is_blank, views};
use crate::time::Timestamp;
use vstd::prelude::*;

verus! {

/// The state of the panel.
pub struct PanelView {
    pub status: ServerStatusView,
    pub sessions: Seq<SessionView>,
    pub active_session: Option<SessionDetailView>,
    pub local_turn_session_id: Option<Seq<char>>,
    pub permissions: Seq<PermissionView>,
    pub questions: Seq<PendingQuestionView>,
    pub pending_generation: u64,
    pub models: Seq<ModelInfoView>,
    pub selected_model_id: Option<Seq<char>>,
    pub project_roots: Seq<Seq<char>>,
    pub path_style: PathStyle,
    pub opening_session_id: Option<Seq<char>>,
    pub poll_generation: u64,
    pub conversations: Map<Seq<char>, AIConversationId>,
    pub session_ids: Map<AIConversationId, Seq<char>>,
}

/// The configuration that the settings stand for.
pub open spec fn configured(settings: OpenCodeServerSettings) -> Result<
    ServerConfigView,
    ServerErrorView,
> {
    server_config(settings.server_url@, settings.username@, settings.password@)
}

/// The first model with an identifier.
pub open spec fn model_named(models: Seq<ModelInfoView>, id: Seq<char>) -> Option<ModelInfoView>
    decreases models.len(),
{
    if models.len() == 0 {
        None
    } else if models[0].id == id {
        Some(models[0])
    } else {
        model_named(models.skip(1), id)
    }
}

impl PanelView {
    /// Nothing is known, and the integration is off.
    pub open spec fn initial(path_style: PathStyle) -> PanelView {
        PanelView {
            status: ServerStatusView::Disabled,
            sessions: Seq::empty(),
            active_session: None,
            local_turn_session_id: None,
            permissions: Seq::empty(),
            questions: Seq::empty(),
            pending_generation: 0,
            models: Seq::empty(),
            selected_model_id: None,
            project_roots: Seq::empty(),
            path_style,
            opening_session_id: None,
            poll_generation: 0,
            conversations: Map::empty(),
            session_ids: Map::empty(),
        }
    }

    /// Polls of the active session that were scheduled before will not be carried out.
    pub open spec fn stop_polling(self) -> PanelView {
        PanelView { poll_generation: next_generation(self.poll_generation), ..self }
    }

    /// The server cannot be used, for the given reason.
    pub open spec fn disconnected(self, message: Seq<char>) -> PanelView {
        PanelView { status: ServerStatusView::Disconnected { message }, ..self }
    }

    /// What the server told is dropped.
    pub open spec fn without_server_data(self) -> PanelView {
        PanelView {
            sessions: Seq::empty(),
            active_session: None,
            local_turn_session_id: None,
            permissions: Seq::empty(),
            questions: Seq::empty(),
            models: Seq::empty(),
            ..self.stop_polling()
        }
    }

    /// No session is open.
    pub open spec fn without_open_session(self) -> PanelView {
        PanelView { active_session: None, local_turn_session_id: None, ..self.stop_polling() }
    }

    /// The active session is the one with the identifier.
    pub open spec fn is_active(self, session_id: Seq<char>) -> bool {
        match self.active_session {
            Some(session) => session.summary.id == session_id,
            None => false,
        }
    }

    /// What is known of a session: of the active one first, else of the listed one.
    pub open spec fn known_summary(self, session_id: Seq<char>) -> Option<SessionView> {
        if self.is_active(session_id) {
            Some(self.active_session->0.summary)
        } else {
            session_with_id(self.sessions, session_id)
        }
    }

    /// The directory of a session: of the active one, where it has one, else of the listed one.
    pub open spec fn directory_of(self, session_id: Seq<char>) -> Option<Seq<char>> {
        if self.is_active(session_id) && self.active_session->0.summary.directory is Some {
            self.active_session->0.summary.directory
        } else {
            match session_with_id(self.sessions, session_id) {
                Some(session) => session.directory,
                None => None,
            }
        }
    }

    /// The model that prompts go to.
    pub open spec fn selected_model(self) -> Option<(Seq<char>, Seq<char>)> {
        match self.selected_model_id {
            Some(id) => match model_named(self.models, id) {
                Some(model) => Some((model.provider_id, model.model_id)),
                None => None,
            },
            None => None,
        }
    }

    /// A poll of a session that was scheduled with a generation is still wanted.
    pub open spec fn wants_poll(self, session_id: Seq<char>, generation: u64) -> bool {
        self.poll_generation == generation && self.is_active(session_id)
    }

    /// A poll for requests that was scheduled with a generation is still wanted: a turn of the
    /// session is under way, or a request of it waits.
    pub open spec fn wants_pending_poll(self, session_id: Seq<char>, generation: u64) -> bool {
        self.pending_generation == generation && (self.local_turn_session_id == Some(session_id)
            || first_of_session::<OpenCodePendingPermission>(self.permissions, session_id) is Some
            || first_of_session::<OpenCodePendingQuestion>(self.questions, session_id) is Some)
    }

    /// A conversation mirrors a session.
    pub open spec fn linked(
        self,
        conversation_id: AIConversationId,
        session_id: Seq<char>,
    ) -> PanelView {
        PanelView {
            conversations: self.conversations.insert(session_id, conversation_id),
            session_ids: self.session_ids.insert(conversation_id, session_id),
            ..self
        }
    }

    /// The conversation that mirrors a session, or a fresh one.
    pub open spec fn conversation_for(
        self,
        session_id: Seq<char>,
        fresh: AIConversationId,
    ) -> AIConversationId {
        match self.conversations.get(session_id) {
            Some(id) => id,
            None => fresh,
        }
    }
}

/// The events that tell of a change of everything.
pub open spec fn everything_changed() -> Seq<PanelEffectView> {
    seq![
        PanelEffectView::Emit(PanelEventView::StatusChanged),
        PanelEffectView::Emit(PanelEventView::SessionsChanged),
        PanelEffectView::Emit(PanelEventView::ActiveSessionChanged),
        PanelEffectView::Emit(PanelEventView::PendingRequestsChanged),
        PanelEffectView::Emit(PanelEventView::ModelsChanged),
    ]
}

/// A request that could not be carried out.
pub open spec fn panel_failed(state: PanelView, error: Seq<char>) -> (
    PanelView,
    Seq<PanelEffectView>,
) {
    (state.disconnected(error), seq![PanelEffectView::Emit(PanelEventView::StatusChanged)])
}

/// The state and the effects of an action that needs the server: off, nothing happens; with
/// settings that are of no use, the status says so.
pub open spec fn when_configured(
    state: PanelView,
    settings: OpenCodeServerSettings,
    outcome: (PanelView, Seq<PanelEffectView>),
) -> (PanelView, Seq<PanelEffectView>) {
    if !settings.enabled {
        (state, Seq::empty())
    } else {
        match configured(settings) {
            Err(error) => panel_failed(state, server_error_message(error)),
            Ok(_) => outcome,
        }
    }
}

/// Looking at the server afresh.
pub open spec fn panel_refreshed(state: PanelView, settings: OpenCodeServerSettings) -> (
    PanelView,
    Seq<PanelEffectView>,
) {
    if !settings.enabled {
        (
            PanelView {
                status: ServerStatusView::Disabled,
                selected_model_id: None,
                opening_session_id: None,
                conversations: Map::empty(),
                session_ids: Map::empty(),
                ..state.without_server_data()
            },
            everything_changed(),
        )
    } else {
        match configured(settings) {
            Err(error) => (
                PanelView {
                    opening_session_id: None,
                    ..state.without_server_data().disconnected(server_error_message(error))
                },
                everything_changed(),
            ),
            Ok(config) => (
                PanelView { status: ServerStatusView::Loading, ..state },
                seq![
                    PanelEffectView::Emit(PanelEventView::StatusChanged),
                    PanelEffectView::ListSessions {
                        config,
                        project_roots: state.project_roots,
                        imported_project_paths: views(settings.imported_project_paths@),
                    },
                ],
            ),
        }
    }
}

/// The server's lists arrived, or failed to. A selected model that is no longer offered is
/// deselected.
pub open spec fn panel_refresh_finished(
    state: PanelView,
    result: Result<(Seq<SessionView>, Seq<ModelInfoView>), Seq<char>>,
) -> (PanelView, Seq<PanelEffectView>) {
    match result {
        Ok((sessions, models)) => (
            PanelView {
                status: ServerStatusView::Connected,
                sessions,
                models,
                selected_model_id: match state.selected_model_id {
                    Some(id) => if model_named(models, id) is Some {
                        Some(id)
                    } else {
                        None
                    },
                    None => None,
                },
                ..state
            },
            seq![
                PanelEffectView::Emit(PanelEventView::SessionsChanged),
                PanelEffectView::Emit(PanelEventView::ModelsChanged),
                PanelEffectView::Emit(PanelEventView::StatusChanged),
            ],
        ),
        Err(error) => (
            state.without_server_data().disconnected(error),
            seq![
                PanelEffectView::Emit(PanelEventView::SessionsChanged),
                PanelEffectView::Emit(PanelEventView::ActiveSessionChanged),
                PanelEffectView::Emit(PanelEventView::PendingRequestsChanged),
                PanelEffectView::Emit(PanelEventView::ModelsChanged),
                PanelEffectView::Emit(PanelEventView::StatusChanged),
            ],
        ),
    }
}

/// A poll of the session is scheduled; earlier ones will not be carried out.
pub open spec fn session_polling_started(state: PanelView, session_id: Seq<char>) -> (
    PanelView,
    PanelEffectView,
) {
    let next = state.stop_polling();
    (
        next,
        PanelEffectView::ScheduleSessionPoll { session_id, generation: next.poll_generation },
    )
}

/// The user opens a session as a conversation.
pub open spec fn session_opened(
    state: PanelView,
    session_id: Seq<char>,
    fresh: AIConversationId,
    settings: OpenCodeServerSettings,
) -> (PanelView, Seq<PanelEffectView>) {
    let conversation_id = state.conversation_for(session_id, fresh);
    when_configured(
        state,
        settings,
        (
            PanelView {
                opening_session_id: Some(session_id),
                ..state.linked(conversation_id, session_id).without_open_session()
            },
            seq![
                PanelEffectView::Emit(PanelEventView::ActiveSessionChanged),
                PanelEffectView::ReadSession {
                    config: configured(settings)->Ok_0,
                    session_id,
                    fallback_summary: session_with_id(state.sessions, session_id),
                    purpose: SessionReadPurpose::OpenAsConversation { conversation_id },
                },
            ],
        ),
    )
}

/// The session of a conversation was read, or could not be.
pub open spec fn session_open_finished(
    state: PanelView,
    conversation_id: AIConversationId,
    result: Result<SessionDetailView, Seq<char>>,
    now: Timestamp,
) -> (PanelView, Seq<PanelEffectView>) {
    let closed = PanelView { opening_session_id: None, ..state };
    match result {
        Ok(detail) => {
            let id = detail.summary.id;
            let (next, poll) = session_polling_started(
                PanelView { active_session: Some(detail), ..closed.linked(conversation_id, id) },
                id,
            );
            (
                next,
                seq![
                    PanelEffectView::CacheConversation(
                        session_conversation(conversation_id, detail, now),
                    ),
                    poll,
                    PanelEffectView::Emit(PanelEventView::ActiveSessionChanged),
                    PanelEffectView::Emit(
                        PanelEventView::OpenConversation { conversation_id, session_id: id },
                    ),
                ],
            )
        },
        Err(error) => (
            closed.disconnected(error),
            seq![
                PanelEffectView::Emit(PanelEventView::StatusChanged),
                PanelEffectView::Emit(PanelEventView::ActiveSessionChanged),
            ],
        ),
    }
}

/// The user starts a new conversation.
pub open spec fn session_requested(state: PanelView, settings: OpenCodeServerSettings) -> (
    PanelView,
    Seq<PanelEffectView>,
) {
    when_configured(
        state,
        settings,
        (
            state.without_open_session(),
            seq![
                PanelEffectView::Emit(PanelEventView::ActiveSessionChanged),
                PanelEffectView::CreateSession {
                    config: configured(settings)->Ok_0,
                    project_roots: state.project_roots,
                    imported_project_paths: views(settings.imported_project_paths@),
                },
            ],
        ),
    )
}

/// A new session was started, or could not be.
pub open spec fn session_started(
    state: PanelView,
    result: Result<SessionDetailView, Seq<char>>,
    fresh: AIConversationId,
    now: Timestamp,
) -> (PanelView, Seq<PanelEffectView>) {
    match result {
        Ok(detail) => {
            let id = detail.summary.id;
            let conversation_id = state.conversation_for(id, fresh);
            let (next, poll) = session_polling_started(
                PanelView {
                    sessions: with_summary(state.path_style, state.sessions, detail.summary),
                    active_session: Some(detail),
                    status: ServerStatusView::Connected,
                    ..state.linked(conversation_id, id)
                },
                id,
            );
            (
                next,
                seq![
                    PanelEffectView::CacheConversation(
                        session_conversation(conversation_id, detail, now),
                    ),
                    poll,
                    PanelEffectView::Emit(PanelEventView::SessionsChanged),
                    PanelEffectView::Emit(PanelEventView::ActiveSessionChanged),
                    PanelEffectView::Emit(PanelEventView::StatusChanged),
                    PanelEffectView::Emit(
                        PanelEventView::OpenConversation { conversation_id, session_id: id },
                    ),
                ],
            )
        },
        Err(error) => (
            state.disconnected(error),
            seq![
                PanelEffectView::Emit(PanelEventView::StatusChanged),
                PanelEffectView::Emit(PanelEventView::ActiveSessionChanged),
            ],
        ),
    }
}

/// The requests of a session are looked for, where that is still wanted and the settings are of
/// use.
pub open spec fn pending_poll_due(
    state: PanelView,
    session_id: Seq<char>,
    generation: u64,
    settings: OpenCodeServerSettings,
) -> Seq<PanelEffectView> {
    if state.wants_pending_poll(session_id, generation) {
        match configured(settings) {
            Ok(config) => seq![
                PanelEffectView::ListPendingRequests {
                    config,
                    directory: state.directory_of(session_id),
                    session_id,
                    generation,
                },
            ],
            Err(_) => Seq::empty(),
        }
    } else {
        Seq::empty()
    }
}

/// What was found to wait for the user is shown: that of the session.
pub open spec fn pending_applied(
    state: PanelView,
    session_id: Seq<char>,
    permissions: Seq<PermissionView>,
    questions: Seq<PendingQuestionView>,
) -> (PanelView, Seq<PanelEffectView>) {
    let own_permissions = sorted_out::<OpenCodePendingPermission>(permissions, session_id, true);
    let own_questions = sorted_out::<OpenCodePendingQuestion>(questions, session_id, true);
    if state.permissions == own_permissions && state.questions == own_questions {
        (state, Seq::empty())
    } else {
        (
            PanelView { permissions: own_permissions, questions: own_questions, ..state },
            seq![PanelEffectView::Emit(PanelEventView::PendingRequestsChanged)],
        )
    }
}

/// A look for requests is over. The next one is scheduled as long as one is wanted.
pub open spec fn pending_poll_finished(
    state: PanelView,
    session_id: Seq<char>,
    generation: u64,
    result: Result<(Seq<PermissionView>, Seq<PendingQuestionView>), Seq<char>>,
) -> (PanelView, Seq<PanelEffectView>) {
    if !state.wants_pending_poll(session_id, generation) {
        (state, Seq::empty())
    } else {
        let (shown, told) = match result {
            Ok((permissions, questions)) => pending_applied(
                state,
                session_id,
                permissions,
                questions,
            ),
            Err(_) => (state, Seq::empty()),
        };
        (
            shown,
            told + (if shown.wants_pending_poll(session_id, generation) {
                seq![PanelEffectView::SchedulePendingPoll { session_id, generation }]
            } else {
                Seq::empty()
            }),
        )
    }
}

/// Nothing of the session waits for the user any more.
pub open spec fn pending_cleared(state: PanelView, session_id: Seq<char>) -> (
    PanelView,
    Seq<PanelEffectView>,
) {
    let permissions = sorted_out::<OpenCodePendingPermission>(
        state.permissions,
        session_id,
        false,
    );
    let questions = sorted_out::<OpenCodePendingQuestion>(state.questions, session_id, false);
    (
        PanelView { permissions, questions, ..state },
        if permissions.len() != state.permissions.len() || questions.len()
            != state.questions.len() {
            seq![PanelEffectView::Emit(PanelEventView::PendingRequestsChanged)]
        } else {
            Seq::empty()
        },
    )
}

/// What was read of the active session is shown.
pub open spec fn session_detail_applied(
    state: PanelView,
    detail: SessionDetailView,
    now: Timestamp,
) -> (PanelView, Seq<PanelEffectView>) {
    let told: Seq<PanelEffectView> = if is_new_summary(
        state.path_style,
        state.sessions,
        detail.summary,
    ) {
        seq![PanelEffectView::Emit(PanelEventView::SessionsChanged)]
    } else {
        Seq::empty()
    };
    let listed = PanelView { sessions: with_summary(
        state.path_style,
        state.sessions,
        detail.summary,
    ), ..state };
    let shown = match state.active_session {
        Some(active) => active.says_same(state.path_style, detail),
        None => false,
    };
    if shown {
        (listed, told)
    } else {
        (
            PanelView { active_session: Some(detail), ..listed },
            (match state.conversations.get(detail.summary.id) {
                Some(id) => seq![
                    PanelEffectView::RefreshConversation(session_conversation(id, detail, now)),
                ],
                None => Seq::empty(),
            }) + seq![PanelEffectView::Emit(PanelEventView::ActiveSessionChanged)] + told,
        )
    }
}

/// A scheduled poll of the active session is due.
pub open spec fn session_poll_due(
    state: PanelView,
    session_id: Seq<char>,
    generation: u64,
    settings: OpenCodeServerSettings,
) -> (PanelView, Seq<PanelEffectView>) {
    if !state.wants_poll(session_id, generation) {
        (state, Seq::empty())
    } else if state.local_turn_session_id == Some(session_id) {
        (state, seq![PanelEffectView::ScheduleSessionPoll { session_id, generation }])
    } else {
        when_configured(
            state,
            settings,
            (
                state,
                seq![
                    PanelEffectView::ReadSession {
                        config: configured(settings)->Ok_0,
                        session_id,
                        fallback_summary: state.known_summary(session_id),
                        purpose: SessionReadPurpose::Poll { generation },
                    },
                ],
            ),
        )
    }
}

/// A poll of the active session is over. The next one is scheduled as long as the session stays
/// active.
pub open spec fn session_poll_finished(
    state: PanelView,
    session_id: Seq<char>,
    generation: u64,
    result: Result<SessionDetailView, Seq<char>>,
    now: Timestamp,
) -> (PanelView, Seq<PanelEffectView>) {
    if !state.wants_poll(session_id, generation) {
        (state, Seq::empty())
    } else {
        let (shown, told) = match result {
            Ok(detail) => session_detail_applied(state, detail, now),
            Err(_) => (state, Seq::empty()),
        };
        (
            shown,
            told + (if shown.wants_poll(session_id, generation) {
                seq![PanelEffectView::ScheduleSessionPoll { session_id, generation }]
            } else {
                Seq::empty()
            }),
        )
    }
}

/// A prompt for a conversation's session, ready to be sent once the exchange that shows it exists.
pub struct PromptPlanView {
    pub config: ServerConfigView,
    pub session_id: Seq<char>,
    pub fallback_summary: Option<SessionView>,
    pub prompt: Seq<char>,
    pub working_directory: Option<Seq<char>>,
}

/// What becomes of a prompt for a conversation: the plan to send it, where the conversation mirrors
/// a session and the settings are of use.
pub open spec fn session_prompt_planned(
    state: PanelView,
    conversation_id: AIConversationId,
    prompt: Seq<char>,
    settings: OpenCodeServerSettings,
) -> (PanelView, Seq<PanelEffectView>, Option<PromptPlanView>) {
    match state.session_ids.get(conversation_id) {
        Some(session_id) => match configured(settings) {
            Err(error) => {
                let (next, told) = panel_failed(state, server_error_message(error));
                (next, told, None)
            },
            Ok(config) => {
                let fallback_summary = state.known_summary(session_id);
                (
                    state,
                    Seq::empty(),
                    Some(
                        PromptPlanView {
                            config,
                            session_id,
                            fallback_summary,
                            prompt,
                            working_directory: match fallback_summary {
                                Some(summary) => summary.directory,
                                None => None,
                            },
                        },
                    ),
                )
            },
        },
        None => (state, Seq::empty(), None),
    }
}

/// A planned prompt is sent; the session's requests are looked for while it is answered.
pub open spec fn session_prompt_sent(
    state: PanelView,
    plan: PromptPlanView,
    context: OpenCodeTurnContext,
    settings: OpenCodeServerSettings,
) -> (PanelView, Seq<PanelEffectView>) {
    let next = PanelView {
        local_turn_session_id: Some(plan.session_id),
        pending_generation: next_generation(state.pending_generation),
        ..state
    };
    (
        next,
        pending_poll_due(next, plan.session_id, next.pending_generation, settings) + seq![
            PanelEffectView::PromptSession {
                config: plan.config,
                session_id: plan.session_id,
                fallback_summary: plan.fallback_summary,
                prompt: plan.prompt,
                selected_model: state.selected_model(),
                context,
            },
        ],
    )
}

/// What came of a prompt: the server's immediate answer, and the session as it then stood.
pub struct PromptResultView {
    pub output_items: Seq<MessageView>,
    pub detail: Option<SessionDetailView>,
}

/// The text that answers a prompt.
pub open spec fn shown_answer(
    result: Result<PromptResultView, Seq<char>>,
    prompt: Seq<char>,
) -> Seq<char> {
    match result {
        Ok(result) => {
            let text = prompt_answer(result.output_items, result.detail, prompt);
            if is_blank(text) {
                "OpenCode returned no response text."@
            } else {
                text
            }
        },
        Err(error) => "OpenCode server error: "@ + error,
    }
}

/// An item is added to the active session, where it is the one with the identifier.
pub open spec fn with_answer(
    state: PanelView,
    session_id: Seq<char>,
    item: MessageView,
) -> (PanelView, Seq<PanelEffectView>) {
    if state.is_active(session_id) {
        let session = state.active_session->0;
        (
            PanelView {
                active_session: Some(
                    SessionDetailView { items: session.items.push(item), ..session },
                ),
                ..state
            },
            seq![PanelEffectView::Emit(PanelEventView::ActiveSessionChanged)],
        )
    } else {
        (state, Seq::empty())
    }
}

/// A prompt was answered, or could not be.
pub open spec fn session_prompt_finished(
    state: PanelView,
    session_id: Seq<char>,
    context: OpenCodeTurnContext,
    prompt: Seq<char>,
    result: Result<PromptResultView, Seq<char>>,
    now: Timestamp,
) -> (PanelView, Seq<PanelEffectView>) {
    let text = shown_answer(result, prompt);
    let is_error = result is Err;
    let (cleared, told_cleared) = pending_cleared(
        PanelView { local_turn_session_id: None, ..state },
        session_id,
    );
    let (applied, told_applied) = match result {
        Ok(result) => match result.detail {
            Some(detail) => session_detail_applied(cleared, detail, now),
            None => (cleared, Seq::empty()),
        },
        Err(_) => (cleared, Seq::empty()),
    };
    let (polled, poll) = session_polling_started(applied, session_id);
    let (next, told_next) = with_answer(
        polled,
        session_id,
        MessageView {
            role: if is_error {
                "error"@
            } else {
                "assistant"@
            },
            text,
        },
    );
    (
        next,
        told_cleared + told_applied + seq![
            poll,
            PanelEffectView::UpdateExchange { context, output_text: text, is_error },
        ] + told_next,
    )
}

/// The user replies to a request for a permission. A request that does not wait is not replied to.
pub open spec fn permission_resolved(
    state: PanelView,
    request_id: Seq<char>,
    reply: OpenCodePermissionReply,
    settings: OpenCodeServerSettings,
) -> (PanelView, Seq<PanelEffectView>) {
    match (
        request_with_id::<OpenCodePendingPermission>(state.permissions, request_id),
        configured(settings),
    ) {
        (Some(permission), Ok(config)) => (
            PanelView {
                permissions: without_request::<OpenCodePendingPermission>(
                    state.permissions,
                    request_id,
                ),
                ..state
            },
            seq![
                PanelEffectView::Emit(PanelEventView::PendingRequestsChanged),
                PanelEffectView::ReplyPermission {
                    config,
                    request_id,
                    directory: state.directory_of(permission.session_id),
                    reply,
                },
            ],
        ),
        _ => (state, Seq::empty()),
    }
}

/// The user answers questions, or turns them down. Questions that do not wait are not answered.
pub open spec fn question_settled(
    state: PanelView,
    request_id: Seq<char>,
    answers: Option<Seq<Seq<Seq<char>>>>,
    settings: OpenCodeServerSettings,
) -> (PanelView, Seq<PanelEffectView>) {
    match (
        request_with_id::<OpenCodePendingQuestion>(state.questions, request_id),
        configured(settings),
    ) {
        (Some(question), Ok(config)) => (
            PanelView {
                questions: without_request::<OpenCodePendingQuestion>(
                    state.questions,
                    request_id,
                ),
                ..state
            },
            seq![
                PanelEffectView::Emit(PanelEventView::PendingRequestsChanged),
                match answers {
                    Some(answers) => PanelEffectView::ReplyQuestion {
                        config,
                        request_id,
                        directory: state.directory_of(question.session_id),
                        answers,
                    },
                    None => PanelEffectView::RejectQuestion {
                        config,
                        request_id,
                        directory: state.directory_of(question.session_id),
                    },
                },
            ],
        ),
        _ => (state, Seq::empty()),
    }
}

} // verus!
