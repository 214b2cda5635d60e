//! The state behind the Codex panel, and how events change it.
//!
//! Talking to the server and to the conversation history happens elsewhere: each method changes
//! the state and returns, in order, what has to be done outside. What comes of it is handed back to
//! the method whose name begins with `finish_` or `apply_`.
use crate::codex_app_server::address::{
    AddressErrorView, ConfigView, address_error_message, config_of,
};
use crate::codex_app_server::approval::{CodexApprovalDecision, decision_label};
use crate::codex_app_server::catalog::{applies_polled, is_news, thread_position, upserted};
use crate::codex_app_server::effect::{
    CodexAppServerSettings, CodexConversationTurnContext, EffectView, EventView, ReadPurpose,
    StatusView,
};
use crate::codex_app_server::history::conversation_of;
use crate::codex_app_server::prompt::{PromptView, prompt_of, shown_prompt};
use crate::codex_app_server::request::{ApprovalView, CodexPendingApproval};
use crate::codex_app_server::transcript::agent_text;
use crate::codex_app_server::types::{
    CodexConversationItem, CodexThreadDetail, DetailView, ItemView, ModelView, SummaryView,
    item_views, shows_detail,
};
use crate::conversation::AIConversationId;
use crate::json::JsonView;
use crate::path::PathStyle;
use crate::text::{is_blank, views};
use crate::time::Timestamp;
use vstd::prelude::*;

verus! {

/// A turn that waits for the user.
pub struct CodexActiveTurn {
    pub thread_id: String,
    pub client: u64,
    pub pending_approval: CodexPendingApproval,
    pub conversation_context: Option<CodexConversationTurnContext>,
}

/// The model of a `CodexActiveTurn`.
pub struct ActiveTurnView {
    pub thread_id: Seq<char>,
    pub client: u64,
    pub pending_approval: ApprovalView,
    pub conversation_context: Option<CodexConversationTurnContext>,
}

impl CodexActiveTurn {
    pub open spec fn view(&self) -> ActiveTurnView {
        ActiveTurnView {
            thread_id: self.thread_id@,
            client: self.client,
            pending_approval: self.pending_approval@,
            conversation_context: self.conversation_context,
        }
    }
}

/// The model of an optional turn.
pub open spec fn opt_turn_view(turn: Option<CodexActiveTurn>) -> Option<ActiveTurnView> {
    match turn {
        Some(turn) => Some(turn@),
        None => None,
    }
}

/// What came of a turn so far: its items, and the request that it waits for, with the connection
/// on which the server waits.
pub struct CodexTurnProgress {
    pub items: Vec<CodexConversationItem>,
    pub pending: Option<(u64, CodexPendingApproval)>,
}

/// The model of a `CodexTurnProgress`.
pub struct ProgressView {
    pub items: Seq<ItemView>,
    pub pending: Option<(u64, ApprovalView)>,
}

impl CodexTurnProgress {
    pub open spec fn view(&self) -> ProgressView {
        ProgressView {
            items: item_views(self.items@),
            pending: match self.pending {
                Some((client, approval)) => Some((client, approval@)),
                None => None,
            },
        }
    }
}

/// The model of the outcome of a turn.
pub open spec fn progress_view(result: Result<CodexTurnProgress, String>) -> Result<
    ProgressView,
    Seq<char>,
> {
    match result {
        Ok(progress) => Ok(progress@),
        Err(error) => Err(error@),
    }
}

/// The model of the outcome of reading a thread.
pub open spec fn read_result_view(result: Result<CodexThreadDetail, String>) -> Result<
    DetailView,
    Seq<char>,
> {
    match result {
        Ok(detail) => Ok(detail@),
        Err(error) => Err(error@),
    }
}

/// The state of the panel.
pub struct StateView {
    pub status: StatusView,
    pub threads: Seq<SummaryView>,
    pub active_thread: Option<DetailView>,
    pub active_turn: Option<ActiveTurnView>,
    pub local_turn_thread_id: Option<Seq<char>>,
    pub models: Seq<ModelView>,
    pub selected_model_id: Option<Seq<char>>,
    pub project_roots: Seq<Seq<char>>,
    pub path_style: PathStyle,
    pub opening_thread_id: Option<Seq<char>>,
    pub poll_generation: u64,
    pub started_thread: Option<(Seq<char>, u64)>,
    pub conversations: Map<Seq<char>, AIConversationId>,
    pub thread_ids: Map<AIConversationId, Seq<char>>,
}

/// The text "Waiting for Codex..." stands in for an answer that has not come yet.
pub open spec fn waiting_text() -> Seq<char> {
    "Waiting for Codex..."@
}

/// The generation after `g`; the numbers start over behind the last.
pub open spec fn next_generation(g: u64) -> u64 {
    if g == u64::MAX {
        0
    } else {
        (g + 1) as u64
    }
}

/// The configuration that the settings stand for.
pub open spec fn settings_config(settings: CodexAppServerSettings) -> Result<
    ConfigView,
    AddressErrorView,
> {
    config_of(settings.server_url@, settings.bearer_token@)
}

/// One of the models has the identifier.
pub open spec fn offers_model(models: Seq<ModelView>, id: Seq<char>) -> bool {
    exists|i: int| 0 <= i < models.len() && (#[trigger] models[i]).id == id
}

/// The first model with an identifier.
pub open spec fn model_with_id(models: Seq<ModelView>, id: Seq<char>) -> Option<ModelView>
    decreases models.len(),
{
    if models.len() == 0 {
        None
    } else if models[0].id == id {
        Some(models[0])
    } else {
        model_with_id(models.skip(1), id)
    }
}

/// The first of the models that the server prefers.
pub open spec fn first_default(models: Seq<ModelView>) -> Option<ModelView>
    decreases models.len(),
{
    if models.len() == 0 {
        None
    } else if models[0].is_default {
        Some(models[0])
    } else {
        first_default(models.skip(1))
    }
}

/// The threads other than the one with the identifier.
pub open spec fn threads_without(threads: Seq<SummaryView>, id: Seq<char>) -> Seq<SummaryView> {
    threads.filter(|t: SummaryView| t.id != id)
}

impl StateView {
    /// Nothing is known, and the integration is off.
    pub open spec fn initial(path_style: PathStyle) -> StateView {
        StateView {
            status: StatusView::Disabled,
            threads: Seq::empty(),
            active_thread: None,
            active_turn: None,
            local_turn_thread_id: None,
            models: Seq::empty(),
            selected_model_id: None,
            project_roots: Seq::empty(),
            path_style,
            opening_thread_id: None,
            poll_generation: 0,
            started_thread: None,
            conversations: Map::empty(),
            thread_ids: Map::empty(),
        }
    }

    /// Polls that were scheduled before will not be carried out.
    pub open spec fn stop_polling(self) -> StateView {
        StateView { poll_generation: next_generation(self.poll_generation), ..self }
    }

    /// The server cannot be used, for the given reason.
    pub open spec fn disconnected(self, message: Seq<char>) -> StateView {
        StateView { status: StatusView::Disconnected { message }, ..self }
    }

    /// What the server told is dropped.
    pub open spec fn without_server_data(self) -> StateView {
        StateView {
            threads: Seq::empty(),
            active_thread: None,
            active_turn: None,
            local_turn_thread_id: None,
            models: Seq::empty(),
            started_thread: None,
            ..self.stop_polling()
        }
    }

    /// No thread is open.
    pub open spec fn without_open_thread(self) -> StateView {
        StateView {
            active_thread: None,
            active_turn: None,
            local_turn_thread_id: None,
            started_thread: None,
            ..self.stop_polling()
        }
    }

    /// The first thread with an identifier.
    pub open spec fn known_summary(self, id: Seq<char>) -> Option<SummaryView> {
        match thread_position(self.threads, id) {
            Some(i) => Some(self.threads[i]),
            None => None,
        }
    }

    /// The model that a plan is made with: the selected one, else the server's preferred one, else
    /// the first.
    pub open spec fn plan_model_id(self) -> Option<Seq<char>> {
        match self.selected_model_id {
            Some(id) => Some(id),
            None => match first_default(self.models) {
                Some(model) => Some(model.id),
                None => if self.models.len() > 0 {
                    Some(self.models[0].id)
                } else {
                    None
                },
            },
        }
    }

    /// The active thread is the one with the identifier.
    pub open spec fn is_active(self, thread_id: Seq<char>) -> bool {
        match self.active_thread {
            Some(thread) => thread.summary.id == thread_id,
            None => false,
        }
    }

    /// Items are added to the active thread, where it is the one with the identifier; they take
    /// the place of the text that stands in for an answer.
    pub open spec fn with_items(self, thread_id: Seq<char>, items: Seq<ItemView>) -> StateView {
        if self.is_active(thread_id) {
            let thread = self.active_thread->0;
            let kept = if thread.items.len() > 0 && thread.items.last().text == waiting_text() {
                thread.items.drop_last()
            } else {
                thread.items
            };
            StateView {
                active_thread: Some(DetailView { items: kept + items, ..thread }),
                ..self
            }
        } else {
            self
        }
    }

    /// A poll that was scheduled with a generation is still wanted.
    pub open spec fn wants_poll(self, thread_id: Seq<char>, generation: u64) -> bool {
        self.poll_generation == generation && self.is_active(thread_id)
    }

    /// A turn of the thread is under way.
    pub open spec fn is_busy(self, thread_id: Seq<char>) -> bool {
        self.local_turn_thread_id == Some(thread_id) || (match self.active_turn {
            Some(turn) => turn.thread_id == thread_id,
            None => false,
        })
    }

    /// A conversation mirrors a thread.
    pub open spec fn linked(
        self,
        conversation_id: AIConversationId,
        thread_id: Seq<char>,
    ) -> StateView {
        StateView {
            conversations: self.conversations.insert(thread_id, conversation_id),
            thread_ids: self.thread_ids.insert(conversation_id, thread_id),
            ..self
        }
    }

    /// The conversation that mirrors a thread, or a fresh one.
    pub open spec fn conversation_for(
        self,
        thread_id: Seq<char>,
        fresh: AIConversationId,
    ) -> AIConversationId {
        match self.conversations.get(thread_id) {
            Some(id) => id,
            None => fresh,
        }
    }

    /// The connection on which the thread was started, where it was started last.
    pub open spec fn started_client(self, thread_id: Seq<char>) -> Option<u64> {
        match self.started_thread {
            Some((id, client)) => if id == thread_id {
                Some(client)
            } else {
                None
            },
            None => None,
        }
    }

    /// The connection on which the thread was started is used up.
    pub open spec fn without_started(self, thread_id: Seq<char>) -> StateView {
        StateView {
            started_thread: if self.started_client(thread_id) is Some {
                None
            } else {
                self.started_thread
            },
            ..self
        }
    }
}

/// The four events that tell of a change of everything.
pub open spec fn all_changed() -> Seq<EffectView> {
    seq![
        EffectView::Emit(EventView::StatusChanged),
        EffectView::Emit(EventView::ThreadsChanged),
        EffectView::Emit(EventView::ActiveThreadChanged),
        EffectView::Emit(EventView::ModelsChanged),
    ]
}

/// The state and the effects of an action that needs the server: off, nothing happens; with
/// settings that are of no use, the status says so.
pub open spec fn guarded(
    state: StateView,
    settings: CodexAppServerSettings,
    then: (StateView, Seq<EffectView>),
) -> (StateView, Seq<EffectView>) {
    if !settings.enabled {
        (state, Seq::empty())
    } else {
        match settings_config(settings) {
            Err(error) => (
                state.disconnected(address_error_message(error)),
                seq![EffectView::Emit(EventView::StatusChanged)],
            ),
            Ok(_) => then,
        }
    }
}

/// Looking at the server afresh.
pub open spec fn refreshed(state: StateView, settings: CodexAppServerSettings) -> (
    StateView,
    Seq<EffectView>,
) {
    if !settings.enabled {
        (
            StateView {
                status: StatusView::Disabled,
                selected_model_id: None,
                opening_thread_id: None,
                conversations: Map::empty(),
                thread_ids: Map::empty(),
                ..state.without_server_data()
            },
            all_changed(),
        )
    } else {
        match settings_config(settings) {
            Err(error) => (
                state.without_server_data().disconnected(address_error_message(error)),
                all_changed(),
            ),
            Ok(config) => (
                StateView { status: StatusView::Loading, ..state },
                seq![
                    EffectView::Emit(EventView::StatusChanged),
                    EffectView::ListThreads {
                        config,
                        project_roots: state.project_roots,
                        imported_project_paths: views(settings.imported_project_paths@),
                        imported_thread_ids: views(settings.imported_thread_ids@),
                    },
                ],
            ),
        }
    }
}

/// The server's lists arrived, or failed to. A selected model that is no longer offered is
/// deselected.
pub open spec fn refresh_finished(
    state: StateView,
    result: Result<(Seq<SummaryView>, Seq<ModelView>), Seq<char>>,
) -> (StateView, Seq<EffectView>) {
    match result {
        Ok((threads, models)) => (
            StateView {
                status: StatusView::Connected,
                threads,
                models,
                selected_model_id: match state.selected_model_id {
                    Some(id) => if offers_model(models, id) {
                        Some(id)
                    } else {
                        None
                    },
                    None => None,
                },
                ..state
            },
            seq![
                EffectView::Emit(EventView::ThreadsChanged),
                EffectView::Emit(EventView::ModelsChanged),
                EffectView::Emit(EventView::StatusChanged),
            ],
        ),
        Err(error) => (
            state.without_server_data().disconnected(error),
            seq![
                EffectView::Emit(EventView::ThreadsChanged),
                EffectView::Emit(EventView::ActiveThreadChanged),
                EffectView::Emit(EventView::ModelsChanged),
                EffectView::Emit(EventView::StatusChanged),
            ],
        ),
    }
}

/// A poll of the thread is scheduled; earlier ones will not be carried out.
pub open spec fn polling_started(state: StateView, thread_id: Seq<char>) -> (
    StateView,
    EffectView,
) {
    let next = state.stop_polling();
    (next, EffectView::SchedulePoll { thread_id, generation: next.poll_generation })
}

/// A request that could not be carried out.
pub open spec fn failed(state: StateView, error: Seq<char>) -> (StateView, Seq<EffectView>) {
    (state.disconnected(error), seq![EffectView::Emit(EventView::StatusChanged)])
}

/// The user opens a thread.
pub open spec fn thread_opened(
    state: StateView,
    thread_id: Seq<char>,
    settings: CodexAppServerSettings,
) -> (StateView, Seq<EffectView>) {
    guarded(
        state,
        settings,
        (
            StateView {
                active_turn: None,
                local_turn_thread_id: None,
                started_thread: None,
                ..state.stop_polling()
            },
            seq![
                EffectView::ReadThread {
                    config: settings_config(settings)->Ok_0,
                    thread_id,
                    fallback_summary: state.known_summary(thread_id),
                    purpose: ReadPurpose::Open,
                },
            ],
        ),
    )
}

/// The thread that the user opened was read, or could not be.
pub open spec fn open_finished(state: StateView, result: Result<DetailView, Seq<char>>) -> (
    StateView,
    Seq<EffectView>,
) {
    match result {
        Ok(detail) => {
            let (next, poll) = polling_started(
                StateView { active_thread: Some(detail), ..state },
                detail.summary.id,
            );
            (next, seq![poll, EffectView::Emit(EventView::ActiveThreadChanged)])
        },
        Err(error) => failed(state, error),
    }
}

/// The user opens a thread as a conversation.
pub open spec fn conversation_opened(
    state: StateView,
    thread_id: Seq<char>,
    fresh: AIConversationId,
    settings: CodexAppServerSettings,
) -> (StateView, Seq<EffectView>) {
    let conversation_id = state.conversation_for(thread_id, fresh);
    guarded(
        state,
        settings,
        (
            StateView {
                opening_thread_id: Some(thread_id),
                ..state.linked(conversation_id, thread_id).without_open_thread()
            },
            seq![
                EffectView::Emit(EventView::ActiveThreadChanged),
                EffectView::ReadThread {
                    config: settings_config(settings)->Ok_0,
                    thread_id,
                    fallback_summary: state.known_summary(thread_id),
                    purpose: ReadPurpose::OpenAsConversation { conversation_id },
                },
            ],
        ),
    )
}

/// The thread of a conversation was read, or could not be.
pub open spec fn conversation_open_finished(
    state: StateView,
    conversation_id: AIConversationId,
    result: Result<DetailView, Seq<char>>,
    now: Timestamp,
) -> (StateView, Seq<EffectView>) {
    let closed = StateView { opening_thread_id: None, ..state };
    match result {
        Ok(detail) => {
            let id = detail.summary.id;
            let (next, poll) = polling_started(
                StateView { active_thread: Some(detail), ..closed.linked(conversation_id, id) },
                id,
            );
            (
                next,
                seq![
                    EffectView::CacheConversation(conversation_of(conversation_id, detail, now)),
                    poll,
                    EffectView::Emit(EventView::ActiveThreadChanged),
                    EffectView::Emit(
                        EventView::OpenConversation { conversation_id, thread_id: id },
                    ),
                ],
            )
        },
        Err(error) => (
            closed.disconnected(error),
            seq![
                EffectView::Emit(EventView::StatusChanged),
                EffectView::Emit(EventView::ActiveThreadChanged),
            ],
        ),
    }
}

/// A thread is gone: nothing of it is left.
pub open spec fn thread_removed(state: StateView, thread_id: Seq<char>) -> (
    StateView,
    Seq<EffectView>,
) {
    let was_active = state.is_active(thread_id);
    let conversation = state.conversations.get(thread_id);
    (
        StateView {
            threads: threads_without(state.threads, thread_id),
            opening_thread_id: if state.opening_thread_id == Some(thread_id) {
                None
            } else {
                state.opening_thread_id
            },
            local_turn_thread_id: if state.local_turn_thread_id == Some(thread_id) {
                None
            } else {
                state.local_turn_thread_id
            },
            active_turn: match state.active_turn {
                Some(turn) => if turn.thread_id == thread_id {
                    None
                } else {
                    Some(turn)
                },
                None => None,
            },
            active_thread: if was_active {
                None
            } else {
                state.active_thread
            },
            poll_generation: if was_active {
                next_generation(state.poll_generation)
            } else {
                state.poll_generation
            },
            conversations: state.conversations.remove(thread_id),
            thread_ids: match conversation {
                Some(id) => state.thread_ids.remove(id),
                None => state.thread_ids,
            },
            ..state
        },
        (if was_active {
            seq![EffectView::Emit(EventView::ActiveThreadChanged)]
        } else {
            Seq::empty()
        }) + (match conversation {
            Some(id) => seq![EffectView::DeleteConversation(id)],
            None => Seq::empty(),
        }) + seq![EffectView::Emit(EventView::ThreadsChanged)],
    )
}

/// A new thread was started, or could not be. It is called "New Codex conversation" until it has a
/// title.
pub open spec fn start_finished(
    state: StateView,
    result: Result<(DetailView, u64), Seq<char>>,
    fresh: AIConversationId,
    now: Timestamp,
) -> (StateView, Seq<EffectView>) {
    match result {
        Ok((started, client)) => {
            let id = started.summary.id;
            let detail = if started.summary.title == id {
                DetailView {
                    summary: SummaryView {
                        title: "New Codex conversation"@,
                        ..started.summary
                    },
                    ..started
                }
            } else {
                started
            };
            let conversation_id = state.conversation_for(id, fresh);
            (
                StateView {
                    threads: upserted(state.path_style, state.threads, detail.summary),
                    active_thread: Some(detail),
                    started_thread: Some((id, client)),
                    status: StatusView::Connected,
                    ..state.linked(conversation_id, id)
                },
                seq![
                    EffectView::CacheConversation(conversation_of(conversation_id, detail, now)),
                    EffectView::Emit(EventView::ThreadsChanged),
                    EffectView::Emit(EventView::ActiveThreadChanged),
                    EffectView::Emit(EventView::StatusChanged),
                    EffectView::Emit(
                        EventView::OpenConversation { conversation_id, thread_id: id },
                    ),
                ],
            )
        },
        Err(error) => (
            state.disconnected(error),
            seq![
                EffectView::Emit(EventView::StatusChanged),
                EffectView::Emit(EventView::ActiveThreadChanged),
            ],
        ),
    }
}

/// The turn that carries a prompt to a thread begins.
pub open spec fn turn_begun(
    state: StateView,
    thread_id: Seq<char>,
    request: PromptView,
    config: ConfigView,
    context: Option<CodexConversationTurnContext>,
) -> (StateView, EffectView) {
    (
        StateView {
            active_turn: None,
            local_turn_thread_id: Some(thread_id),
            ..state.without_started(thread_id)
        },
        EffectView::ContinueThread {
            config,
            thread_id,
            prompt: request.prompt,
            model_id: state.selected_model_id,
            collaboration_mode: request.collaboration_mode,
            collaboration_mode_model_id: state.plan_model_id(),
            client: state.started_client(thread_id),
            context,
        },
    )
}

/// The user sends a prompt to the active thread: it is shown at once, with a text that stands in
/// for the answer.
pub open spec fn prompt_submitted(
    state: StateView,
    prompt: Seq<char>,
    settings: CodexAppServerSettings,
) -> (StateView, Seq<EffectView>) {
    match (prompt_of(prompt), state.active_thread) {
        (Some(request), Some(thread)) => {
            let id = thread.summary.id;
            let shown = StateView {
                active_thread: Some(
                    DetailView {
                        items: thread.items + seq![
                            ItemView { role: "user"@, text: shown_prompt(request) },
                            ItemView { role: "codex"@, text: waiting_text() },
                        ],
                        ..thread
                    },
                ),
                active_turn: None,
                local_turn_thread_id: Some(id),
                ..state
            };
            let told = EffectView::Emit(EventView::ActiveThreadChanged);
            match settings_config(settings) {
                Err(error) => (
                    shown.disconnected(address_error_message(error)),
                    seq![told, EffectView::Emit(EventView::StatusChanged)],
                ),
                Ok(config) => {
                    let (next, turn) = turn_begun(shown, id, request, config, None);
                    (next, seq![told, turn])
                },
            }
        },
        _ => (state, Seq::empty()),
    }
}

/// The turn of the progress, where it waits for the user.
pub open spec fn pending_turn(
    thread_id: Seq<char>,
    progress: ProgressView,
    context: Option<CodexConversationTurnContext>,
) -> Option<ActiveTurnView> {
    match progress.pending {
        Some((client, approval)) => Some(
            ActiveTurnView {
                thread_id,
                client,
                pending_approval: approval,
                conversation_context: context,
            },
        ),
        None => None,
    }
}

/// What came of a turn is added to the active thread.
pub open spec fn turn_progressed(
    state: StateView,
    thread_id: Seq<char>,
    result: Result<ProgressView, Seq<char>>,
) -> (StateView, Seq<EffectView>) {
    let (items, turn) = match result {
        Ok(progress) => (progress.items, pending_turn(thread_id, progress, None)),
        Err(error) => (seq![ItemView { role: "error"@, text: error }], None),
    };
    let shown = StateView { active_turn: turn, local_turn_thread_id: None, ..state }.with_items(
        thread_id,
        items,
    );
    let told = EffectView::Emit(EventView::ActiveThreadChanged);
    if turn is None {
        let (next, poll) = polling_started(shown, thread_id);
        (next, seq![poll, told])
    } else {
        (shown, seq![told])
    }
}

/// What came of a conversation's turn is shown in its exchange, and in the active thread.
pub open spec fn conversation_turn_progressed(
    state: StateView,
    thread_id: Seq<char>,
    context: CodexConversationTurnContext,
    result: Result<ProgressView, Seq<char>>,
) -> (StateView, Seq<EffectView>) {
    let (text, turn, is_error) = match result {
        Ok(progress) => (
            agent_text(progress.items),
            pending_turn(thread_id, progress, Some(context)),
            false,
        ),
        Err(error) => ("Codex app-server error: "@ + error, None, true),
    };
    let taken = StateView { active_turn: turn, local_turn_thread_id: None, ..state };
    let polled = if turn is None {
        polling_started(taken, thread_id).0
    } else {
        taken
    };
    let shown = if polled.is_active(thread_id) && (!is_blank(text) || is_error) {
        let thread = polled.active_thread->0;
        StateView {
            active_thread: Some(
                DetailView {
                    items: thread.items.push(
                        ItemView {
                            role: if is_error {
                                "error"@
                            } else {
                                "codex"@
                            },
                            text,
                        },
                    ),
                    ..thread
                },
            ),
            ..polled
        }
    } else {
        polled
    };
    (
        shown,
        (if turn is None {
            seq![polling_started(taken, thread_id).1]
        } else {
            Seq::empty()
        }) + seq![
            EffectView::UpdateExchange {
                context,
                output_text: text,
                is_finished: turn is None,
                is_error,
            },
            EffectView::Emit(EventView::ActiveThreadChanged),
        ],
    )
}

/// The user answers the request that a turn waits for.
pub open spec fn request_answered(
    state: StateView,
    turn: ActiveTurnView,
    item: ItemView,
    result: JsonView,
) -> (StateView, Seq<EffectView>) {
    (
        StateView {
            local_turn_thread_id: Some(turn.thread_id),
            ..StateView { active_turn: None, ..state }.with_items(turn.thread_id, seq![item])
        },
        seq![
            EffectView::Emit(EventView::ActiveThreadChanged),
            EffectView::Respond {
                client: turn.client,
                request_id: turn.pending_approval.request_id,
                result,
                thread_id: turn.thread_id,
                context: turn.conversation_context,
            },
        ],
    )
}

/// The user decides on the request that a turn waits for.
pub open spec fn approval_resolved(state: StateView, decision: CodexApprovalDecision) -> (
    StateView,
    Seq<EffectView>,
) {
    match state.active_turn {
        Some(turn) => request_answered(
            state,
            turn,
            ItemView { role: "approval"@, text: decision_label(decision) + "."@ },
            turn.pending_approval.approval_result(decision),
        ),
        None => (state, Seq::empty()),
    }
}

/// The user answers a question that a turn waits for. An answer to a question that was not asked
/// changes nothing.
pub open spec fn user_input_resolved(
    state: StateView,
    question_id: Seq<char>,
    answer: Seq<char>,
) -> (StateView, Seq<EffectView>) {
    match state.active_turn {
        Some(turn) => match turn.pending_approval.user_input_result(question_id, answer) {
            Some(result) => request_answered(
                state,
                turn,
                ItemView { role: "user"@, text: answer },
                result,
            ),
            None => (state, Seq::empty()),
        },
        None => (state, Seq::empty()),
    }
}

/// A scheduled poll is due.
pub open spec fn poll_due(
    state: StateView,
    thread_id: Seq<char>,
    generation: u64,
    settings: CodexAppServerSettings,
) -> (StateView, Seq<EffectView>) {
    if !state.wants_poll(thread_id, generation) {
        (state, Seq::empty())
    } else if state.is_busy(thread_id) {
        (state, seq![EffectView::SchedulePoll { thread_id, generation }])
    } else {
        guarded(
            state,
            settings,
            (
                state,
                seq![
                    EffectView::ReadThread {
                        config: settings_config(settings)->Ok_0,
                        thread_id,
                        fallback_summary: Some(state.active_thread->0.summary),
                        purpose: ReadPurpose::Poll { generation },
                    },
                ],
            ),
        )
    }
}

/// What a poll read is shown, unless it would replace items by none.
pub open spec fn polled_applied(state: StateView, detail: DetailView, now: Timestamp) -> (
    StateView,
    Seq<EffectView>,
) {
    let threads = upserted(state.path_style, state.threads, detail.summary);
    let threads_told: Seq<EffectView> = if is_news(
        state.path_style,
        state.threads,
        detail.summary,
    ) {
        seq![EffectView::Emit(EventView::ThreadsChanged)]
    } else {
        Seq::empty()
    };
    let listed = StateView { threads, ..state };
    if !applies_polled(state.active_thread, detail) || shows_detail(
        state.path_style,
        state.active_thread,
        detail,
    ) {
        (listed, threads_told)
    } else {
        (
            StateView { active_thread: Some(detail), ..listed },
            (match state.conversations.get(detail.summary.id) {
                Some(id) => seq![EffectView::RefreshConversation(conversation_of(id, detail, now))],
                None => Seq::empty(),
            }) + seq![EffectView::Emit(EventView::ActiveThreadChanged)] + threads_told,
        )
    }
}

/// A poll is over. The next one is scheduled as long as the thread stays active.
pub open spec fn poll_finished(
    state: StateView,
    thread_id: Seq<char>,
    generation: u64,
    result: Result<DetailView, Seq<char>>,
    now: Timestamp,
) -> (StateView, Seq<EffectView>) {
    if !state.wants_poll(thread_id, generation) {
        (state, Seq::empty())
    } else {
        let (shown, told) = match result {
            Ok(detail) => polled_applied(state, detail, now),
            Err(_) => (state, Seq::empty()),
        };
        (
            shown,
            told + (if shown.wants_poll(thread_id, generation) {
                seq![EffectView::SchedulePoll { thread_id, generation }]
            } else {
                Seq::empty()
            }),
        )
    }
}

} // verus!
