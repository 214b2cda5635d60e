//! The model behind the Codex panel.
use crate::codex_app_server::address::{
    AddressErrorView, CodexAppServerConfig, ConfigView, address_error_message,
};
use crate::codex_app_server::approval::CodexApprovalDecision;
use crate::codex_app_server::catalog::{
    find_thread, opt_detail_ref, should_apply_polled_thread_detail, should_resume_thread,
    upsert_thread_summary,
};
use crate::codex_app_server::effect::{
    CodexAppServerModelEvent, CodexAppServerSettings, CodexAppServerStatus,
    CodexConversationTurnContext, CodexEffect, EffectView, EventView, ReadPurpose, effect_views,
    emit, no_effects, push_effect,
};
use crate::codex_app_server::history::codex_thread_detail_to_ai_conversation;
use crate::codex_app_server::model::{
    CodexActiveTurn, CodexTurnProgress, StateView, all_changed, approval_resolved,
    conversation_open_finished, conversation_opened, conversation_turn_progressed, failed,
    first_default, guarded, model_with_id, offers_model, open_finished, opt_turn_view, poll_due,
    poll_finished, polled_applied, polling_started, progress_view, prompt_submitted,
    read_result_view, refresh_finished, refreshed, request_answered, settings_config,
    start_finished, thread_opened, thread_removed, threads_without, turn_begun, turn_progressed,
    user_input_resolved, waiting_text,
};
use crate::codex_app_server::prompt::{
    CodexPromptRequest, PromptView, display_codex_prompt_request, parse_codex_prompt_request,
    prompt_of, shown_prompt,
};
use crate::codex_app_server::request::CodexPendingApproval;
use crate::codex_app_server::transcript::codex_items_to_agent_text;
use crate::codex_app_server::turn::as_deref;
use crate::codex_app_server::types::{
    CodexConversationItem, CodexModelInfo, CodexThreadDetail, CodexThreadSummary, DetailView,
    ItemView, ModelView, SummaryView, item_views, model_views, opt_detail_view, shows_detail,
    summary_views,
};
use crate::codex_app_server::wire::opt_summary_view;
use crate::conversation::{AIConversationId, ConversationIndex, ThreadIndex};
use crate::json::JsonValue;
use crate::path::{PathStyle, dedupe_paths, distinct_paths, same_paths, same_paths_in};
use crate::text::{
    blank, clone_option, clone_texts, concat2, opt_str_view, opt_view, same, same_option, views,
};
use crate::time::Timestamp;
use vstd::prelude::*;

verus! {

/// The state of the Codex panel.
pub struct CodexAppServerModel {
    status: CodexAppServerStatus,
    threads: Vec<CodexThreadSummary>,
    active_thread: Option<CodexThreadDetail>,
    active_turn: Option<CodexActiveTurn>,
    local_turn_thread_id: Option<String>,
    models: Vec<CodexModelInfo>,
    selected_model_id: Option<String>,
    project_roots: Vec<String>,
    path_style: PathStyle,
    opening_thread_id: Option<String>,
    active_thread_poll_generation: u64,
    started_thread: Option<(String, u64)>,
    conversation_id_by_thread_id: ConversationIndex,
    thread_id_by_conversation_id: ThreadIndex,
}

/// A prompt for a conversation's thread, ready to be sent once the exchange that shows it exists.
pub struct CodexPromptPlan {
    pub config: CodexAppServerConfig,
    pub thread_id: String,
    pub request: CodexPromptRequest,
    pub shown_prompt: String,
    pub working_directory: Option<String>,
}

/// The model of a `CodexPromptPlan`.
pub struct PlanView {
    pub config: ConfigView,
    pub thread_id: Seq<char>,
    pub request: PromptView,
    pub shown_prompt: Seq<char>,
    pub working_directory: Option<Seq<char>>,
}

impl CodexPromptPlan {
    pub open spec fn view(&self) -> PlanView {
        PlanView {
            config: self.config@,
            thread_id: self.thread_id@,
            request: self.request@,
            shown_prompt: self.shown_prompt@,
            working_directory: opt_view(self.working_directory),
        }
    }
}

/// What becomes of a prompt for a conversation: the plan to send it, where the prompt says
/// something, the conversation mirrors a thread and the settings are of use.
pub open spec fn prompt_planned(
    state: StateView,
    conversation_id: AIConversationId,
    prompt: Seq<char>,
    settings: CodexAppServerSettings,
) -> (StateView, Seq<EffectView>, Option<PlanView>) {
    match (prompt_of(prompt), state.thread_ids.get(conversation_id)) {
        (Some(request), Some(thread_id)) => match settings_config(settings) {
            Err(error) => {
                let (next, told) = failed(state, address_error_message(error));
                (next, told, None)
            },
            Ok(config) => (
                state,
                Seq::empty(),
                Some(
                    PlanView {
                        config,
                        thread_id,
                        request,
                        shown_prompt: shown_prompt(request),
                        working_directory: match state.known_summary(thread_id) {
                            Some(summary) => summary.cwd,
                            None => None,
                        },
                    },
                ),
            ),
        },
        _ => (state, Seq::empty(), None),
    }
}

/// The model of the lists that a refresh brought.
pub open spec fn snapshot_view(
    result: Result<(Vec<CodexThreadSummary>, Vec<CodexModelInfo>), String>,
) -> Result<(Seq<SummaryView>, Seq<ModelView>), Seq<char>> {
    match result {
        Ok((threads, models)) => Ok((summary_views(threads@), model_views(models@))),
        Err(error) => Err(error@),
    }
}

/// The model of a thread that was started, with its connection.
pub open spec fn started_view(result: Result<(CodexThreadDetail, u64), String>) -> Result<
    (DetailView, u64),
    Seq<char>,
> {
    match result {
        Ok((detail, client)) => Ok((detail@, client)),
        Err(error) => Err(error@),
    }
}

/// The configuration that the settings stand for, or what is said of the error.
fn config_or_message(settings: &CodexAppServerSettings) -> (r: Result<CodexAppServerConfig, String>)
    ensures
        match r {
            Ok(config) => settings_config(*settings) == Ok::<ConfigView, AddressErrorView>(config@),
            Err(message) => settings_config(*settings) is Err && message@ == address_error_message(
                settings_config(*settings)->Err_0,
            ),
        },
{
    match CodexAppServerConfig::from_settings(
        settings.server_url.as_str(),
        settings.bearer_token.as_str(),
    ) {
        Ok(config) => Ok(config),
        Err(error) => Err(error.message()),
    }
}

/// The two lists hold the same items.
fn same_items(a: &Vec<CodexConversationItem>, b: &Vec<CodexConversationItem>) -> (r: bool)
    ensures
        r == (item_views(a@) == item_views(b@)),
{
    assert(item_views(a@).len() == a@.len());
    assert(item_views(b@).len() == b@.len());
    if a.len() != b.len() {
        return false;
    }
    let mut i: usize = 0;
    while i < a.len()
        invariant
            i <= a@.len(),
            a@.len() == b@.len(),
            forall|j: int| 0 <= j < i ==> (#[trigger] a@[j])@ == b@[j]@,
        decreases a@.len() - i,
    {
        if !same(a[i].role.as_str(), b[i].role.as_str()) || !same(
            a[i].text.as_str(),
            b[i].text.as_str(),
        ) {
            assert(item_views(a@)[i as int] != item_views(b@)[i as int]);
            return false;
        }
        i = i + 1;
    }
    assert(item_views(a@) =~= item_views(b@));
    true
}

/// One of the models has the identifier.
fn has_model(models: &Vec<CodexModelInfo>, id: &str) -> (r: bool)
    ensures
        r == offers_model(model_views(models@), id@),
{
    let ghost all = model_views(models@);
    let mut i: usize = 0;
    while i < models.len()
        invariant
            i <= models@.len(),
            all == model_views(models@),
            forall|j: int| 0 <= j < i ==> (#[trigger] all[j]).id != id@,
        decreases models@.len() - i,
    {
        assert(all[i as int] == models@[i as int]@);
        if same(models[i].id.as_str(), id) {
            return true;
        }
        i = i + 1;
    }
    false
}

impl CodexAppServerModel {
    /// The state.
    pub closed spec fn view(&self) -> StateView {
        StateView {
            status: self.status@,
            threads: summary_views(self.threads@),
            active_thread: opt_detail_view(self.active_thread),
            active_turn: opt_turn_view(self.active_turn),
            local_turn_thread_id: opt_view(self.local_turn_thread_id),
            models: model_views(self.models@),
            selected_model_id: opt_view(self.selected_model_id),
            project_roots: views(self.project_roots@),
            path_style: self.path_style,
            opening_thread_id: opt_view(self.opening_thread_id),
            poll_generation: self.active_thread_poll_generation,
            started_thread: match self.started_thread {
                Some((id, client)) => Some((id@, client)),
                None => None,
            },
            conversations: self.conversation_id_by_thread_id@,
            thread_ids: self.thread_id_by_conversation_id@,
        }
    }

    /// A model that has not looked at the server yet.
    pub fn new(path_style: PathStyle) -> (r: Self)
        ensures
            r@ == StateView::initial(path_style),
    {
        let r = CodexAppServerModel {
            status: CodexAppServerStatus::Disabled,
            threads: Vec::new(),
            active_thread: None,
            active_turn: None,
            local_turn_thread_id: None,
            models: Vec::new(),
            selected_model_id: None,
            project_roots: Vec::new(),
            path_style,
            opening_thread_id: None,
            active_thread_poll_generation: 0,
            started_thread: None,
            conversation_id_by_thread_id: ConversationIndex::new(),
            thread_id_by_conversation_id: ThreadIndex::new(),
        };
        assert(r@.threads =~= Seq::empty());
        assert(r@.models =~= Seq::empty());
        assert(r@.project_roots =~= Seq::empty());
        r
    }

    /// How the server stands.
    pub fn status(&self) -> (r: &CodexAppServerStatus)
        ensures
            r@ == self@.status,
    {
        &self.status
    }

    /// The threads of the panel.
    pub fn threads(&self) -> (r: &Vec<CodexThreadSummary>)
        ensures
            summary_views(r@) == self@.threads,
    {
        &self.threads
    }

    /// The models that the server offers.
    pub fn models(&self) -> (r: &Vec<CodexModelInfo>)
        ensures
            model_views(r@) == self@.models,
    {
        &self.models
    }

    /// There are models to choose from.
    pub fn has_model_choices(&self) -> (r: bool)
        ensures
            r == (self@.models.len() > 0),
    {
        self.models.len() > 0
    }

    /// The model that the user selected.
    pub fn selected_model_id(&self) -> (r: Option<&str>)
        ensures
            opt_str_view(r) == self@.selected_model_id,
    {
        as_deref(&self.selected_model_id)
    }

    /// The name of the model that the user selected.
    pub fn selected_model_display_name(&self) -> (r: String)
        ensures
            r@ == (match self@.selected_model_id {
                Some(id) => match model_with_id(self@.models, id) {
                    Some(model) => model.display_name,
                    None => "codex"@,
                },
                None => "codex"@,
            }),
    {
        if let Some(id) = &self.selected_model_id {
            let ghost all = self@.models;
            let mut i: usize = 0;
            assert(all.skip(0) =~= all);
            while i < self.models.len()
                invariant
                    i <= self.models@.len(),
                    all == model_views(self.models@),
                    self@.selected_model_id == Some(id@),
                    all == self@.models,
                    model_with_id(all, id@) == model_with_id(all.skip(i as int), id@),
                decreases self.models@.len() - i,
            {
                assert(all.skip(i as int)[0] == self.models@[i as int]@);
                assert(all.skip(i as int).skip(1) =~= all.skip(i as int + 1));
                if same(self.models[i].id.as_str(), id.as_str()) {
                    return self.models[i].display_name.clone();
                }
                i = i + 1;
            }
        }
        "codex".to_owned()
    }

    /// The user selects a model, or none. A model that is not offered cannot be selected.
    pub fn set_selected_model_id(&mut self, model_id: Option<String>) -> (r: Vec<CodexEffect>)
        ensures
            ({
                let wanted = match opt_view(model_id) {
                    Some(id) => if offers_model(old(self)@.models, id) {
                        Some(id)
                    } else {
                        None
                    },
                    None => None,
                };
                &&& final(self)@ == (StateView { selected_model_id: wanted, ..old(self)@ })
                &&& effect_views(r@) == (if old(self)@.selected_model_id == wanted {
                    Seq::<EffectView>::empty()
                } else {
                    seq![EffectView::Emit(EventView::ModelsChanged)]
                })
            }),
    {
        let mut effects = no_effects();
        let wanted = match model_id {
            Some(id) => {
                if has_model(&self.models, id.as_str()) {
                    Some(id)
                } else {
                    None
                }
            },
            None => None,
        };
        if same_option(&self.selected_model_id, &wanted) {
            return effects;
        }
        self.selected_model_id = wanted;
        emit(&mut effects, CodexAppServerModelEvent::ModelsChanged);
        assert(effect_views(effects@) =~= seq![EffectView::Emit(EventView::ModelsChanged)]);
        effects
    }

    /// The active thread.
    pub fn active_thread(&self) -> (r: Option<&CodexThreadDetail>)
        ensures
            opt_detail_ref(r) == self@.active_thread,
    {
        match &self.active_thread {
            Some(detail) => Some(detail),
            None => None,
        }
    }

    /// The request that waits for the user.
    pub fn pending_approval(&self) -> (r: Option<&CodexPendingApproval>)
        ensures
            match (r, self@.active_turn) {
                (Some(approval), Some(turn)) => approval@ == turn.pending_approval,
                (None, None) => true,
                _ => false,
            },
    {
        match &self.active_turn {
            Some(turn) => Some(&turn.pending_approval),
            None => None,
        }
    }

    /// The request that waits for the user in a conversation.
    pub fn pending_approval_for_conversation(
        &self,
        conversation_id: AIConversationId,
    ) -> (r: Option<
        &CodexPendingApproval,
    >)
        ensures
            match r {
                Some(approval) => self@.active_turn is Some && approval@
                    == self@.active_turn->0.pending_approval && self@.thread_ids.get(
                    conversation_id,
                ) == Some(self@.active_turn->0.thread_id),
                None => self@.active_turn is None || self@.thread_ids.get(conversation_id) != Some(
                    self@.active_turn->0.thread_id,
                ),
            },
    {
        match (self.thread_id_by_conversation_id.get(conversation_id), &self.active_turn) {
            (Some(thread_id), Some(turn)) => {
                if same(turn.thread_id.as_str(), thread_id) {
                    Some(&turn.pending_approval)
                } else {
                    None
                }
            },
            _ => None,
        }
    }

    /// The thread that is being opened.
    pub fn opening_thread_id(&self) -> (r: Option<&str>)
        ensures
            opt_str_view(r) == self@.opening_thread_id,
    {
        as_deref(&self.opening_thread_id)
    }

    /// The conversation that mirrors a thread.
    pub fn conversation_id_for_thread(&self, thread_id: &str) -> (r: Option<AIConversationId>)
        ensures
            r == self@.conversations.get(thread_id@),
    {
        self.conversation_id_by_thread_id.get(thread_id)
    }

    /// The thread that a conversation mirrors.
    pub fn thread_id_for_conversation(&self, conversation_id: AIConversationId) -> (r: Option<&str>)
        ensures
            opt_str_view(r) == self@.thread_ids.get(conversation_id),
    {
        self.thread_id_by_conversation_id.get(conversation_id)
    }

    /// The conversation mirrors a thread.
    pub fn is_codex_conversation(&self, conversation_id: AIConversationId) -> (r: bool)
        ensures
            r == self@.thread_ids.contains_key(conversation_id),
    {
        self.thread_id_by_conversation_id.get(conversation_id).is_some()
    }

    fn stop_active_thread_polling(&mut self)
        ensures
            final(self)@ == old(self)@.stop_polling(),
    {
        self.active_thread_poll_generation = if self.active_thread_poll_generation == u64::MAX {
            0
        } else {
            self.active_thread_poll_generation + 1
        };
    }

    fn start_active_thread_polling(&mut self, thread_id: &str, effects: &mut Vec<CodexEffect>)
        ensures
            final(self)@ == polling_started(old(self)@, thread_id@).0,
            effect_views(final(effects)@) == effect_views(old(effects)@).push(
                polling_started(old(self)@, thread_id@).1,
            ),
    {
        self.stop_active_thread_polling();
        push_effect(
            effects,
            CodexEffect::SchedulePoll {
                thread_id: thread_id.to_owned(),
                generation: self.active_thread_poll_generation,
            },
        );
    }

    fn drop_server_data(&mut self)
        ensures
            final(self)@ == old(self)@.without_server_data(),
    {
        self.stop_active_thread_polling();
        self.threads = Vec::new();
        self.active_thread = None;
        self.active_turn = None;
        self.local_turn_thread_id = None;
        self.models = Vec::new();
        self.started_thread = None;
        assert(self@.threads =~= Seq::empty());
        assert(self@.models =~= Seq::empty());
    }

    fn drop_open_thread(&mut self)
        ensures
            final(self)@ == old(self)@.without_open_thread(),
    {
        self.stop_active_thread_polling();
        self.active_thread = None;
        self.active_turn = None;
        self.local_turn_thread_id = None;
        self.started_thread = None;
    }

    fn disconnect(&mut self, message: String, effects: &mut Vec<CodexEffect>)
        ensures
            final(self)@ == old(self)@.disconnected(message@),
            effect_views(final(effects)@) == effect_views(old(effects)@).push(
                EffectView::Emit(EventView::StatusChanged),
            ),
    {
        self.status = CodexAppServerStatus::Disconnected { message };
        emit(effects, CodexAppServerModelEvent::StatusChanged);
    }

    fn emit_all(effects: &mut Vec<CodexEffect>)
        ensures
            effect_views(final(effects)@) == effect_views(old(effects)@) + all_changed(),
    {
        let ghost before = effect_views(effects@);
        emit(effects, CodexAppServerModelEvent::StatusChanged);
        emit(effects, CodexAppServerModelEvent::ThreadsChanged);
        emit(effects, CodexAppServerModelEvent::ActiveThreadChanged);
        emit(effects, CodexAppServerModelEvent::ModelsChanged);
        assert(effect_views(effects@) =~= before + all_changed());
    }

    fn known_summary(&self, thread_id: &str) -> (r: Option<CodexThreadSummary>)
        ensures
            opt_summary_view(r) == self@.known_summary(thread_id@),
    {
        match find_thread(&self.threads, thread_id) {
            Some(i) => Some(self.threads[i].clone()),
            None => None,
        }
    }

    /// The projects whose threads are listed. A change makes the model look at the server afresh.
    pub fn set_project_roots(
        &mut self,
        roots: &Vec<String>,
        settings: &CodexAppServerSettings,
    ) -> (r:
        Vec<CodexEffect>)
        ensures
            ({
                let wanted = distinct_paths(old(self)@.path_style, views(roots@));
                if same_paths_in(old(self)@.path_style, old(self)@.project_roots, wanted) {
                    final(self)@ == old(self)@ && effect_views(r@) == Seq::<EffectView>::empty()
                } else {
                    (final(self)@, effect_views(r@)) == refreshed(
                        StateView { project_roots: wanted, ..old(self)@ },
                        *settings,
                    )
                }
            }),
    {
        let wanted = dedupe_paths(self.path_style, roots);
        if same_paths(self.path_style, &self.project_roots, &wanted) {
            return no_effects();
        }
        self.project_roots = wanted;
        self.refresh(settings)
    }

    /// Looks at the server afresh.
    pub fn refresh(&mut self, settings: &CodexAppServerSettings) -> (r: Vec<CodexEffect>)
        ensures
            (final(self)@, effect_views(r@)) == refreshed(old(self)@, *settings),
    {
        let mut effects = no_effects();
        if !settings.enabled {
            self.drop_server_data();
            self.status = CodexAppServerStatus::Disabled;
            self.selected_model_id = None;
            self.opening_thread_id = None;
            self.conversation_id_by_thread_id = ConversationIndex::new();
            self.thread_id_by_conversation_id = ThreadIndex::new();
            CodexAppServerModel::emit_all(&mut effects);
            assert(effect_views(effects@) =~= all_changed());
            return effects;
        }
        match config_or_message(settings) {
            Err(message) => {
                self.drop_server_data();
                self.status = CodexAppServerStatus::Disconnected { message };
                CodexAppServerModel::emit_all(&mut effects);
                assert(effect_views(effects@) =~= all_changed());
            },
            Ok(config) => {
                self.status = CodexAppServerStatus::Loading;
                emit(&mut effects, CodexAppServerModelEvent::StatusChanged);
                push_effect(
                    &mut effects,
                    CodexEffect::ListThreads {
                        config,
                        project_roots: clone_texts(&self.project_roots),
                        imported_project_paths: clone_texts(&settings.imported_project_paths),
                        imported_thread_ids: clone_texts(&settings.imported_thread_ids),
                    },
                );
                assert(effect_views(effects@) =~= refreshed(old(self)@, *settings).1);
            },
        }
        effects
    }

    /// The server's lists arrived, or failed to.
    pub fn finish_refresh(
        &mut self,
        result: Result<(Vec<CodexThreadSummary>, Vec<CodexModelInfo>), String>,
    ) -> (r: Vec<CodexEffect>)
        ensures
            (final(self)@, effect_views(r@)) == refresh_finished(
                old(self)@,
                snapshot_view(result),
            ),
    {
        let mut effects = no_effects();
        match result {
            Ok((threads, models)) => {
                self.status = CodexAppServerStatus::Connected;
                self.threads = threads;
                self.models = models;
                let gone = match &self.selected_model_id {
                    Some(id) => !has_model(&self.models, id.as_str()),
                    None => false,
                };
                if gone {
                    self.selected_model_id = None;
                }
                emit(&mut effects, CodexAppServerModelEvent::ThreadsChanged);
                emit(&mut effects, CodexAppServerModelEvent::ModelsChanged);
            },
            Err(message) => {
                self.drop_server_data();
                self.status = CodexAppServerStatus::Disconnected { message };
                emit(&mut effects, CodexAppServerModelEvent::ThreadsChanged);
                emit(&mut effects, CodexAppServerModelEvent::ActiveThreadChanged);
                emit(&mut effects, CodexAppServerModelEvent::ModelsChanged);
            },
        }
        emit(&mut effects, CodexAppServerModelEvent::StatusChanged);
        assert(effect_views(effects@) =~= refresh_finished(old(self)@, snapshot_view(result)).1);
        effects
    }

    /// The user opens a thread.
    pub fn open_thread(&mut self, thread_id: &str, settings: &CodexAppServerSettings) -> (r: Vec<
        CodexEffect,
    >)
        ensures
            (final(self)@, effect_views(r@)) == thread_opened(old(self)@, thread_id@, *settings),
    {
        let mut effects = no_effects();
        if !settings.enabled {
            return effects;
        }
        match config_or_message(settings) {
            Err(message) => {
                self.disconnect(message, &mut effects);
            },
            Ok(config) => {
                let fallback_summary = self.known_summary(thread_id);
                self.stop_active_thread_polling();
                self.active_turn = None;
                self.local_turn_thread_id = None;
                self.started_thread = None;
                push_effect(
                    &mut effects,
                    CodexEffect::ReadThread {
                        config,
                        thread_id: thread_id.to_owned(),
                        fallback_summary,
                        purpose: ReadPurpose::Open,
                    },
                );
            },
        }
        assert(effect_views(effects@) =~= thread_opened(old(self)@, thread_id@, *settings).1);
        effects
    }

    /// The thread that the user opened was read, or could not be.
    pub fn finish_open_thread(&mut self, result: Result<CodexThreadDetail, String>) -> (r: Vec<
        CodexEffect,
    >)
        ensures
            (final(self)@, effect_views(r@)) == open_finished(
                old(self)@,
                read_result_view(result),
            ),
    {
        let mut effects = no_effects();
        match result {
            Ok(detail) => {
                let thread_id = detail.summary.id.clone();
                self.active_thread = Some(detail);
                self.start_active_thread_polling(thread_id.as_str(), &mut effects);
                emit(&mut effects, CodexAppServerModelEvent::ActiveThreadChanged);
            },
            Err(message) => {
                self.disconnect(message, &mut effects);
            },
        }
        assert(effect_views(effects@) =~= open_finished(old(self)@, read_result_view(result)).1);
        effects
    }

    fn link(&mut self, conversation_id: AIConversationId, thread_id: &str)
        ensures
            final(self)@ == old(self)@.linked(conversation_id, thread_id@),
    {
        self.conversation_id_by_thread_id.insert(thread_id, conversation_id);
        self.thread_id_by_conversation_id.insert(conversation_id, thread_id);
    }

    fn conversation_for(&self, thread_id: &str, fresh: AIConversationId) -> (r: AIConversationId)
        ensures
            r == self@.conversation_for(thread_id@, fresh),
    {
        match self.conversation_id_by_thread_id.get(thread_id) {
            Some(id) => id,
            None => fresh,
        }
    }

    /// The user opens a thread as a conversation; `fresh` is an identifier that no conversation has.
    pub fn open_thread_as_conversation(
        &mut self,
        thread_id: &str,
        fresh: AIConversationId,
        settings: &CodexAppServerSettings,
    ) -> (r: Vec<CodexEffect>)
        ensures
            (final(self)@, effect_views(r@)) == conversation_opened(
                old(self)@,
                thread_id@,
                fresh,
                *settings,
            ),
    {
        let mut effects = no_effects();
        if !settings.enabled {
            return effects;
        }
        match config_or_message(settings) {
            Err(message) => {
                self.disconnect(message, &mut effects);
            },
            Ok(config) => {
                let fallback_summary = self.known_summary(thread_id);
                let conversation_id = self.conversation_for(thread_id, fresh);
                self.link(conversation_id, thread_id);
                self.opening_thread_id = Some(thread_id.to_owned());
                self.drop_open_thread();
                emit(&mut effects, CodexAppServerModelEvent::ActiveThreadChanged);
                push_effect(
                    &mut effects,
                    CodexEffect::ReadThread {
                        config,
                        thread_id: thread_id.to_owned(),
                        fallback_summary,
                        purpose: ReadPurpose::OpenAsConversation { conversation_id },
                    },
                );
            },
        }
        assert(effect_views(effects@) =~= conversation_opened(
            old(self)@,
            thread_id@,
            fresh,
            *settings,
        ).1);
        effects
    }

    /// The thread of a conversation was read, or could not be.
    pub fn finish_open_thread_as_conversation(
        &mut self,
        conversation_id: AIConversationId,
        result: Result<CodexThreadDetail, String>,
        now: Timestamp,
    ) -> (r: Vec<CodexEffect>)
        ensures
            (final(self)@, effect_views(r@)) == conversation_open_finished(
                old(self)@,
                conversation_id,
                read_result_view(result),
                now,
            ),
    {
        let mut effects = no_effects();
        self.opening_thread_id = None;
        match result {
            Ok(detail) => {
                let thread_id = detail.summary.id.clone();
                let conversation = codex_thread_detail_to_ai_conversation(
                    conversation_id,
                    &detail,
                    now,
                );
                push_effect(&mut effects, CodexEffect::CacheConversation(conversation));
                self.link(conversation_id, thread_id.as_str());
                self.active_thread = Some(detail);
                self.start_active_thread_polling(thread_id.as_str(), &mut effects);
                emit(&mut effects, CodexAppServerModelEvent::ActiveThreadChanged);
                emit(
                    &mut effects,
                    CodexAppServerModelEvent::OpenConversation { conversation_id, thread_id },
                );
            },
            Err(message) => {
                self.disconnect(message, &mut effects);
                emit(&mut effects, CodexAppServerModelEvent::ActiveThreadChanged);
            },
        }
        assert(effect_views(effects@) =~= conversation_open_finished(
            old(self)@,
            conversation_id,
            read_result_view(result),
            now,
        ).1);
        effects
    }

    /// The user deletes a thread.
    pub fn delete_thread(&mut self, thread_id: &str, settings: &CodexAppServerSettings) -> (r: Vec<
        CodexEffect,
    >)
        ensures
            (final(self)@, effect_views(r@)) == guarded(
                old(self)@,
                *settings,
                (
                    old(self)@,
                    seq![
                        EffectView::ArchiveThread {
                            config: settings_config(*settings)->Ok_0,
                            thread_id: thread_id@,
                        },
                    ],
                ),
            ),
    {
        let mut effects = no_effects();
        if !settings.enabled {
            return effects;
        }
        match config_or_message(settings) {
            Err(message) => {
                self.disconnect(message, &mut effects);
                assert(effect_views(effects@) =~= seq![
                    EffectView::Emit(EventView::StatusChanged),
                ]);
            },
            Ok(config) => {
                push_effect(
                    &mut effects,
                    CodexEffect::ArchiveThread { config, thread_id: thread_id.to_owned() },
                );
                assert(effect_views(effects@) =~= seq![
                    EffectView::ArchiveThread {
                        config: settings_config(*settings)->Ok_0,
                        thread_id: thread_id@,
                    },
                ]);
            },
        }
        effects
    }

    /// The thread was archived, or could not be.
    pub fn finish_delete_thread(&mut self, thread_id: &str, result: Result<(), String>) -> (r: Vec<
        CodexEffect,
    >)
        ensures
            (final(self)@, effect_views(r@)) == (match result {
                Ok(_) => thread_removed(old(self)@, thread_id@),
                Err(error) => failed(old(self)@, error@),
            }),
    {
        match result {
            Ok(_) => self.remove_thread_locally(thread_id),
            Err(message) => {
                let mut effects = no_effects();
                self.disconnect(message, &mut effects);
                assert(effect_views(effects@) =~= seq![
                    EffectView::Emit(EventView::StatusChanged),
                ]);
                effects
            },
        }
    }

    fn drop_from_list(&mut self, thread_id: &str)
        ensures
            final(self)@ == (StateView {
                threads: threads_without(old(self)@.threads, thread_id@),
                ..old(self)@
            }),
    {
        let ghost all = summary_views(self.threads@);
        let ghost other = |t: SummaryView| t.id != thread_id@;
        let mut kept: Vec<CodexThreadSummary> = Vec::new();
        let mut i: usize = 0;
        assert(summary_views(kept@) =~= Seq::empty());
        assert(all.take(0).filter(other) =~= Seq::empty()) by {
            reveal(Seq::filter);
        }
        while i < self.threads.len()
            invariant
                i <= self.threads@.len(),
                all == summary_views(self.threads@),
                other == (|t: SummaryView| t.id != thread_id@),
                summary_views(kept@) == all.take(i as int).filter(other),
            decreases self.threads@.len() - i,
        {
            let ghost done = summary_views(kept@);
            proof {
                reveal(Seq::filter);
                assert(all.take(i as int + 1).drop_last() =~= all.take(i as int));
                assert(all.take(i as int + 1).last() == self.threads@[i as int]@);
            }
            if !same(self.threads[i].id.as_str(), thread_id) {
                kept.push(self.threads[i].clone());
                assert(summary_views(kept@) =~= done.push(self.threads@[i as int]@));
            }
            i = i + 1;
        }
        assert(all.take(i as int) =~= all);
        self.threads = kept;
    }

    fn is_active(&self, thread_id: &str) -> (r: bool)
        ensures
            r == self@.is_active(thread_id@),
    {
        match &self.active_thread {
            Some(thread) => same(thread.summary.id.as_str(), thread_id),
            None => false,
        }
    }

    /// A thread is gone: nothing of it is left.
    pub fn remove_thread_locally(&mut self, thread_id: &str) -> (r: Vec<CodexEffect>)
        ensures
            (final(self)@, effect_views(r@)) == thread_removed(old(self)@, thread_id@),
    {
        let mut effects = no_effects();
        self.drop_from_list(thread_id);
        let opening = match &self.opening_thread_id {
            Some(id) => same(id.as_str(), thread_id),
            None => false,
        };
        if opening {
            self.opening_thread_id = None;
        }
        let local = match &self.local_turn_thread_id {
            Some(id) => same(id.as_str(), thread_id),
            None => false,
        };
        if local {
            self.local_turn_thread_id = None;
        }
        let turning = match &self.active_turn {
            Some(turn) => same(turn.thread_id.as_str(), thread_id),
            None => false,
        };
        if turning {
            self.active_turn = None;
        }
        if self.is_active(thread_id) {
            self.stop_active_thread_polling();
            self.active_thread = None;
            emit(&mut effects, CodexAppServerModelEvent::ActiveThreadChanged);
        }
        let conversation = self.conversation_id_by_thread_id.get(thread_id);
        self.conversation_id_by_thread_id.remove(thread_id);
        if let Some(id) = conversation {
            self.thread_id_by_conversation_id.remove(id);
            push_effect(&mut effects, CodexEffect::DeleteConversation(id));
        }
        emit(&mut effects, CodexAppServerModelEvent::ThreadsChanged);
        assert(effect_views(effects@) =~= thread_removed(old(self)@, thread_id@).1);
        effects
    }

    /// The user starts a new conversation.
    pub fn start_new_conversation(&mut self, settings: &CodexAppServerSettings) -> (r: Vec<
        CodexEffect,
    >)
        ensures
            (final(self)@, effect_views(r@)) == guarded(
                old(self)@,
                *settings,
                (
                    old(self)@.without_open_thread(),
                    seq![
                        EffectView::Emit(EventView::ActiveThreadChanged),
                        EffectView::StartThread {
                            config: settings_config(*settings)->Ok_0,
                            model_id: old(self)@.selected_model_id,
                            cwd: if old(self)@.project_roots.len() > 0 {
                                Some(old(self)@.project_roots[0])
                            } else {
                                None
                            },
                        },
                    ],
                ),
            ),
    {
        let mut effects = no_effects();
        if !settings.enabled {
            return effects;
        }
        match config_or_message(settings) {
            Err(message) => {
                self.disconnect(message, &mut effects);
                assert(effect_views(effects@) =~= seq![
                    EffectView::Emit(EventView::StatusChanged),
                ]);
            },
            Ok(config) => {
                let model_id = clone_option(&self.selected_model_id);
                let cwd = if self.project_roots.len() > 0 {
                    Some(self.project_roots[0].clone())
                } else {
                    None
                };
                self.drop_open_thread();
                emit(&mut effects, CodexAppServerModelEvent::ActiveThreadChanged);
                push_effect(&mut effects, CodexEffect::StartThread { config, model_id, cwd });
                assert(effect_views(effects@) =~= seq![
                    EffectView::Emit(EventView::ActiveThreadChanged),
                    EffectView::StartThread {
                        config: settings_config(*settings)->Ok_0,
                        model_id: old(self)@.selected_model_id,
                        cwd: if old(self)@.project_roots.len() > 0 {
                            Some(old(self)@.project_roots[0])
                        } else {
                            None
                        },
                    },
                ]);
            },
        }
        effects
    }

    /// A new thread was started, or could not be; `fresh` is an identifier that no conversation has.
    pub fn finish_start_new_conversation(
        &mut self,
        result: Result<(CodexThreadDetail, u64), String>,
        fresh: AIConversationId,
        now: Timestamp,
    ) -> (r: Vec<CodexEffect>)
        ensures
            (final(self)@, effect_views(r@)) == start_finished(
                old(self)@,
                started_view(result),
                fresh,
                now,
            ),
    {
        let mut effects = no_effects();
        match result {
            Ok((started, client)) => {
                let mut detail = started;
                if same(detail.summary.title.as_str(), detail.summary.id.as_str()) {
                    detail.summary.title = "New Codex conversation".to_owned();
                }
                let thread_id = detail.summary.id.clone();
                let conversation_id = self.conversation_for(thread_id.as_str(), fresh);
                let conversation = codex_thread_detail_to_ai_conversation(
                    conversation_id,
                    &detail,
                    now,
                );
                push_effect(&mut effects, CodexEffect::CacheConversation(conversation));
                self.link(conversation_id, thread_id.as_str());
                let _ = upsert_thread_summary(
                    self.path_style,
                    &mut self.threads,
                    detail.summary.clone(),
                );
                self.active_thread = Some(detail);
                self.started_thread = Some((thread_id.clone(), client));
                self.status = CodexAppServerStatus::Connected;
                emit(&mut effects, CodexAppServerModelEvent::ThreadsChanged);
                emit(&mut effects, CodexAppServerModelEvent::ActiveThreadChanged);
                emit(&mut effects, CodexAppServerModelEvent::StatusChanged);
                emit(
                    &mut effects,
                    CodexAppServerModelEvent::OpenConversation { conversation_id, thread_id },
                );
            },
            Err(message) => {
                self.disconnect(message, &mut effects);
                emit(&mut effects, CodexAppServerModelEvent::ActiveThreadChanged);
            },
        }
        assert(effect_views(effects@) =~= start_finished(
            old(self)@,
            started_view(result),
            fresh,
            now,
        ).1);
        effects
    }

    fn take_started_thread(&mut self, thread_id: &str) -> (r: Option<u64>)
        ensures
            r == old(self)@.started_client(thread_id@),
            final(self)@ == old(self)@.without_started(thread_id@),
    {
        let started = match &self.started_thread {
            Some((id, client)) => {
                if should_resume_thread(Some(id.as_str()), thread_id) {
                    None
                } else {
                    Some(*client)
                }
            },
            None => None,
        };
        if started.is_some() {
            self.started_thread = None;
        }
        started
    }

    fn collaboration_mode_model_id(&self) -> (r: Option<String>)
        ensures
            opt_view(r) == self@.plan_model_id(),
    {
        if self.selected_model_id.is_some() {
            return clone_option(&self.selected_model_id);
        }
        let ghost all = self@.models;
        let mut i: usize = 0;
        assert(all.skip(0) =~= all);
        while i < self.models.len()
            invariant
                i <= self.models@.len(),
                all == model_views(self.models@),
                self@.selected_model_id is None,
                all == self@.models,
                first_default(all) == first_default(all.skip(i as int)),
            decreases self.models@.len() - i,
        {
            assert(all.skip(i as int)[0] == self.models@[i as int]@);
            assert(all.skip(i as int).skip(1) =~= all.skip(i as int + 1));
            if self.models[i].is_default {
                return Some(self.models[i].id.clone());
            }
            i = i + 1;
        }
        if self.models.len() > 0 {
            Some(self.models[0].id.clone())
        } else {
            None
        }
    }

    fn begin_turn(
        &mut self,
        thread_id: &str,
        request: CodexPromptRequest,
        config: CodexAppServerConfig,
        context: Option<CodexConversationTurnContext>,
        effects: &mut Vec<CodexEffect>,
    )
        ensures
            final(self)@ == turn_begun(old(self)@, thread_id@, request@, config@, context).0,
            effect_views(final(effects)@) == effect_views(old(effects)@).push(
                turn_begun(old(self)@, thread_id@, request@, config@, context).1,
            ),
    {
        self.active_turn = None;
        self.local_turn_thread_id = Some(thread_id.to_owned());
        let model_id = clone_option(&self.selected_model_id);
        let collaboration_mode_model_id = self.collaboration_mode_model_id();
        let client = self.take_started_thread(thread_id);
        push_effect(
            effects,
            CodexEffect::ContinueThread {
                config,
                thread_id: thread_id.to_owned(),
                prompt: request.prompt,
                model_id,
                collaboration_mode: request.collaboration_mode,
                collaboration_mode_model_id,
                client,
                context,
            },
        );
    }

    /// The user sends a prompt to the active thread.
    pub fn submit_prompt(&mut self, prompt: &str, settings: &CodexAppServerSettings) -> (r: Vec<
        CodexEffect,
    >)
        ensures
            (final(self)@, effect_views(r@)) == prompt_submitted(old(self)@, prompt@, *settings),
    {
        let mut effects = no_effects();
        let request = match parse_codex_prompt_request(prompt) {
            Some(request) => request,
            None => {
                return effects;
            },
        };
        let mut thread = match self.active_thread.take() {
            Some(thread) => thread,
            None => {
                return effects;
            },
        };
        let thread_id = thread.summary.id.clone();
        let ghost items = item_views(thread.items@);
        thread.items.push(
            CodexConversationItem {
                role: "user".to_owned(),
                text: display_codex_prompt_request(&request),
            },
        );
        thread.items.push(
            CodexConversationItem {
                role: "codex".to_owned(),
                text: "Waiting for Codex...".to_owned(),
            },
        );
        assert(item_views(thread.items@) =~= items + seq![
            ItemView { role: "user"@, text: shown_prompt(request@) },
            ItemView { role: "codex"@, text: waiting_text() },
        ]);
        self.active_thread = Some(thread);
        emit(&mut effects, CodexAppServerModelEvent::ActiveThreadChanged);
        self.active_turn = None;
        self.local_turn_thread_id = Some(thread_id.clone());
        match config_or_message(settings) {
            Err(message) => {
                self.disconnect(message, &mut effects);
            },
            Ok(config) => {
                self.begin_turn(thread_id.as_str(), request, config, None, &mut effects);
            },
        }
        assert(effect_views(effects@) =~= prompt_submitted(old(self)@, prompt@, *settings).1);
        effects
    }

    /// The user sends a prompt to a conversation: the plan to send it, where it can be sent.
    pub fn plan_conversation_prompt(
        &mut self,
        conversation_id: AIConversationId,
        prompt: &str,
        settings: &CodexAppServerSettings,
    ) -> (r: (Vec<CodexEffect>, Option<CodexPromptPlan>))
        ensures
            ({
                let planned = prompt_planned(old(self)@, conversation_id, prompt@, *settings);
                &&& final(self)@ == planned.0
                &&& effect_views(r.0@) == planned.1
                &&& (match (r.1, planned.2) {
                    (Some(plan), Some(expected)) => plan@ == expected,
                    (None, None) => true,
                    _ => false,
                })
            }),
    {
        let mut effects = no_effects();
        let request = match parse_codex_prompt_request(prompt) {
            Some(request) => request,
            None => {
                return (effects, None);
            },
        };
        let thread_id = match self.thread_id_by_conversation_id.get(conversation_id) {
            Some(thread_id) => thread_id.to_owned(),
            None => {
                return (effects, None);
            },
        };
        match config_or_message(settings) {
            Err(message) => {
                self.disconnect(message, &mut effects);
                assert(effect_views(effects@) =~= seq![
                    EffectView::Emit(EventView::StatusChanged),
                ]);
                (effects, None)
            },
            Ok(config) => {
                let working_directory = match self.known_summary(thread_id.as_str()) {
                    Some(summary) => summary.cwd,
                    None => None,
                };
                let shown_prompt = display_codex_prompt_request(&request);
                (
                    effects,
                    Some(
                        CodexPromptPlan {
                            config,
                            thread_id,
                            request,
                            shown_prompt,
                            working_directory,
                        },
                    ),
                )
            },
        }
    }

    /// Sends a planned prompt, now that the exchange that shows it exists.
    pub fn submit_conversation_prompt(
        &mut self,
        plan: CodexPromptPlan,
        context: CodexConversationTurnContext,
    ) -> (r: Vec<CodexEffect>)
        ensures
            ({
                let begun = turn_begun(
                    old(self)@,
                    plan@.thread_id,
                    plan@.request,
                    plan@.config,
                    Some(context),
                );
                final(self)@ == begun.0 && effect_views(r@) == seq![begun.1]
            }),
    {
        let mut effects = no_effects();
        self.begin_turn(
            plan.thread_id.as_str(),
            plan.request,
            plan.config,
            Some(context),
            &mut effects,
        );
        assert(effect_views(effects@) =~= seq![
            turn_begun(
                old(self)@,
                plan@.thread_id,
                plan@.request,
                plan@.config,
                Some(context),
            ).1,
        ]);
        effects
    }

    /// Adds an item to the active thread.
    fn push_item(&mut self, item: CodexConversationItem)
        requires
            old(self)@.active_thread is Some,
        ensures
            final(self)@ == (StateView {
                active_thread: Some(
                    DetailView {
                        items: old(self)@.active_thread->0.items.push(item@),
                        ..old(self)@.active_thread->0
                    },
                ),
                ..old(self)@
            }),
    {
        if let Some(thread) = self.active_thread.take() {
            let mut thread = thread;
            let ghost before = item_views(thread.items@);
            thread.items.push(item);
            assert(item_views(thread.items@) =~= before.push(item@));
            self.active_thread = Some(thread);
        }
    }

    fn append_items(&mut self, thread_id: &str, items: Vec<CodexConversationItem>)
        ensures
            final(self)@ == old(self)@.with_items(thread_id@, item_views(items@)),
    {
        if !self.is_active(thread_id) {
            return;
        }
        if let Some(thread) = self.active_thread.take() {
            let mut thread = thread;
            let mut items = items;
            let ghost before = item_views(thread.items@);
            let ghost added = item_views(items@);
            let n: usize = thread.items.len();
            let waiting = n > 0 && same(thread.items[n - 1].text.as_str(), "Waiting for Codex...");
            if waiting {
                let _ = thread.items.pop();
            }
            let ghost kept = item_views(thread.items@);
            proof {
                assert(before.len() == n);
                if waiting {
                    assert(kept =~= before.drop_last());
                }
            }
            thread.items.append(&mut items);
            assert(item_views(thread.items@) =~= kept + added);
            self.active_thread = Some(thread);
        }
    }

    /// What came of a turn of the active thread.
    pub fn apply_turn_progress(
        &mut self,
        thread_id: &str,
        result: Result<CodexTurnProgress, String>,
    ) -> (r: Vec<CodexEffect>)
        ensures
            (final(self)@, effect_views(r@)) == turn_progressed(
                old(self)@,
                thread_id@,
                progress_view(result),
            ),
    {
        let mut effects = no_effects();
        self.local_turn_thread_id = None;
        let mut items: Vec<CodexConversationItem> = Vec::new();
        self.active_turn = None;
        match result {
            Ok(progress) => {
                items = progress.items;
                if let Some((client, pending_approval)) = progress.pending {
                    self.active_turn = Some(
                        CodexActiveTurn {
                            thread_id: thread_id.to_owned(),
                            client,
                            pending_approval,
                            conversation_context: None,
                        },
                    );
                }
            },
            Err(message) => {
                items.push(CodexConversationItem { role: "error".to_owned(), text: message });
                assert(item_views(items@) =~= seq![
                    ItemView { role: "error"@, text: message@ },
                ]);
            },
        }
        self.append_items(thread_id, items);
        if self.active_turn.is_none() {
            self.start_active_thread_polling(thread_id, &mut effects);
        }
        emit(&mut effects, CodexAppServerModelEvent::ActiveThreadChanged);
        assert(effect_views(effects@) =~= turn_progressed(
            old(self)@,
            thread_id@,
            progress_view(result),
        ).1);
        effects
    }

    /// What came of a conversation's turn.
    pub fn apply_conversation_turn_progress(
        &mut self,
        thread_id: &str,
        context: CodexConversationTurnContext,
        result: Result<CodexTurnProgress, String>,
    ) -> (r: Vec<CodexEffect>)
        ensures
            (final(self)@, effect_views(r@)) == conversation_turn_progressed(
                old(self)@,
                thread_id@,
                context,
                progress_view(result),
            ),
    {
        let mut effects = no_effects();
        self.active_turn = None;
        self.local_turn_thread_id = None;
        let is_error = result.is_err();
        let output_text = match result {
            Ok(progress) => {
                let text = codex_items_to_agent_text(progress.items.as_slice());
                if let Some((client, pending_approval)) = progress.pending {
                    self.active_turn = Some(
                        CodexActiveTurn {
                            thread_id: thread_id.to_owned(),
                            client,
                            pending_approval,
                            conversation_context: Some(context),
                        },
                    );
                }
                text
            },
            Err(message) => concat2("Codex app-server error: ", message.as_str()),
        };
        let is_finished = self.active_turn.is_none();
        if is_finished {
            self.start_active_thread_polling(thread_id, &mut effects);
        }
        push_effect(
            &mut effects,
            CodexEffect::UpdateExchange {
                context,
                output_text: output_text.clone(),
                is_finished,
                is_error,
            },
        );
        if self.is_active(thread_id) && (!blank(output_text.as_str()) || is_error) {
            let role = if is_error {
                "error".to_owned()
            } else {
                "codex".to_owned()
            };
            self.push_item(CodexConversationItem { role, text: output_text });
        }
        emit(&mut effects, CodexAppServerModelEvent::ActiveThreadChanged);
        assert(effect_views(effects@) =~= conversation_turn_progressed(
            old(self)@,
            thread_id@,
            context,
            progress_view(result),
        ).1);
        effects
    }

    fn answer_request(
        &mut self,
        turn: CodexActiveTurn,
        item: CodexConversationItem,
        result: JsonValue,
    ) -> (r: Vec<CodexEffect>)
        requires
            old(self)@.active_turn is None,
        ensures
            (final(self)@, effect_views(r@)) == request_answered(
                old(self)@,
                turn@,
                item@,
                result@,
            ),
    {
        let mut effects = no_effects();
        let mut items: Vec<CodexConversationItem> = Vec::new();
        items.push(item);
        assert(item_views(items@) =~= seq![item@]);
        self.append_items(turn.thread_id.as_str(), items);
        emit(&mut effects, CodexAppServerModelEvent::ActiveThreadChanged);
        self.local_turn_thread_id = Some(turn.thread_id.clone());
        push_effect(
            &mut effects,
            CodexEffect::Respond {
                client: turn.client,
                request_id: turn.pending_approval.request_id,
                result,
                thread_id: turn.thread_id,
                context: turn.conversation_context,
            },
        );
        assert(effect_views(effects@) =~= request_answered(old(self)@, turn@, item@, result@).1);
        effects
    }

    /// The user decides on the request that a turn waits for.
    pub fn resolve_pending_approval(&mut self, decision: CodexApprovalDecision) -> (r: Vec<
        CodexEffect,
    >)
        ensures
            (final(self)@, effect_views(r@)) == approval_resolved(old(self)@, decision),
    {
        match self.active_turn.take() {
            Some(turn) => {
                let result = turn.pending_approval.approval_result(decision);
                let text = concat2(decision.label(), ".");
                self.answer_request(
                    turn,
                    CodexConversationItem { role: "approval".to_owned(), text },
                    result,
                )
            },
            None => no_effects(),
        }
    }

    /// The user answers a question that a turn waits for.
    pub fn resolve_pending_user_input(&mut self, question_id: &str, answer: &str) -> (r: Vec<
        CodexEffect,
    >)
        ensures
            (final(self)@, effect_views(r@)) == user_input_resolved(
                old(self)@,
                question_id@,
                answer@,
            ),
    {
        match self.active_turn.take() {
            Some(turn) => match turn.pending_approval.user_input_result(question_id, answer) {
                Some(result) => self.answer_request(
                    turn,
                    CodexConversationItem { role: "user".to_owned(), text: answer.to_owned() },
                    result,
                ),
                None => {
                    self.active_turn = Some(turn);
                    no_effects()
                },
            },
            None => no_effects(),
        }
    }

    /// A poll that was scheduled with a generation is still wanted.
    pub fn should_poll_active_thread(&self, thread_id: &str, generation: u64) -> (r: bool)
        ensures
            r == self@.wants_poll(thread_id@, generation),
    {
        self.active_thread_poll_generation == generation && self.is_active(thread_id)
    }

    /// A scheduled poll is due.
    pub fn poll_active_thread(
        &mut self,
        thread_id: &str,
        generation: u64,
        settings: &CodexAppServerSettings,
    ) -> (r: Vec<CodexEffect>)
        ensures
            (final(self)@, effect_views(r@)) == poll_due(
                old(self)@,
                thread_id@,
                generation,
                *settings,
            ),
    {
        let mut effects = no_effects();
        if !self.should_poll_active_thread(thread_id, generation) {
            return effects;
        }
        let turning = match &self.active_turn {
            Some(turn) => same(turn.thread_id.as_str(), thread_id),
            None => false,
        };
        let local = match &self.local_turn_thread_id {
            Some(id) => same(id.as_str(), thread_id),
            None => false,
        };
        if turning || local {
            push_effect(
                &mut effects,
                CodexEffect::SchedulePoll { thread_id: thread_id.to_owned(), generation },
            );
            assert(effect_views(effects@) =~= seq![
                EffectView::SchedulePoll { thread_id: thread_id@, generation },
            ]);
            return effects;
        }
        if !settings.enabled {
            return effects;
        }
        match config_or_message(settings) {
            Err(message) => {
                self.disconnect(message, &mut effects);
            },
            Ok(config) => {
                let fallback_summary = match &self.active_thread {
                    Some(thread) => Some(thread.summary.clone()),
                    None => None,
                };
                push_effect(
                    &mut effects,
                    CodexEffect::ReadThread {
                        config,
                        thread_id: thread_id.to_owned(),
                        fallback_summary,
                        purpose: ReadPurpose::Poll { generation },
                    },
                );
            },
        }
        assert(effect_views(effects@) =~= poll_due(
            old(self)@,
            thread_id@,
            generation,
            *settings,
        ).1);
        effects
    }

    fn shows(&self, detail: &CodexThreadDetail) -> (r: bool)
        ensures
            r == shows_detail(self@.path_style, self@.active_thread, detail@),
    {
        match &self.active_thread {
            Some(thread) => thread.summary.same_as(self.path_style, &detail.summary) && same_items(
                &thread.items,
                &detail.items,
            ),
            None => false,
        }
    }

    fn apply_polled_thread_detail(
        &mut self,
        detail: CodexThreadDetail,
        now: Timestamp,
        effects: &mut Vec<CodexEffect>,
    )
        ensures
            final(self)@ == polled_applied(old(self)@, detail@, now).0,
            effect_views(final(effects)@) == effect_views(old(effects)@) + polled_applied(
                old(self)@,
                detail@,
                now,
            ).1,
    {
        let ghost told = effect_views(effects@);
        let thread_id = detail.summary.id.clone();
        let summary_changed = upsert_thread_summary(
            self.path_style,
            &mut self.threads,
            detail.summary.clone(),
        );
        let applies = should_apply_polled_thread_detail(self.active_thread(), &detail);
        if applies && !self.shows(&detail) {
            if let Some(id) = self.conversation_id_by_thread_id.get(thread_id.as_str()) {
                let conversation = codex_thread_detail_to_ai_conversation(id, &detail, now);
                push_effect(effects, CodexEffect::RefreshConversation(conversation));
            }
            self.active_thread = Some(detail);
            emit(effects, CodexAppServerModelEvent::ActiveThreadChanged);
        }
        if summary_changed {
            emit(effects, CodexAppServerModelEvent::ThreadsChanged);
        }
        assert(effect_views(effects@) =~= told + polled_applied(old(self)@, detail@, now).1);
    }

    /// A poll is over.
    pub fn finish_poll(
        &mut self,
        thread_id: &str,
        generation: u64,
        result: Result<CodexThreadDetail, String>,
        now: Timestamp,
    ) -> (r: Vec<CodexEffect>)
        ensures
            (final(self)@, effect_views(r@)) == poll_finished(
                old(self)@,
                thread_id@,
                generation,
                read_result_view(result),
                now,
            ),
    {
        let mut effects = no_effects();
        if !self.should_poll_active_thread(thread_id, generation) {
            return effects;
        }
        if let Ok(detail) = result {
            self.apply_polled_thread_detail(detail, now, &mut effects);
        }
        if self.should_poll_active_thread(thread_id, generation) {
            push_effect(
                &mut effects,
                CodexEffect::SchedulePoll { thread_id: thread_id.to_owned(), generation },
            );
        }
        assert(effect_views(effects@) =~= poll_finished(
            old(self)@,
            thread_id@,
            generation,
            read_result_view(result),
            now,
        ).1);
        effects
    }
}

} // verus!
