//! The model behind the OpenCode panel.
use crate::codex_app_server::model::next_generation;
use crate::codex_app_server::turn::as_deref;
use crate::conversation::{AIConversationId, ConversationIndex, ThreadIndex};
use crate::modeled::{contents, opt_content, opt_ref_content, same_all};
use crate::opencode_server::address::{
    OpenCodeServerConfig, ServerConfigView, ServerErrorView, server_error_message,
};
use crate::opencode_server::catalog::{find_session, session_with_id, upsert_session_summary};
use crate::opencode_server::effect::{
    OpenCodeEffect, OpenCodeSelectedModel, OpenCodeServerModelEvent, OpenCodeServerSettings,
    OpenCodeTurnContext, PanelEffectView, PanelEventView, SessionReadPurpose, answer_views,
    no_panel_effects, panel_effects, push_panel_effect, selected_view, tell,
};
use crate::opencode_server::history::{
    opencode_prompt_result_output_text, opencode_session_detail_to_ai_conversation,
};
use crate::opencode_server::model::{
    PanelView, PromptPlanView, PromptResultView, configured, everything_changed, model_named,
    panel_refresh_finished, panel_refreshed, pending_applied, pending_cleared, pending_poll_due,
    pending_poll_finished, permission_resolved, question_settled, session_detail_applied,
    session_open_finished, session_opened, session_poll_due, session_poll_finished,
    session_polling_started, session_prompt_finished, session_prompt_planned, session_prompt_sent,
    session_requested, session_started, with_answer,
};
use crate::opencode_server::pending::{
    drop_request, find_for_session, find_request, first_of_session, sort_out,
};
use crate::opencode_server::types::{
    ModelInfoView, OpenCodeConversationItem, OpenCodeModelInfo, OpenCodePendingPermission,
    OpenCodePendingQuestion, OpenCodePermissionReply, OpenCodeServerStatus, OpenCodeSessionDetail,
    OpenCodeSessionSummary, PendingQuestionView, PermissionView, SessionDetailView, SessionView,
};
use crate::path::{PathStyle, dedupe_paths, distinct_paths, same_paths, same_paths_in};
use crate::text::{
    blank, clone_option, clone_texts, concat2, opt_str_view, opt_view, same, same_option, views,
};
use crate::time::Timestamp;
use vstd::prelude::*;

verus! {

/// The state of the OpenCode panel.
pub struct OpenCodeServerModel {
    status: OpenCodeServerStatus,
    sessions: Vec<OpenCodeSessionSummary>,
    active_session: Option<OpenCodeSessionDetail>,
    local_turn_session_id: Option<String>,
    pending_permissions: Vec<OpenCodePendingPermission>,
    pending_questions: Vec<OpenCodePendingQuestion>,
    pending_request_poll_generation: u64,
    models: Vec<OpenCodeModelInfo>,
    selected_model_id: Option<String>,
    project_roots: Vec<String>,
    path_style: PathStyle,
    opening_session_id: Option<String>,
    active_session_poll_generation: u64,
    conversation_id_by_session_id: ConversationIndex,
    session_id_by_conversation_id: ThreadIndex,
}

/// A prompt for a conversation's session, ready to be sent once the exchange that shows it exists.
pub struct OpenCodePromptPlan {
    pub config: OpenCodeServerConfig,
    pub session_id: String,
    pub fallback_summary: Option<OpenCodeSessionSummary>,
    pub prompt: String,
    pub working_directory: Option<String>,
}

impl OpenCodePromptPlan {
    pub open spec fn view(&self) -> PromptPlanView {
        PromptPlanView {
            config: self.config@,
            session_id: self.session_id@,
            fallback_summary: opt_content(self.fallback_summary),
            prompt: self.prompt@,
            working_directory: opt_view(self.working_directory),
        }
    }
}

/// What came of a prompt: the server's immediate answer, and the session as it then stood.
pub struct OpenCodePromptResult {
    pub output_items: Vec<OpenCodeConversationItem>,
    pub detail: Option<OpenCodeSessionDetail>,
}

impl OpenCodePromptResult {
    pub open spec fn view(&self) -> PromptResultView {
        PromptResultView {
            output_items: contents(self.output_items@),
            detail: opt_content(self.detail),
        }
    }
}

/// What was found to wait for the user.
pub struct OpenCodePendingRequests {
    pub permissions: Vec<OpenCodePendingPermission>,
    pub questions: Vec<OpenCodePendingQuestion>,
}

/// The model of the lists that a refresh brought.
pub open spec fn panel_snapshot_view(
    result: Result<(Vec<OpenCodeSessionSummary>, Vec<OpenCodeModelInfo>), String>,
) -> Result<(Seq<SessionView>, Seq<ModelInfoView>), Seq<char>> {
    match result {
        Ok((sessions, models)) => Ok((contents(sessions@), contents(models@))),
        Err(error) => Err(error@),
    }
}

/// The model of the outcome of reading a session.
pub open spec fn session_result_view(result: Result<OpenCodeSessionDetail, String>) -> Result<
    SessionDetailView,
    Seq<char>,
> {
    match result {
        Ok(detail) => Ok(detail@),
        Err(error) => Err(error@),
    }
}

/// The model of the outcome of a prompt.
pub open spec fn prompt_result_view(result: Result<OpenCodePromptResult, String>) -> Result<
    PromptResultView,
    Seq<char>,
> {
    match result {
        Ok(result) => Ok(result@),
        Err(error) => Err(error@),
    }
}

/// The model of the outcome of a look for requests.
pub open spec fn requests_view(result: Result<OpenCodePendingRequests, String>) -> Result<
    (Seq<PermissionView>, Seq<PendingQuestionView>),
    Seq<char>,
> {
    match result {
        Ok(requests) => Ok((contents(requests.permissions@), contents(requests.questions@))),
        Err(error) => Err(error@),
    }
}

/// The configuration that the settings stand for, or what is said of the error.
fn configure(settings: &OpenCodeServerSettings) -> (r: Result<OpenCodeServerConfig, String>)
    ensures
        match r {
            Ok(config) => configured(*settings) == Ok::<ServerConfigView, ServerErrorView>(config@),
            Err(message) => configured(*settings) is Err && message@ == server_error_message(
                configured(*settings)->Err_0,
            ),
        },
{
    match OpenCodeServerConfig::from_values(
        settings.server_url.as_str(),
        settings.username.as_str(),
        settings.password.as_str(),
    ) {
        Ok(config) => Ok(config),
        Err(error) => Err(error.message()),
    }
}

fn find_model(models: &Vec<OpenCodeModelInfo>, id: &str) -> (r: Option<usize>)
    ensures
        match r {
            Some(i) => i < models@.len() && model_named(contents(models@), id@) == Some(
                models@[i as int]@,
            ),
            None => model_named(contents(models@), id@) is None,
        },
{
    let ghost all = contents(models@);
    let mut i: usize = 0;
    assert(all.skip(0) =~= all);
    while i < models.len()
        invariant
            i <= models@.len(),
            all == contents(models@),
            model_named(all, id@) == model_named(all.skip(i as int), id@),
        decreases models@.len() - i,
    {
        assert(all.skip(i as int)[0] == models@[i as int]@);
        assert(all.skip(i as int).skip(1) =~= all.skip(i as int + 1));
        if same(models[i].id.as_str(), id) {
            return Some(i);
        }
        i = i + 1;
    }
    None
}

fn advance(generation: u64) -> (r: u64)
    ensures
        r == next_generation(generation),
{
    if generation == u64::MAX {
        0
    } else {
        generation + 1
    }
}

impl OpenCodeServerModel {
    /// The state.
    pub closed spec fn view(&self) -> PanelView {
        PanelView {
            status: self.status@,
            sessions: contents(self.sessions@),
            active_session: opt_content(self.active_session),
            local_turn_session_id: opt_view(self.local_turn_session_id),
            permissions: contents(self.pending_permissions@),
            questions: contents(self.pending_questions@),
            pending_generation: self.pending_request_poll_generation,
            models: contents(self.models@),
            selected_model_id: opt_view(self.selected_model_id),
            project_roots: views(self.project_roots@),
            path_style: self.path_style,
            opening_session_id: opt_view(self.opening_session_id),
            poll_generation: self.active_session_poll_generation,
            conversations: self.conversation_id_by_session_id@,
            session_ids: self.session_id_by_conversation_id@,
        }
    }

    /// A model that has not looked at the server yet.
    pub fn new(path_style: PathStyle) -> (r: Self)
        ensures
            r@ == PanelView::initial(path_style),
    {
        let r = OpenCodeServerModel {
            status: OpenCodeServerStatus::Disabled,
            sessions: Vec::new(),
            active_session: None,
            local_turn_session_id: None,
            pending_permissions: Vec::new(),
            pending_questions: Vec::new(),
            pending_request_poll_generation: 0,
            models: Vec::new(),
            selected_model_id: None,
            project_roots: Vec::new(),
            path_style,
            opening_session_id: None,
            active_session_poll_generation: 0,
            conversation_id_by_session_id: ConversationIndex::new(),
            session_id_by_conversation_id: ThreadIndex::new(),
        };
        assert(r@.sessions =~= Seq::empty());
        assert(r@.permissions =~= Seq::empty());
        assert(r@.questions =~= Seq::empty());
        assert(r@.models =~= Seq::empty());
        assert(r@.project_roots =~= Seq::empty());
        r
    }

    /// How the server stands.
    pub fn status(&self) -> (r: &OpenCodeServerStatus)
        ensures
            r@ == self@.status,
    {
        &self.status
    }

    /// The sessions of the panel.
    pub fn sessions(&self) -> (r: &Vec<OpenCodeSessionSummary>)
        ensures
            contents(r@) == self@.sessions,
    {
        &self.sessions
    }

    /// The active session.
    pub fn active_session(&self) -> (r: Option<&OpenCodeSessionDetail>)
        ensures
            opt_ref_content(r) == self@.active_session,
    {
        match &self.active_session {
            Some(session) => Some(session),
            None => None,
        }
    }

    /// The permission that a conversation waits for.
    pub fn pending_permission_for_conversation(
        &self,
        conversation_id: AIConversationId,
    ) -> (r: Option<&OpenCodePendingPermission>)
        ensures
            opt_ref_content(r) == (match self@.session_ids.get(conversation_id) {
                Some(session_id) => first_of_session::<OpenCodePendingPermission>(
                    self@.permissions,
                    session_id,
                ),
                None => None,
            }),
    {
        match self.session_id_by_conversation_id.get(conversation_id) {
            Some(session_id) => find_for_session(&self.pending_permissions, session_id),
            None => None,
        }
    }

    /// The questions that a conversation waits for.
    pub fn pending_question_for_conversation(
        &self,
        conversation_id: AIConversationId,
    ) -> (r: Option<&OpenCodePendingQuestion>)
        ensures
            opt_ref_content(r) == (match self@.session_ids.get(conversation_id) {
                Some(session_id) => first_of_session::<OpenCodePendingQuestion>(
                    self@.questions,
                    session_id,
                ),
                None => None,
            }),
    {
        match self.session_id_by_conversation_id.get(conversation_id) {
            Some(session_id) => find_for_session(&self.pending_questions, session_id),
            None => None,
        }
    }

    /// The session that is being opened.
    pub fn opening_session_id(&self) -> (r: Option<&str>)
        ensures
            opt_str_view(r) == self@.opening_session_id,
    {
        as_deref(&self.opening_session_id)
    }

    /// The models that the server offers.
    pub fn models(&self) -> (r: &Vec<OpenCodeModelInfo>)
        ensures
            contents(r@) == self@.models,
    {
        &self.models
    }

    /// There are models to choose from.
    pub fn has_model_choices(&self) -> (r: bool)
        ensures
            r == (self@.models.len() > 0),
    {
        self.models.len() > 0
    }

    /// The model that the user selected.
    pub fn selected_model_id(&self) -> (r: Option<&str>)
        ensures
            opt_str_view(r) == self@.selected_model_id,
    {
        as_deref(&self.selected_model_id)
    }

    /// The name of the model that the user selected.
    pub fn selected_model_display_name(&self) -> (r: String)
        ensures
            r@ == (match self@.selected_model_id {
                Some(id) => match model_named(self@.models, id) {
                    Some(model) => model.display_name,
                    None => "opencode"@,
                },
                None => "opencode"@,
            }),
    {
        if let Some(id) = &self.selected_model_id {
            if let Some(i) = find_model(&self.models, id.as_str()) {
                return self.models[i].display_name.clone();
            }
        }
        "opencode".to_owned()
    }

    /// The user selects a model, or none. A model that is not offered cannot be selected.
    pub fn set_selected_model_id(&mut self, model_id: Option<String>) -> (r: Vec<OpenCodeEffect>)
        ensures
            ({
                let wanted = match opt_view(model_id) {
                    Some(id) => if model_named(old(self)@.models, id) is Some {
                        Some(id)
                    } else {
                        None
                    },
                    None => None,
                };
                &&& final(self)@ == (PanelView { selected_model_id: wanted, ..old(self)@ })
                &&& panel_effects(r@) == (if old(self)@.selected_model_id == wanted {
                    Seq::<PanelEffectView>::empty()
                } else {
                    seq![PanelEffectView::Emit(PanelEventView::ModelsChanged)]
                })
            }),
    {
        let mut effects = no_panel_effects();
        let wanted = match model_id {
            Some(id) => {
                if find_model(&self.models, id.as_str()).is_some() {
                    Some(id)
                } else {
                    None
                }
            },
            None => None,
        };
        if same_option(&self.selected_model_id, &wanted) {
            return effects;
        }
        self.selected_model_id = wanted;
        tell(&mut effects, OpenCodeServerModelEvent::ModelsChanged);
        assert(panel_effects(effects@) =~= seq![
            PanelEffectView::Emit(PanelEventView::ModelsChanged),
        ]);
        effects
    }

    /// The conversation that mirrors a session.
    pub fn conversation_id_for_session(&self, session_id: &str) -> (r: Option<AIConversationId>)
        ensures
            r == self@.conversations.get(session_id@),
    {
        self.conversation_id_by_session_id.get(session_id)
    }

    /// The session that a conversation mirrors.
    pub fn session_id_for_conversation(&self, conversation_id: AIConversationId) -> (r: Option<
        &str,
    >)
        ensures
            opt_str_view(r) == self@.session_ids.get(conversation_id),
    {
        self.session_id_by_conversation_id.get(conversation_id)
    }

    /// The conversation mirrors a session.
    pub fn is_opencode_conversation(&self, conversation_id: AIConversationId) -> (r: bool)
        ensures
            r == self@.session_ids.contains_key(conversation_id),
    {
        self.session_id_by_conversation_id.get(conversation_id).is_some()
    }

    fn stop_active_session_polling(&mut self)
        ensures
            final(self)@ == old(self)@.stop_polling(),
    {
        self.active_session_poll_generation = advance(self.active_session_poll_generation);
    }

    fn start_active_session_polling(&mut self, session_id: &str, effects: &mut Vec<OpenCodeEffect>)
        ensures
            final(self)@ == session_polling_started(old(self)@, session_id@).0,
            panel_effects(final(effects)@) == panel_effects(old(effects)@).push(
                session_polling_started(old(self)@, session_id@).1,
            ),
    {
        self.stop_active_session_polling();
        push_panel_effect(
            effects,
            OpenCodeEffect::ScheduleSessionPoll {
                session_id: session_id.to_owned(),
                generation: self.active_session_poll_generation,
            },
        );
    }

    fn drop_server_data(&mut self)
        ensures
            final(self)@ == old(self)@.without_server_data(),
    {
        self.stop_active_session_polling();
        self.sessions = Vec::new();
        self.active_session = None;
        self.local_turn_session_id = None;
        self.pending_permissions = Vec::new();
        self.pending_questions = Vec::new();
        self.models = Vec::new();
        assert(self@.sessions =~= Seq::empty());
        assert(self@.permissions =~= Seq::empty());
        assert(self@.questions =~= Seq::empty());
        assert(self@.models =~= Seq::empty());
    }

    fn drop_open_session(&mut self)
        ensures
            final(self)@ == old(self)@.without_open_session(),
    {
        self.stop_active_session_polling();
        self.active_session = None;
        self.local_turn_session_id = None;
    }

    fn disconnect(&mut self, message: String, effects: &mut Vec<OpenCodeEffect>)
        ensures
            final(self)@ == old(self)@.disconnected(message@),
            panel_effects(final(effects)@) == panel_effects(old(effects)@).push(
                PanelEffectView::Emit(PanelEventView::StatusChanged),
            ),
    {
        self.status = OpenCodeServerStatus::Disconnected { message };
        tell(effects, OpenCodeServerModelEvent::StatusChanged);
    }

    fn tell_everything() -> (r: Vec<OpenCodeEffect>)
        ensures
            panel_effects(r@) == everything_changed(),
    {
        let mut effects = no_panel_effects();
        tell(&mut effects, OpenCodeServerModelEvent::StatusChanged);
        tell(&mut effects, OpenCodeServerModelEvent::SessionsChanged);
        tell(&mut effects, OpenCodeServerModelEvent::ActiveSessionChanged);
        tell(&mut effects, OpenCodeServerModelEvent::PendingRequestsChanged);
        tell(&mut effects, OpenCodeServerModelEvent::ModelsChanged);
        assert(panel_effects(effects@) =~= everything_changed());
        effects
    }

    fn listed_summary(&self, session_id: &str) -> (r: Option<OpenCodeSessionSummary>)
        ensures
            opt_content(r) == session_with_id(self@.sessions, session_id@),
    {
        match find_session(&self.sessions, session_id) {
            Some(i) => Some(self.sessions[i].clone()),
            None => None,
        }
    }

    fn is_active(&self, session_id: &str) -> (r: bool)
        ensures
            r == self@.is_active(session_id@),
    {
        match &self.active_session {
            Some(session) => same(session.summary.id.as_str(), session_id),
            None => false,
        }
    }

    fn known_summary(&self, session_id: &str) -> (r: Option<OpenCodeSessionSummary>)
        ensures
            opt_content(r) == self@.known_summary(session_id@),
    {
        if let Some(session) = &self.active_session {
            if same(session.summary.id.as_str(), session_id) {
                return Some(session.summary.clone());
            }
        }
        self.listed_summary(session_id)
    }

    fn directory_for_session(&self, session_id: &str) -> (r: Option<String>)
        ensures
            opt_view(r) == self@.directory_of(session_id@),
    {
        if let Some(session) = &self.active_session {
            if same(session.summary.id.as_str(), session_id) {
                if let Some(directory) = &session.summary.directory {
                    return Some(directory.clone());
                }
            }
        }
        match self.listed_summary(session_id) {
            Some(summary) => summary.directory,
            None => None,
        }
    }

    fn selected_model(&self) -> (r: Option<OpenCodeSelectedModel>)
        ensures
            selected_view(r) == self@.selected_model(),
    {
        if let Some(id) = &self.selected_model_id {
            if let Some(i) = find_model(&self.models, id.as_str()) {
                return Some(
                    OpenCodeSelectedModel {
                        provider_id: self.models[i].provider_id.clone(),
                        model_id: self.models[i].model_id.clone(),
                    },
                );
            }
        }
        None
    }

    fn has_local_turn(&self, session_id: &str) -> (r: bool)
        ensures
            r == (self@.local_turn_session_id == Some(session_id@)),
    {
        match &self.local_turn_session_id {
            Some(id) => same(id.as_str(), session_id),
            None => false,
        }
    }

    /// The projects whose sessions are listed. A change makes the model look at the server afresh.
    pub fn set_project_roots(
        &mut self,
        roots: &Vec<String>,
        settings: &OpenCodeServerSettings,
    ) -> (r:
        Vec<OpenCodeEffect>)
        ensures
            ({
                let wanted = distinct_paths(old(self)@.path_style, views(roots@));
                if same_paths_in(old(self)@.path_style, old(self)@.project_roots, wanted) {
                    final(self)@ == old(self)@ && panel_effects(r@) == Seq::<
                        PanelEffectView,
                    >::empty()
                } else {
                    (final(self)@, panel_effects(r@)) == panel_refreshed(
                        PanelView { project_roots: wanted, ..old(self)@ },
                        *settings,
                    )
                }
            }),
    {
        let wanted = dedupe_paths(self.path_style, roots);
        if same_paths(self.path_style, &self.project_roots, &wanted) {
            return no_panel_effects();
        }
        self.project_roots = wanted;
        self.refresh(settings)
    }

    /// Looks at the server afresh.
    pub fn refresh(&mut self, settings: &OpenCodeServerSettings) -> (r: Vec<OpenCodeEffect>)
        ensures
            (final(self)@, panel_effects(r@)) == panel_refreshed(old(self)@, *settings),
    {
        if !settings.enabled {
            self.drop_server_data();
            self.status = OpenCodeServerStatus::Disabled;
            self.selected_model_id = None;
            self.opening_session_id = None;
            self.conversation_id_by_session_id = ConversationIndex::new();
            self.session_id_by_conversation_id = ThreadIndex::new();
            return OpenCodeServerModel::tell_everything();
        }
        match configure(settings) {
            Err(message) => {
                self.drop_server_data();
                self.status = OpenCodeServerStatus::Disconnected { message };
                self.opening_session_id = None;
                OpenCodeServerModel::tell_everything()
            },
            Ok(config) => {
                let mut effects = no_panel_effects();
                self.status = OpenCodeServerStatus::Loading;
                tell(&mut effects, OpenCodeServerModelEvent::StatusChanged);
                push_panel_effect(
                    &mut effects,
                    OpenCodeEffect::ListSessions {
                        config,
                        project_roots: clone_texts(&self.project_roots),
                        imported_project_paths: clone_texts(&settings.imported_project_paths),
                    },
                );
                assert(panel_effects(effects@) =~= panel_refreshed(old(self)@, *settings).1);
                effects
            },
        }
    }

    /// The server's lists arrived, or failed to.
    pub fn finish_refresh(
        &mut self,
        result: Result<(Vec<OpenCodeSessionSummary>, Vec<OpenCodeModelInfo>), String>,
    ) -> (r: Vec<OpenCodeEffect>)
        ensures
            (final(self)@, panel_effects(r@)) == panel_refresh_finished(
                old(self)@,
                panel_snapshot_view(result),
            ),
    {
        let mut effects = no_panel_effects();
        match result {
            Ok((sessions, models)) => {
                self.status = OpenCodeServerStatus::Connected;
                self.sessions = sessions;
                self.models = models;
                let gone = match &self.selected_model_id {
                    Some(id) => find_model(&self.models, id.as_str()).is_none(),
                    None => false,
                };
                if gone {
                    self.selected_model_id = None;
                }
                tell(&mut effects, OpenCodeServerModelEvent::SessionsChanged);
                tell(&mut effects, OpenCodeServerModelEvent::ModelsChanged);
            },
            Err(message) => {
                self.drop_server_data();
                self.status = OpenCodeServerStatus::Disconnected { message };
                tell(&mut effects, OpenCodeServerModelEvent::SessionsChanged);
                tell(&mut effects, OpenCodeServerModelEvent::ActiveSessionChanged);
                tell(&mut effects, OpenCodeServerModelEvent::PendingRequestsChanged);
                tell(&mut effects, OpenCodeServerModelEvent::ModelsChanged);
            },
        }
        tell(&mut effects, OpenCodeServerModelEvent::StatusChanged);
        assert(panel_effects(effects@) =~= panel_refresh_finished(
            old(self)@,
            panel_snapshot_view(result),
        ).1);
        effects
    }

    fn link(&mut self, conversation_id: AIConversationId, session_id: &str)
        ensures
            final(self)@ == old(self)@.linked(conversation_id, session_id@),
    {
        self.conversation_id_by_session_id.insert(session_id, conversation_id);
        self.session_id_by_conversation_id.insert(conversation_id, session_id);
    }

    fn conversation_for(&self, session_id: &str, fresh: AIConversationId) -> (r: AIConversationId)
        ensures
            r == self@.conversation_for(session_id@, fresh),
    {
        match self.conversation_id_by_session_id.get(session_id) {
            Some(id) => id,
            None => fresh,
        }
    }

    /// The user opens a session as a conversation; `fresh` is an identifier that no conversation
    /// has.
    pub fn open_session_as_conversation(
        &mut self,
        session_id: &str,
        fresh: AIConversationId,
        settings: &OpenCodeServerSettings,
    ) -> (r: Vec<OpenCodeEffect>)
        ensures
            (final(self)@, panel_effects(r@)) == session_opened(
                old(self)@,
                session_id@,
                fresh,
                *settings,
            ),
    {
        let mut effects = no_panel_effects();
        if !settings.enabled {
            return effects;
        }
        match configure(settings) {
            Err(message) => {
                self.disconnect(message, &mut effects);
            },
            Ok(config) => {
                let fallback_summary = self.listed_summary(session_id);
                let conversation_id = self.conversation_for(session_id, fresh);
                self.link(conversation_id, session_id);
                self.opening_session_id = Some(session_id.to_owned());
                self.drop_open_session();
                tell(&mut effects, OpenCodeServerModelEvent::ActiveSessionChanged);
                push_panel_effect(
                    &mut effects,
                    OpenCodeEffect::ReadSession {
                        config,
                        session_id: session_id.to_owned(),
                        fallback_summary,
                        purpose: SessionReadPurpose::OpenAsConversation { conversation_id },
                    },
                );
            },
        }
        assert(panel_effects(effects@) =~= session_opened(
            old(self)@,
            session_id@,
            fresh,
            *settings,
        ).1);
        effects
    }

    /// The session of a conversation was read, or could not be.
    pub fn finish_open_session_as_conversation(
        &mut self,
        conversation_id: AIConversationId,
        result: Result<OpenCodeSessionDetail, String>,
        now: Timestamp,
    ) -> (r: Vec<OpenCodeEffect>)
        ensures
            (final(self)@, panel_effects(r@)) == session_open_finished(
                old(self)@,
                conversation_id,
                session_result_view(result),
                now,
            ),
    {
        let mut effects = no_panel_effects();
        self.opening_session_id = None;
        match result {
            Ok(detail) => {
                let session_id = detail.summary.id.clone();
                let conversation = opencode_session_detail_to_ai_conversation(
                    conversation_id,
                    &detail,
                    now,
                );
                push_panel_effect(&mut effects, OpenCodeEffect::CacheConversation(conversation));
                self.link(conversation_id, session_id.as_str());
                self.active_session = Some(detail);
                self.start_active_session_polling(session_id.as_str(), &mut effects);
                tell(&mut effects, OpenCodeServerModelEvent::ActiveSessionChanged);
                tell(
                    &mut effects,
                    OpenCodeServerModelEvent::OpenConversation { conversation_id, session_id },
                );
            },
            Err(message) => {
                self.disconnect(message, &mut effects);
                tell(&mut effects, OpenCodeServerModelEvent::ActiveSessionChanged);
            },
        }
        assert(panel_effects(effects@) =~= session_open_finished(
            old(self)@,
            conversation_id,
            session_result_view(result),
            now,
        ).1);
        effects
    }

    /// The user starts a new conversation.
    pub fn start_new_conversation(&mut self, settings: &OpenCodeServerSettings) -> (r: Vec<
        OpenCodeEffect,
    >)
        ensures
            (final(self)@, panel_effects(r@)) == session_requested(old(self)@, *settings),
    {
        let mut effects = no_panel_effects();
        if !settings.enabled {
            return effects;
        }
        match configure(settings) {
            Err(message) => {
                self.disconnect(message, &mut effects);
            },
            Ok(config) => {
                self.drop_open_session();
                tell(&mut effects, OpenCodeServerModelEvent::ActiveSessionChanged);
                push_panel_effect(
                    &mut effects,
                    OpenCodeEffect::CreateSession {
                        config,
                        project_roots: clone_texts(&self.project_roots),
                        imported_project_paths: clone_texts(&settings.imported_project_paths),
                    },
                );
            },
        }
        assert(panel_effects(effects@) =~= session_requested(old(self)@, *settings).1);
        effects
    }

    /// A new session was started, or could not be; `fresh` is an identifier that no conversation
    /// has.
    pub fn finish_start_new_conversation(
        &mut self,
        result: Result<OpenCodeSessionDetail, String>,
        fresh: AIConversationId,
        now: Timestamp,
    ) -> (r: Vec<OpenCodeEffect>)
        ensures
            (final(self)@, panel_effects(r@)) == session_started(
                old(self)@,
                session_result_view(result),
                fresh,
                now,
            ),
    {
        let mut effects = no_panel_effects();
        match result {
            Ok(detail) => {
                let session_id = detail.summary.id.clone();
                let conversation_id = self.conversation_for(session_id.as_str(), fresh);
                let conversation = opencode_session_detail_to_ai_conversation(
                    conversation_id,
                    &detail,
                    now,
                );
                push_panel_effect(&mut effects, OpenCodeEffect::CacheConversation(conversation));
                self.link(conversation_id, session_id.as_str());
                let _ = upsert_session_summary(
                    self.path_style,
                    &mut self.sessions,
                    detail.summary.clone(),
                );
                self.active_session = Some(detail);
                self.status = OpenCodeServerStatus::Connected;
                self.start_active_session_polling(session_id.as_str(), &mut effects);
                tell(&mut effects, OpenCodeServerModelEvent::SessionsChanged);
                tell(&mut effects, OpenCodeServerModelEvent::ActiveSessionChanged);
                tell(&mut effects, OpenCodeServerModelEvent::StatusChanged);
                tell(
                    &mut effects,
                    OpenCodeServerModelEvent::OpenConversation { conversation_id, session_id },
                );
            },
            Err(message) => {
                self.disconnect(message, &mut effects);
                tell(&mut effects, OpenCodeServerModelEvent::ActiveSessionChanged);
            },
        }
        assert(panel_effects(effects@) =~= session_started(
            old(self)@,
            session_result_view(result),
            fresh,
            now,
        ).1);
        effects
    }

    /// The user sends a prompt to a conversation: the plan to send it, where it can be sent.
    pub fn plan_conversation_prompt(
        &mut self,
        conversation_id: AIConversationId,
        prompt: &str,
        settings: &OpenCodeServerSettings,
    ) -> (r: (Vec<OpenCodeEffect>, Option<OpenCodePromptPlan>))
        ensures
            ({
                let planned = session_prompt_planned(
                    old(self)@,
                    conversation_id,
                    prompt@,
                    *settings,
                );
                &&& final(self)@ == planned.0
                &&& panel_effects(r.0@) == planned.1
                &&& (match (r.1, planned.2) {
                    (Some(plan), Some(expected)) => plan@ == expected,
                    (None, None) => true,
                    _ => false,
                })
            }),
    {
        let mut effects = no_panel_effects();
        let session_id = match self.session_id_by_conversation_id.get(conversation_id) {
            Some(session_id) => session_id.to_owned(),
            None => {
                return (effects, None);
            },
        };
        match configure(settings) {
            Err(message) => {
                self.disconnect(message, &mut effects);
                assert(panel_effects(effects@) =~= seq![
                    PanelEffectView::Emit(PanelEventView::StatusChanged),
                ]);
                (effects, None)
            },
            Ok(config) => {
                let fallback_summary = self.known_summary(session_id.as_str());
                let working_directory = match &fallback_summary {
                    Some(summary) => clone_option(&summary.directory),
                    None => None,
                };
                (
                    effects,
                    Some(
                        OpenCodePromptPlan {
                            config,
                            session_id,
                            fallback_summary,
                            prompt: prompt.to_owned(),
                            working_directory,
                        },
                    ),
                )
            },
        }
    }

    /// Sends a planned prompt, now that the exchange that shows it exists.
    pub fn submit_conversation_prompt(
        &mut self,
        plan: OpenCodePromptPlan,
        context: OpenCodeTurnContext,
        settings: &OpenCodeServerSettings,
    ) -> (r: Vec<OpenCodeEffect>)
        ensures
            (final(self)@, panel_effects(r@)) == session_prompt_sent(
                old(self)@,
                plan@,
                context,
                *settings,
            ),
    {
        self.local_turn_session_id = Some(plan.session_id.clone());
        let selected_model = self.selected_model();
        self.pending_request_poll_generation = advance(self.pending_request_poll_generation);
        let mut effects = self.poll_pending_requests(
            plan.session_id.as_str(),
            self.pending_request_poll_generation,
            settings,
        );
        push_panel_effect(
            &mut effects,
            OpenCodeEffect::PromptSession {
                config: plan.config,
                session_id: plan.session_id,
                fallback_summary: plan.fallback_summary,
                prompt: plan.prompt,
                selected_model,
                context,
            },
        );
        assert(panel_effects(effects@) =~= session_prompt_sent(
            old(self)@,
            plan@,
            context,
            *settings,
        ).1);
        effects
    }

    fn push_answer(
        &mut self,
        session_id: &str,
        item: OpenCodeConversationItem,
        effects: &mut Vec<OpenCodeEffect>,
    )
        ensures
            final(self)@ == with_answer(old(self)@, session_id@, item@).0,
            panel_effects(final(effects)@) == panel_effects(old(effects)@) + with_answer(
                old(self)@,
                session_id@,
                item@,
            ).1,
    {
        let ghost told = panel_effects(effects@);
        if !self.is_active(session_id) {
            assert(told + Seq::empty() =~= told);
            return;
        }
        if let Some(session) = self.active_session.take() {
            let mut session = session;
            let ghost before = contents(session.items@);
            session.items.push(item);
            assert(contents(session.items@) =~= before.push(item@));
            self.active_session = Some(session);
            tell(effects, OpenCodeServerModelEvent::ActiveSessionChanged);
            assert(panel_effects(effects@) =~= told + seq![
                PanelEffectView::Emit(PanelEventView::ActiveSessionChanged),
            ]);
        }
    }

    /// A prompt was answered, or could not be.
    pub fn finish_conversation_prompt(
        &mut self,
        session_id: &str,
        context: OpenCodeTurnContext,
        prompt: &str,
        result: Result<OpenCodePromptResult, String>,
        now: Timestamp,
    ) -> (r: Vec<OpenCodeEffect>)
        ensures
            (final(self)@, panel_effects(r@)) == session_prompt_finished(
                old(self)@,
                session_id@,
                context,
                prompt@,
                prompt_result_view(result),
                now,
            ),
    {
        let is_error = result.is_err();
        let (output_text, detail) = match result {
            Ok(result) => {
                let text = opencode_prompt_result_output_text(
                    &result.output_items,
                    result.detail.as_ref(),
                    prompt,
                );
                let text = if blank(text.as_str()) {
                    "OpenCode returned no response text.".to_owned()
                } else {
                    text
                };
                (text, result.detail)
            },
            Err(error) => (concat2("OpenCode server error: ", error.as_str()), None),
        };
        self.local_turn_session_id = None;
        let ghost quiet = self@;
        let mut effects = no_panel_effects();
        self.clear_pending_requests_for_session(session_id, &mut effects);
        let ghost cleared = self@;
        let ghost told_cleared = pending_cleared(quiet, session_id@).1;
        assert(panel_effects(effects@) =~= told_cleared);
        let ghost told_applied = match opt_content(detail) {
            Some(detail) => session_detail_applied(cleared, detail, now).1,
            None => Seq::empty(),
        };
        if let Some(detail) = detail {
            self.apply_polled_session_detail(detail, now, &mut effects);
        }
        assert(panel_effects(effects@) =~= told_cleared + told_applied);
        self.start_active_session_polling(session_id, &mut effects);
        push_panel_effect(
            &mut effects,
            OpenCodeEffect::UpdateExchange { context, output_text: output_text.clone(), is_error },
        );
        let role = if is_error {
            "error".to_owned()
        } else {
            "assistant".to_owned()
        };
        self.push_answer(
            session_id,
            OpenCodeConversationItem { role, text: output_text },
            &mut effects,
        );
        assert(panel_effects(effects@) =~= session_prompt_finished(
            old(self)@,
            session_id@,
            context,
            prompt@,
            prompt_result_view(result),
            now,
        ).1);
        effects
    }

    /// The user replies to a request for a permission.
    pub fn resolve_pending_permission(
        &mut self,
        request_id: &str,
        reply: OpenCodePermissionReply,
        settings: &OpenCodeServerSettings,
    ) -> (r: Vec<OpenCodeEffect>)
        ensures
            (final(self)@, panel_effects(r@)) == permission_resolved(
                old(self)@,
                request_id@,
                reply,
                *settings,
            ),
    {
        let mut effects = no_panel_effects();
        let session_id = match find_request(&self.pending_permissions, request_id) {
            Some(permission) => permission.session_id.clone(),
            None => {
                return effects;
            },
        };
        let config = match configure(settings) {
            Ok(config) => config,
            Err(_) => {
                return effects;
            },
        };
        let directory = self.directory_for_session(session_id.as_str());
        self.pending_permissions = drop_request(&self.pending_permissions, request_id);
        tell(&mut effects, OpenCodeServerModelEvent::PendingRequestsChanged);
        push_panel_effect(
            &mut effects,
            OpenCodeEffect::ReplyPermission {
                config,
                request_id: request_id.to_owned(),
                directory,
                reply,
            },
        );
        assert(panel_effects(effects@) =~= permission_resolved(
            old(self)@,
            request_id@,
            reply,
            *settings,
        ).1);
        effects
    }

    /// The user answers questions.
    pub fn resolve_pending_question(
        &mut self,
        request_id: &str,
        answers: Vec<Vec<String>>,
        settings: &OpenCodeServerSettings,
    ) -> (r: Vec<OpenCodeEffect>)
        ensures
            (final(self)@, panel_effects(r@)) == question_settled(
                old(self)@,
                request_id@,
                Some(answer_views(answers@)),
                *settings,
            ),
    {
        let mut effects = no_panel_effects();
        let session_id = match find_request(&self.pending_questions, request_id) {
            Some(question) => question.session_id.clone(),
            None => {
                return effects;
            },
        };
        let config = match configure(settings) {
            Ok(config) => config,
            Err(_) => {
                return effects;
            },
        };
        let directory = self.directory_for_session(session_id.as_str());
        self.pending_questions = drop_request(&self.pending_questions, request_id);
        tell(&mut effects, OpenCodeServerModelEvent::PendingRequestsChanged);
        push_panel_effect(
            &mut effects,
            OpenCodeEffect::ReplyQuestion {
                config,
                request_id: request_id.to_owned(),
                directory,
                answers,
            },
        );
        assert(panel_effects(effects@) =~= question_settled(
            old(self)@,
            request_id@,
            Some(answer_views(answers@)),
            *settings,
        ).1);
        effects
    }

    /// The user turns questions down.
    pub fn reject_pending_question(
        &mut self,
        request_id: &str,
        settings: &OpenCodeServerSettings,
    ) -> (r: Vec<OpenCodeEffect>)
        ensures
            (final(self)@, panel_effects(r@)) == question_settled(
                old(self)@,
                request_id@,
                None,
                *settings,
            ),
    {
        let mut effects = no_panel_effects();
        let session_id = match find_request(&self.pending_questions, request_id) {
            Some(question) => question.session_id.clone(),
            None => {
                return effects;
            },
        };
        let config = match configure(settings) {
            Ok(config) => config,
            Err(_) => {
                return effects;
            },
        };
        let directory = self.directory_for_session(session_id.as_str());
        self.pending_questions = drop_request(&self.pending_questions, request_id);
        tell(&mut effects, OpenCodeServerModelEvent::PendingRequestsChanged);
        push_panel_effect(
            &mut effects,
            OpenCodeEffect::RejectQuestion {
                config,
                request_id: request_id.to_owned(),
                directory,
            },
        );
        assert(panel_effects(effects@) =~= question_settled(
            old(self)@,
            request_id@,
            None,
            *settings,
        ).1);
        effects
    }

    /// A poll of a session that was scheduled with a generation is still wanted.
    pub fn should_poll_active_session(&self, session_id: &str, generation: u64) -> (r: bool)
        ensures
            r == self@.wants_poll(session_id@, generation),
    {
        self.active_session_poll_generation == generation && self.is_active(session_id)
    }

    /// A scheduled poll of the active session is due.
    pub fn poll_active_session(
        &mut self,
        session_id: &str,
        generation: u64,
        settings: &OpenCodeServerSettings,
    ) -> (r: Vec<OpenCodeEffect>)
        ensures
            (final(self)@, panel_effects(r@)) == session_poll_due(
                old(self)@,
                session_id@,
                generation,
                *settings,
            ),
    {
        let mut effects = no_panel_effects();
        if !self.should_poll_active_session(session_id, generation) {
            return effects;
        }
        if self.has_local_turn(session_id) {
            push_panel_effect(
                &mut effects,
                OpenCodeEffect::ScheduleSessionPoll {
                    session_id: session_id.to_owned(),
                    generation,
                },
            );
            assert(panel_effects(effects@) =~= seq![
                PanelEffectView::ScheduleSessionPoll { session_id: session_id@, generation },
            ]);
            return effects;
        }
        if !settings.enabled {
            return effects;
        }
        match configure(settings) {
            Err(message) => {
                self.disconnect(message, &mut effects);
            },
            Ok(config) => {
                let fallback_summary = self.known_summary(session_id);
                push_panel_effect(
                    &mut effects,
                    OpenCodeEffect::ReadSession {
                        config,
                        session_id: session_id.to_owned(),
                        fallback_summary,
                        purpose: SessionReadPurpose::Poll { generation },
                    },
                );
            },
        }
        assert(panel_effects(effects@) =~= session_poll_due(
            old(self)@,
            session_id@,
            generation,
            *settings,
        ).1);
        effects
    }

    /// A poll of the active session is over.
    pub fn finish_poll(
        &mut self,
        session_id: &str,
        generation: u64,
        result: Result<OpenCodeSessionDetail, String>,
        now: Timestamp,
    ) -> (r: Vec<OpenCodeEffect>)
        ensures
            (final(self)@, panel_effects(r@)) == session_poll_finished(
                old(self)@,
                session_id@,
                generation,
                session_result_view(result),
                now,
            ),
    {
        let mut effects = no_panel_effects();
        if !self.should_poll_active_session(session_id, generation) {
            return effects;
        }
        if let Ok(detail) = result {
            self.apply_polled_session_detail(detail, now, &mut effects);
        }
        if self.should_poll_active_session(session_id, generation) {
            push_panel_effect(
                &mut effects,
                OpenCodeEffect::ScheduleSessionPoll {
                    session_id: session_id.to_owned(),
                    generation,
                },
            );
        }
        assert(panel_effects(effects@) =~= session_poll_finished(
            old(self)@,
            session_id@,
            generation,
            session_result_view(result),
            now,
        ).1);
        effects
    }

    fn apply_polled_session_detail(
        &mut self,
        detail: OpenCodeSessionDetail,
        now: Timestamp,
        effects: &mut Vec<OpenCodeEffect>,
    )
        ensures
            final(self)@ == session_detail_applied(old(self)@, detail@, now).0,
            panel_effects(final(effects)@) == panel_effects(old(effects)@)
                + session_detail_applied(old(self)@, detail@, now).1,
    {
        let ghost told = panel_effects(effects@);
        let session_id = detail.summary.id.clone();
        let summary_changed = upsert_session_summary(
            self.path_style,
            &mut self.sessions,
            detail.summary.clone(),
        );
        let shown = match &self.active_session {
            Some(active) => active.says_same(self.path_style, &detail),
            None => false,
        };
        if !shown {
            if let Some(id) = self.conversation_id_by_session_id.get(session_id.as_str()) {
                let conversation = opencode_session_detail_to_ai_conversation(id, &detail, now);
                push_panel_effect(effects, OpenCodeEffect::RefreshConversation(conversation));
            }
            self.active_session = Some(detail);
            tell(effects, OpenCodeServerModelEvent::ActiveSessionChanged);
        }
        if summary_changed {
            tell(effects, OpenCodeServerModelEvent::SessionsChanged);
        }
        assert(panel_effects(effects@) =~= told + session_detail_applied(
            old(self)@,
            detail@,
            now,
        ).1);
    }

    /// A poll for requests that was scheduled with a generation is still wanted.
    pub fn should_poll_pending_requests(&self, session_id: &str, generation: u64) -> (r: bool)
        ensures
            r == self@.wants_pending_poll(session_id@, generation),
    {
        generation == self.pending_request_poll_generation && (self.has_local_turn(session_id)
            || find_for_session(&self.pending_permissions, session_id).is_some()
            || find_for_session(&self.pending_questions, session_id).is_some())
    }

    /// A scheduled look for requests is due.
    pub fn poll_pending_requests(
        &self,
        session_id: &str,
        generation: u64,
        settings: &OpenCodeServerSettings,
    ) -> (r: Vec<OpenCodeEffect>)
        ensures
            panel_effects(r@) == pending_poll_due(self@, session_id@, generation, *settings),
    {
        let mut effects = no_panel_effects();
        if !self.should_poll_pending_requests(session_id, generation) {
            return effects;
        }
        let config = match configure(settings) {
            Ok(config) => config,
            Err(_) => {
                return effects;
            },
        };
        let directory = self.directory_for_session(session_id);
        push_panel_effect(
            &mut effects,
            OpenCodeEffect::ListPendingRequests {
                config,
                directory,
                session_id: session_id.to_owned(),
                generation,
            },
        );
        assert(panel_effects(effects@) =~= pending_poll_due(
            self@,
            session_id@,
            generation,
            *settings,
        ));
        effects
    }

    /// A look for requests is over.
    pub fn finish_pending_poll(
        &mut self,
        session_id: &str,
        generation: u64,
        result: Result<OpenCodePendingRequests, String>,
    ) -> (r: Vec<OpenCodeEffect>)
        ensures
            (final(self)@, panel_effects(r@)) == pending_poll_finished(
                old(self)@,
                session_id@,
                generation,
                requests_view(result),
            ),
    {
        let mut effects = no_panel_effects();
        if !self.should_poll_pending_requests(session_id, generation) {
            return effects;
        }
        if let Ok(requests) = result {
            self.apply_pending_requests(session_id, &requests, &mut effects);
        }
        if self.should_poll_pending_requests(session_id, generation) {
            push_panel_effect(
                &mut effects,
                OpenCodeEffect::SchedulePendingPoll {
                    session_id: session_id.to_owned(),
                    generation,
                },
            );
        }
        assert(panel_effects(effects@) =~= pending_poll_finished(
            old(self)@,
            session_id@,
            generation,
            requests_view(result),
        ).1);
        effects
    }

    fn apply_pending_requests(
        &mut self,
        session_id: &str,
        requests: &OpenCodePendingRequests,
        effects: &mut Vec<OpenCodeEffect>,
    )
        ensures
            ({
                let applied = pending_applied(
                    old(self)@,
                    session_id@,
                    contents(requests.permissions@),
                    contents(requests.questions@),
                );
                &&& final(self)@ == applied.0
                &&& panel_effects(final(effects)@) == panel_effects(old(effects)@) + applied.1
            }),
    {
        let ghost told = panel_effects(effects@);
        let permissions = sort_out(&requests.permissions, session_id, true);
        let questions = sort_out(&requests.questions, session_id, true);
        if same_all(&self.pending_permissions, &permissions) && same_all(
            &self.pending_questions,
            &questions,
        ) {
            assert(told + Seq::empty() =~= told);
            return;
        }
        self.pending_permissions = permissions;
        self.pending_questions = questions;
        tell(effects, OpenCodeServerModelEvent::PendingRequestsChanged);
        assert(panel_effects(effects@) =~= told + seq![
            PanelEffectView::Emit(PanelEventView::PendingRequestsChanged),
        ]);
    }

    fn clear_pending_requests_for_session(
        &mut self,
        session_id: &str,
        effects: &mut Vec<OpenCodeEffect>,
    )
        ensures
            final(self)@ == pending_cleared(old(self)@, session_id@).0,
            panel_effects(final(effects)@) == panel_effects(old(effects)@) + pending_cleared(
                old(self)@,
                session_id@,
            ).1,
    {
        let ghost told = panel_effects(effects@);
        let permissions = sort_out(&self.pending_permissions, session_id, false);
        let questions = sort_out(&self.pending_questions, session_id, false);
        assert(contents(permissions@).len() == permissions@.len());
        assert(contents(questions@).len() == questions@.len());
        let changed = permissions.len() != self.pending_permissions.len() || questions.len()
            != self.pending_questions.len();
        self.pending_permissions = permissions;
        self.pending_questions = questions;
        if changed {
            tell(effects, OpenCodeServerModelEvent::PendingRequestsChanged);
            assert(panel_effects(effects@) =~= told + seq![
                PanelEffectView::Emit(PanelEventView::PendingRequestsChanged),
            ]);
        } else {
            assert(told + Seq::empty() =~= told);
        }
    }
}

} // verus!
