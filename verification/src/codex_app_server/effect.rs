//! What the Codex model asks its surroundings to do.
use crate::codex_app_server::address::{
    CodexAppServerConfig, ConfigView, DEFAULT_CODEX_APP_SERVER_URL,
};
use crate::codex_app_server::approval::{IdView, JsonRpcId};
use crate::codex_app_server::prompt::CodexPromptCollaborationMode;
use crate::codex_app_server::types::{CodexThreadSummary, SummaryView};
use crate::codex_app_server::wire::opt_summary_view;
use crate::conversation::{
    AIAgentExchangeId, AIConversation, AIConversationId, ConversationView, EntityId,
};
use crate::json::{JsonValue, JsonView};
use crate::text::{concat2, opt_view, views};
use vstd::prelude::*;

verus! {

/// How the server stands.
#[derive(Debug, PartialEq, Eq)]
pub enum CodexAppServerStatus {
    Disabled,
    Disconnected { message: String },
    Connected,
    Loading,
}

/// The model of a `CodexAppServerStatus`.
pub enum StatusView {
    Disabled,
    Disconnected { message: Seq<char> },
    Connected,
    Loading,
}

/// The text that shows a status.
pub open spec fn status_label(status: StatusView) -> Seq<char> {
    match status {
        StatusView::Disabled => "Disabled"@,
        StatusView::Disconnected { message } => "Disconnected: "@ + message,
        StatusView::Connected => "Connected"@,
        StatusView::Loading => "Loading"@,
    }
}

impl CodexAppServerStatus {
    pub open spec fn view(&self) -> StatusView {
        match self {
            CodexAppServerStatus::Disabled => StatusView::Disabled,
            CodexAppServerStatus::Disconnected { message } => StatusView::Disconnected {
                message: message@,
            },
            CodexAppServerStatus::Connected => StatusView::Connected,
            CodexAppServerStatus::Loading => StatusView::Loading,
        }
    }

    /// The text that shows the status.
    pub fn label(&self) -> (r: String)
        ensures
            r@ == status_label(self@),
    {
        match self {
            CodexAppServerStatus::Disabled => "Disabled".to_owned(),
            CodexAppServerStatus::Disconnected { message } => concat2(
                "Disconnected: ",
                message.as_str(),
            ),
            CodexAppServerStatus::Connected => "Connected".to_owned(),
            CodexAppServerStatus::Loading => "Loading".to_owned(),
        }
    }
}

/// What the model tells those who watch it.
#[derive(Debug, PartialEq, Eq)]
pub enum CodexAppServerModelEvent {
    StatusChanged,
    ThreadsChanged,
    ActiveThreadChanged,
    ModelsChanged,
    OpenConversation { conversation_id: AIConversationId, thread_id: String },
}

/// The model of a `CodexAppServerModelEvent`.
pub enum EventView {
    StatusChanged,
    ThreadsChanged,
    ActiveThreadChanged,
    ModelsChanged,
    OpenConversation { conversation_id: AIConversationId, thread_id: Seq<char> },
}

impl CodexAppServerModelEvent {
    pub open spec fn view(&self) -> EventView {
        match self {
            CodexAppServerModelEvent::StatusChanged => EventView::StatusChanged,
            CodexAppServerModelEvent::ThreadsChanged => EventView::ThreadsChanged,
            CodexAppServerModelEvent::ActiveThreadChanged => EventView::ActiveThreadChanged,
            CodexAppServerModelEvent::ModelsChanged => EventView::ModelsChanged,
            CodexAppServerModelEvent::OpenConversation { conversation_id, thread_id } => {
                EventView::OpenConversation {
                    conversation_id: *conversation_id,
                    thread_id: thread_id@,
                }
            },
        }
    }
}

/// The user's settings for the Codex app server.
#[derive(Debug, PartialEq, Eq)]
pub struct CodexAppServerSettings {
    pub enabled: bool,
    pub server_url: String,
    pub imported_project_paths: Vec<String>,
    pub imported_thread_ids: Vec<String>,
    pub bearer_token: String,
}

impl Default for CodexAppServerSettings {
    fn default() -> (r: Self)
        ensures
            !r.enabled,
            r.server_url@ == "ws://127.0.0.1:4500"@,
            r.imported_project_paths@.len() == 0,
            r.imported_thread_ids@.len() == 0,
            r.bearer_token@.len() == 0,
    {
        CodexAppServerSettings {
            enabled: false,
            server_url: DEFAULT_CODEX_APP_SERVER_URL.to_owned(),
            imported_project_paths: Vec::new(),
            imported_thread_ids: Vec::new(),
            bearer_token: String::new(),
        }
    }
}

/// Where a turn belongs: the exchange of a conversation that shows it.
#[derive(Debug, Clone, Copy, PartialEq, Eq, Structural)]
pub struct CodexConversationTurnContext {
    pub conversation_id: AIConversationId,
    pub exchange_id: AIAgentExchangeId,
    pub terminal_view_id: EntityId,
}

/// What a thread is read for.
#[derive(Debug, Clone, Copy, PartialEq, Eq, Structural)]
pub enum ReadPurpose {
    /// It becomes the active thread.
    Open,
    /// It becomes the active thread, and a conversation mirrors it.
    OpenAsConversation { conversation_id: AIConversationId },
    /// It is the active thread, and is looked at again.
    Poll { generation: u64 },
}

/// What the model asks its surroundings to do. A connection to the server is named by a number.
#[derive(Debug)]
pub enum CodexEffect {
    Emit(CodexAppServerModelEvent),
    ListThreads {
        config: CodexAppServerConfig,
        project_roots: Vec<String>,
        imported_project_paths: Vec<String>,
        imported_thread_ids: Vec<String>,
    },
    ReadThread {
        config: CodexAppServerConfig,
        thread_id: String,
        fallback_summary: Option<CodexThreadSummary>,
        purpose: ReadPurpose,
    },
    ArchiveThread { config: CodexAppServerConfig, thread_id: String },
    StartThread { config: CodexAppServerConfig, model_id: Option<String>, cwd: Option<String> },
    ContinueThread {
        config: CodexAppServerConfig,
        thread_id: String,
        prompt: String,
        model_id: Option<String>,
        collaboration_mode: Option<CodexPromptCollaborationMode>,
        collaboration_mode_model_id: Option<String>,
        client: Option<u64>,
        context: Option<CodexConversationTurnContext>,
    },
    Respond {
        client: u64,
        request_id: JsonRpcId,
        result: JsonValue,
        thread_id: String,
        context: Option<CodexConversationTurnContext>,
    },
    SchedulePoll { thread_id: String, generation: u64 },
    CacheConversation(AIConversation),
    RefreshConversation(AIConversation),
    DeleteConversation(AIConversationId),
    UpdateExchange {
        context: CodexConversationTurnContext,
        output_text: String,
        is_finished: bool,
        is_error: bool,
    },
}

/// The model of a `CodexEffect`.
pub enum EffectView {
    Emit(EventView),
    ListThreads {
        config: ConfigView,
        project_roots: Seq<Seq<char>>,
        imported_project_paths: Seq<Seq<char>>,
        imported_thread_ids: Seq<Seq<char>>,
    },
    ReadThread {
        config: ConfigView,
        thread_id: Seq<char>,
        fallback_summary: Option<SummaryView>,
        purpose: ReadPurpose,
    },
    ArchiveThread { config: ConfigView, thread_id: Seq<char> },
    StartThread { config: ConfigView, model_id: Option<Seq<char>>, cwd: Option<Seq<char>> },
    ContinueThread {
        config: ConfigView,
        thread_id: Seq<char>,
        prompt: Seq<char>,
        model_id: Option<Seq<char>>,
        collaboration_mode: Option<CodexPromptCollaborationMode>,
        collaboration_mode_model_id: Option<Seq<char>>,
        client: Option<u64>,
        context: Option<CodexConversationTurnContext>,
    },
    Respond {
        client: u64,
        request_id: IdView,
        result: JsonView,
        thread_id: Seq<char>,
        context: Option<CodexConversationTurnContext>,
    },
    SchedulePoll { thread_id: Seq<char>, generation: u64 },
    CacheConversation(ConversationView),
    RefreshConversation(ConversationView),
    DeleteConversation(AIConversationId),
    UpdateExchange {
        context: CodexConversationTurnContext,
        output_text: Seq<char>,
        is_finished: bool,
        is_error: bool,
    },
}

impl CodexEffect {
    pub open spec fn view(&self) -> EffectView {
        match self {
            CodexEffect::Emit(event) => EffectView::Emit(event@),
            CodexEffect::ListThreads {
                config,
                project_roots,
                imported_project_paths,
                imported_thread_ids,
            } => EffectView::ListThreads {
                config: config@,
                project_roots: views(project_roots@),
                imported_project_paths: views(imported_project_paths@),
                imported_thread_ids: views(imported_thread_ids@),
            },
            CodexEffect::ReadThread { config, thread_id, fallback_summary, purpose } => {
                EffectView::ReadThread {
                    config: config@,
                    thread_id: thread_id@,
                    fallback_summary: opt_summary_view(*fallback_summary),
                    purpose: *purpose,
                }
            },
            CodexEffect::ArchiveThread { config, thread_id } => EffectView::ArchiveThread {
                config: config@,
                thread_id: thread_id@,
            },
            CodexEffect::StartThread { config, model_id, cwd } => EffectView::StartThread {
                config: config@,
                model_id: opt_view(*model_id),
                cwd: opt_view(*cwd),
            },
            CodexEffect::ContinueThread {
                config,
                thread_id,
                prompt,
                model_id,
                collaboration_mode,
                collaboration_mode_model_id,
                client,
                context,
            } => EffectView::ContinueThread {
                config: config@,
                thread_id: thread_id@,
                prompt: prompt@,
                model_id: opt_view(*model_id),
                collaboration_mode: *collaboration_mode,
                collaboration_mode_model_id: opt_view(*collaboration_mode_model_id),
                client: *client,
                context: *context,
            },
            CodexEffect::Respond { client, request_id, result, thread_id, context } => {
                EffectView::Respond {
                    client: *client,
                    request_id: request_id@,
                    result: result@,
                    thread_id: thread_id@,
                    context: *context,
                }
            },
            CodexEffect::SchedulePoll { thread_id, generation } => EffectView::SchedulePoll {
                thread_id: thread_id@,
                generation: *generation,
            },
            CodexEffect::CacheConversation(conversation) => EffectView::CacheConversation(
                conversation@,
            ),
            CodexEffect::RefreshConversation(conversation) => EffectView::RefreshConversation(
                conversation@,
            ),
            CodexEffect::DeleteConversation(id) => EffectView::DeleteConversation(*id),
            CodexEffect::UpdateExchange { context, output_text, is_finished, is_error } => {
                EffectView::UpdateExchange {
                    context: *context,
                    output_text: output_text@,
                    is_finished: *is_finished,
                    is_error: *is_error,
                }
            },
        }
    }
}

/// The models of a list of effects.
pub open spec fn effect_views(effects: Seq<CodexEffect>) -> Seq<EffectView> {
    effects.map_values(|e: CodexEffect| e@)
}

/// Adds an effect.
pub fn push_effect(effects: &mut Vec<CodexEffect>, effect: CodexEffect)
    ensures
        effect_views(final(effects)@) == effect_views(old(effects)@).push(effect@),
{
    let ghost before = effect_views(effects@);
    effects.push(effect);
    assert(effect_views(effects@) =~= before.push(effect@));
}

/// No effects.
pub fn no_effects() -> (r: Vec<CodexEffect>)
    ensures
        effect_views(r@) == Seq::<EffectView>::empty(),
{
    let r: Vec<CodexEffect> = Vec::new();
    assert(effect_views(r@) =~= Seq::empty());
    r
}

/// Adds the effect that tells of an event.
pub fn emit(effects: &mut Vec<CodexEffect>, event: CodexAppServerModelEvent)
    ensures
        effect_views(final(effects)@) == effect_views(old(effects)@).push(EffectView::Emit(event@)),
{
    push_effect(effects, CodexEffect::Emit(event));
}

} // verus!
