//! What the model behind the OpenCode panel tells its surroundings, and asks them to do.
use crate::conversation::{
    AIAgentExchangeId, AIConversation, AIConversationId, ConversationView, EntityId,
};
use crate::json::{JsonValue, JsonView, json_views, text_array, text_array_of};
use crate::modeled::opt_content;
use crate::opencode_server::address::{
    DEFAULT_OPENCODE_SERVER_URL, OpenCodeServerConfig, ServerConfigView,
};
use crate::opencode_server::types::{
    OpenCodePermissionReply, OpenCodeSessionSummary, SessionView, reply_word,
};
use crate::text::{opt_view, views};
use vstd::prelude::*;

verus! {

/// What the model tells those who watch it.
#[derive(Debug, PartialEq, Eq)]
pub enum OpenCodeServerModelEvent {
    StatusChanged,
    SessionsChanged,
    ActiveSessionChanged,
    PendingRequestsChanged,
    ModelsChanged,
    OpenConversation { conversation_id: AIConversationId, session_id: String },
}

/// The model of an `OpenCodeServerModelEvent`.
pub enum PanelEventView {
    StatusChanged,
    SessionsChanged,
    ActiveSessionChanged,
    PendingRequestsChanged,
    ModelsChanged,
    OpenConversation { conversation_id: AIConversationId, session_id: Seq<char> },
}

impl OpenCodeServerModelEvent {
    pub open spec fn view(&self) -> PanelEventView {
        match self {
            OpenCodeServerModelEvent::StatusChanged => PanelEventView::StatusChanged,
            OpenCodeServerModelEvent::SessionsChanged => PanelEventView::SessionsChanged,
            OpenCodeServerModelEvent::ActiveSessionChanged => PanelEventView::ActiveSessionChanged,
            OpenCodeServerModelEvent::PendingRequestsChanged => {
                PanelEventView::PendingRequestsChanged
            },
            OpenCodeServerModelEvent::ModelsChanged => PanelEventView::ModelsChanged,
            OpenCodeServerModelEvent::OpenConversation { conversation_id, session_id } => {
                PanelEventView::OpenConversation {
                    conversation_id: *conversation_id,
                    session_id: session_id@,
                }
            },
        }
    }
}

/// The user's settings for the OpenCode server.
#[derive(Debug, PartialEq, Eq)]
pub struct OpenCodeServerSettings {
    pub enabled: bool,
    pub server_url: String,
    pub username: String,
    pub password: String,
    pub imported_project_paths: Vec<String>,
}

impl Default for OpenCodeServerSettings {
    fn default() -> (r: Self)
        ensures
            !r.enabled,
            r.server_url@ == "http://127.0.0.1:4096"@,
            r.username@ == "opencode"@,
            r.password@.len() == 0,
            r.imported_project_paths@.len() == 0,
    {
        OpenCodeServerSettings {
            enabled: false,
            server_url: DEFAULT_OPENCODE_SERVER_URL.to_owned(),
            username: "opencode".to_owned(),
            password: String::new(),
            imported_project_paths: Vec::new(),
        }
    }
}

/// Where an answer belongs: the exchange of a conversation that shows it.
#[derive(Debug, Clone, Copy, PartialEq, Eq, Structural)]
pub struct OpenCodeTurnContext {
    pub conversation_id: AIConversationId,
    pub exchange_id: AIAgentExchangeId,
    pub terminal_view_id: EntityId,
}

/// What a session is read for.
#[derive(Debug, Clone, Copy, PartialEq, Eq, Structural)]
pub enum SessionReadPurpose {
    /// It becomes the active session, and a conversation mirrors it.
    OpenAsConversation { conversation_id: AIConversationId },
    /// It is the active session, and is looked at again.
    Poll { generation: u64 },
}

/// The model that a prompt goes to.
#[derive(Debug, PartialEq, Eq)]
pub struct OpenCodeSelectedModel {
    pub provider_id: String,
    pub model_id: String,
}

/// The model of an optional selected model.
pub open spec fn selected_view(model: Option<OpenCodeSelectedModel>) -> Option<
    (Seq<char>, Seq<char>),
> {
    match model {
        Some(model) => Some((model.provider_id@, model.model_id@)),
        None => None,
    }
}

/// The models of lists of answers.
pub open spec fn answer_views(answers: Seq<Vec<String>>) -> Seq<Seq<Seq<char>>> {
    answers.map_values(|a: Vec<String>| views(a@))
}

/// What the model asks its surroundings to do.
#[derive(Debug)]
pub enum OpenCodeEffect {
    Emit(OpenCodeServerModelEvent),
    ListSessions {
        config: OpenCodeServerConfig,
        project_roots: Vec<String>,
        imported_project_paths: Vec<String>,
    },
    ReadSession {
        config: OpenCodeServerConfig,
        session_id: String,
        fallback_summary: Option<OpenCodeSessionSummary>,
        purpose: SessionReadPurpose,
    },
    CreateSession {
        config: OpenCodeServerConfig,
        project_roots: Vec<String>,
        imported_project_paths: Vec<String>,
    },
    PromptSession {
        config: OpenCodeServerConfig,
        session_id: String,
        fallback_summary: Option<OpenCodeSessionSummary>,
        prompt: String,
        selected_model: Option<OpenCodeSelectedModel>,
        context: OpenCodeTurnContext,
    },
    ListPendingRequests {
        config: OpenCodeServerConfig,
        directory: Option<String>,
        session_id: String,
        generation: u64,
    },
    ReplyPermission {
        config: OpenCodeServerConfig,
        request_id: String,
        directory: Option<String>,
        reply: OpenCodePermissionReply,
    },
    ReplyQuestion {
        config: OpenCodeServerConfig,
        request_id: String,
        directory: Option<String>,
        answers: Vec<Vec<String>>,
    },
    RejectQuestion { config: OpenCodeServerConfig, request_id: String, directory: Option<String> },
    ScheduleSessionPoll { session_id: String, generation: u64 },
    SchedulePendingPoll { session_id: String, generation: u64 },
    CacheConversation(AIConversation),
    RefreshConversation(AIConversation),
    UpdateExchange { context: OpenCodeTurnContext, output_text: String, is_error: bool },
}

/// The model of an `OpenCodeEffect`.
pub enum PanelEffectView {
    Emit(PanelEventView),
    ListSessions {
        config: ServerConfigView,
        project_roots: Seq<Seq<char>>,
        imported_project_paths: Seq<Seq<char>>,
    },
    ReadSession {
        config: ServerConfigView,
        session_id: Seq<char>,
        fallback_summary: Option<SessionView>,
        purpose: SessionReadPurpose,
    },
    CreateSession {
        config: ServerConfigView,
        project_roots: Seq<Seq<char>>,
        imported_project_paths: Seq<Seq<char>>,
    },
    PromptSession {
        config: ServerConfigView,
        session_id: Seq<char>,
        fallback_summary: Option<SessionView>,
        prompt: Seq<char>,
        selected_model: Option<(Seq<char>, Seq<char>)>,
        context: OpenCodeTurnContext,
    },
    ListPendingRequests {
        config: ServerConfigView,
        directory: Option<Seq<char>>,
        session_id: Seq<char>,
        generation: u64,
    },
    ReplyPermission {
        config: ServerConfigView,
        request_id: Seq<char>,
        directory: Option<Seq<char>>,
        reply: OpenCodePermissionReply,
    },
    ReplyQuestion {
        config: ServerConfigView,
        request_id: Seq<char>,
        directory: Option<Seq<char>>,
        answers: Seq<Seq<Seq<char>>>,
    },
    RejectQuestion {
        config: ServerConfigView,
        request_id: Seq<char>,
        directory: Option<Seq<char>>,
    },
    ScheduleSessionPoll { session_id: Seq<char>, generation: u64 },
    SchedulePendingPoll { session_id: Seq<char>, generation: u64 },
    CacheConversation(ConversationView),
    RefreshConversation(ConversationView),
    UpdateExchange { context: OpenCodeTurnContext, output_text: Seq<char>, is_error: bool },
}

impl OpenCodeEffect {
    pub open spec fn view(&self) -> PanelEffectView {
        match self {
            OpenCodeEffect::Emit(event) => PanelEffectView::Emit(event@),
            OpenCodeEffect::ListSessions { config, project_roots, imported_project_paths } => {
                PanelEffectView::ListSessions {
                    config: config@,
                    project_roots: views(project_roots@),
                    imported_project_paths: views(imported_project_paths@),
                }
            },
            OpenCodeEffect::ReadSession { config, session_id, fallback_summary, purpose } => {
                PanelEffectView::ReadSession {
                    config: config@,
                    session_id: session_id@,
                    fallback_summary: opt_content(*fallback_summary),
                    purpose: *purpose,
                }
            },
            OpenCodeEffect::CreateSession { config, project_roots, imported_project_paths } => {
                PanelEffectView::CreateSession {
                    config: config@,
                    project_roots: views(project_roots@),
                    imported_project_paths: views(imported_project_paths@),
                }
            },
            OpenCodeEffect::PromptSession {
                config,
                session_id,
                fallback_summary,
                prompt,
                selected_model,
                context,
            } => PanelEffectView::PromptSession {
                config: config@,
                session_id: session_id@,
                fallback_summary: opt_content(*fallback_summary),
                prompt: prompt@,
                selected_model: selected_view(*selected_model),
                context: *context,
            },
            OpenCodeEffect::ListPendingRequests { config, directory, session_id, generation } => {
                PanelEffectView::ListPendingRequests {
                    config: config@,
                    directory: opt_view(*directory),
                    session_id: session_id@,
                    generation: *generation,
                }
            },
            OpenCodeEffect::ReplyPermission { config, request_id, directory, reply } => {
                PanelEffectView::ReplyPermission {
                    config: config@,
                    request_id: request_id@,
                    directory: opt_view(*directory),
                    reply: *reply,
                }
            },
            OpenCodeEffect::ReplyQuestion { config, request_id, directory, answers } => {
                PanelEffectView::ReplyQuestion {
                    config: config@,
                    request_id: request_id@,
                    directory: opt_view(*directory),
                    answers: answer_views(answers@),
                }
            },
            OpenCodeEffect::RejectQuestion { config, request_id, directory } => {
                PanelEffectView::RejectQuestion {
                    config: config@,
                    request_id: request_id@,
                    directory: opt_view(*directory),
                }
            },
            OpenCodeEffect::ScheduleSessionPoll { session_id, generation } => {
                PanelEffectView::ScheduleSessionPoll {
                    session_id: session_id@,
                    generation: *generation,
                }
            },
            OpenCodeEffect::SchedulePendingPoll { session_id, generation } => {
                PanelEffectView::SchedulePendingPoll {
                    session_id: session_id@,
                    generation: *generation,
                }
            },
            OpenCodeEffect::CacheConversation(conversation) => PanelEffectView::CacheConversation(
                conversation@,
            ),
            OpenCodeEffect::RefreshConversation(conversation) => {
                PanelEffectView::RefreshConversation(conversation@)
            },
            OpenCodeEffect::UpdateExchange { context, output_text, is_error } => {
                PanelEffectView::UpdateExchange {
                    context: *context,
                    output_text: output_text@,
                    is_error: *is_error,
                }
            },
        }
    }
}

/// The models of a list of effects.
pub open spec fn panel_effects(effects: Seq<OpenCodeEffect>) -> Seq<PanelEffectView> {
    effects.map_values(|e: OpenCodeEffect| e@)
}

/// Adds an effect.
pub fn push_panel_effect(effects: &mut Vec<OpenCodeEffect>, effect: OpenCodeEffect)
    ensures
        panel_effects(final(effects)@) == panel_effects(old(effects)@).push(effect@),
{
    let ghost before = panel_effects(effects@);
    effects.push(effect);
    assert(panel_effects(effects@) =~= before.push(effect@));
}

/// No effects.
pub fn no_panel_effects() -> (r: Vec<OpenCodeEffect>)
    ensures
        panel_effects(r@) == Seq::<PanelEffectView>::empty(),
{
    let r: Vec<OpenCodeEffect> = Vec::new();
    assert(panel_effects(r@) =~= Seq::empty());
    r
}

/// Adds the effect that tells of an event.
pub fn tell(effects: &mut Vec<OpenCodeEffect>, event: OpenCodeServerModelEvent)
    ensures
        panel_effects(final(effects)@) == panel_effects(old(effects)@).push(
            PanelEffectView::Emit(event@),
        ),
{
    push_panel_effect(effects, OpenCodeEffect::Emit(event));
}

/// The document that asks for a new session.
pub open spec fn new_session_document() -> JsonView {
    JsonView::Object(seq![("title"@, JsonView::Text("New OpenCode conversation"@))])
}

/// The document that asks for a new session.
pub fn new_session_body() -> (r: JsonValue)
    ensures
        r@ == new_session_document(),
{
    broadcast use JsonValue::lemma_object_view;

    let mut members: Vec<(String, JsonValue)> = Vec::new();
    members.push(("title".to_owned(), JsonValue::Text("New OpenCode conversation".to_owned())));
    let r = JsonValue::Object(members);
    assert(r@->Object_0 =~= new_session_document()->Object_0);
    r
}

/// The document that carries a prompt, to the selected model where there is one.
pub open spec fn prompt_document(
    prompt: Seq<char>,
    selected_model: Option<(Seq<char>, Seq<char>)>,
) -> JsonView {
    let part = JsonView::Object(
        seq![("type"@, JsonView::Text("text"@)), ("text"@, JsonView::Text(prompt))],
    );
    JsonView::Object(
        seq![("parts"@, JsonView::Array(seq![part]))] + (match selected_model {
            Some((provider_id, model_id)) => seq![
                (
                    "model"@,
                    JsonView::Object(
                        seq![
                            ("providerID"@, JsonView::Text(provider_id)),
                            ("modelID"@, JsonView::Text(model_id)),
                        ],
                    ),
                ),
            ],
            None => Seq::empty(),
        }),
    )
}

/// The document that carries a prompt.
pub fn prompt_body(prompt: &str, selected_model: Option<OpenCodeSelectedModel>) -> (r: JsonValue)
    ensures
        r@ == prompt_document(prompt@, selected_view(selected_model)),
{
    broadcast use {JsonValue::lemma_object_view, JsonValue::lemma_array_view};

    let mut part: Vec<(String, JsonValue)> = Vec::new();
    part.push(("type".to_owned(), JsonValue::Text("text".to_owned())));
    part.push(("text".to_owned(), JsonValue::Text(prompt.to_owned())));
    let part = JsonValue::Object(part);
    assert(part@->Object_0 =~= seq![
        ("type"@, JsonView::Text("text"@)),
        ("text"@, JsonView::Text(prompt@)),
    ]);
    let mut parts: Vec<JsonValue> = Vec::new();
    parts.push(part);
    assert(json_views(parts@) =~= seq![part@]);
    let mut members: Vec<(String, JsonValue)> = Vec::new();
    members.push(("parts".to_owned(), JsonValue::Array(parts)));
    if let Some(model) = selected_model {
        let mut ids: Vec<(String, JsonValue)> = Vec::new();
        ids.push(("providerID".to_owned(), JsonValue::Text(model.provider_id)));
        ids.push(("modelID".to_owned(), JsonValue::Text(model.model_id)));
        let ids = JsonValue::Object(ids);
        assert(ids@->Object_0 =~= seq![
            ("providerID"@, JsonView::Text(model.provider_id@)),
            ("modelID"@, JsonView::Text(model.model_id@)),
        ]);
        members.push(("model".to_owned(), ids));
    }
    let r = JsonValue::Object(members);
    assert(r@->Object_0 =~= prompt_document(prompt@, selected_view(selected_model))->Object_0);
    r
}

/// The document that replies to a request for a permission.
pub fn permission_reply_body(reply: OpenCodePermissionReply) -> (r: JsonValue)
    ensures
        r@ == JsonView::Object(seq![("reply"@, JsonView::Text(reply_word(reply)))]),
{
    broadcast use JsonValue::lemma_object_view;

    let mut members: Vec<(String, JsonValue)> = Vec::new();
    members.push(("reply".to_owned(), JsonValue::Text(reply.wire_value().to_owned())));
    let r = JsonValue::Object(members);
    assert(r@->Object_0 =~= seq![("reply"@, JsonView::Text(reply_word(reply)))]);
    r
}

/// The document that answers questions: for each question the answers that were chosen.
pub open spec fn answers_document(answers: Seq<Seq<Seq<char>>>) -> JsonView {
    JsonView::Object(
        seq![
            (
                "answers"@,
                JsonView::Array(answers.map_values(|a: Seq<Seq<char>>| text_array(a))),
            ),
        ],
    )
}

/// The document that answers questions.
pub fn question_reply_body(answers: &Vec<Vec<String>>) -> (r: JsonValue)
    ensures
        r@ == answers_document(answer_views(answers@)),
{
    broadcast use {JsonValue::lemma_object_view, JsonValue::lemma_array_view};

    let ghost all = answer_views(answers@);
    let mut items: Vec<JsonValue> = Vec::new();
    let mut i: usize = 0;
    while i < answers.len()
        invariant
            i <= answers@.len(),
            all == answer_views(answers@),
            items@.len() == i,
            forall|j: int| 0 <= j < i ==> (#[trigger] items@[j])@ == text_array(all[j]),
        decreases answers@.len() - i,
    {
        items.push(text_array_of(&answers[i]));
        i = i + 1;
    }
    assert(json_views(items@) =~= all.map_values(|a: Seq<Seq<char>>| text_array(a)));
    let mut members: Vec<(String, JsonValue)> = Vec::new();
    members.push(("answers".to_owned(), JsonValue::Array(items)));
    let r = JsonValue::Object(members);
    assert(r@->Object_0 =~= answers_document(all)->Object_0);
    r
}

} // verus!
