//! The data that an OpenCode server is asked for: sessions, their items, models, and what waits for
//! the user.
use crate::modeled::{Modeled, contents, copy_all, opt_ref_content, same_all};
use crate::path::{PathStyle, same_location, same_path_option};
use crate::text::{
    blank, clone_option, clone_texts, concat2, is_blank, opt_view, same, same_option, same_texts,
    views,
};
use vstd::prelude::*;

verus! {
/// The two optional numbers are equal.
pub fn same_number(a: Option<i64>, b: Option<i64>) -> (r: bool)
    ensures
        r == (a == b),
{
    match (a, b) {
        (Some(a), Some(b)) => a == b,
        (None, None) => true,
        _ => false,
    }
}

/// How the server stands.
#[derive(Debug, PartialEq, Eq)]
pub enum OpenCodeServerStatus {
    Disabled,
    Disconnected { message: String },
    Connected,
    Loading,
}

/// The model of an `OpenCodeServerStatus`.
pub enum ServerStatusView {
    Disabled,
    Disconnected { message: Seq<char> },
    Connected,
    Loading,
}

impl OpenCodeServerStatus {
    pub open spec fn view(&self) -> ServerStatusView {
        match self {
            OpenCodeServerStatus::Disabled => ServerStatusView::Disabled,
            OpenCodeServerStatus::Disconnected { message } => ServerStatusView::Disconnected {
                message: message@,
            },
            OpenCodeServerStatus::Connected => ServerStatusView::Connected,
            OpenCodeServerStatus::Loading => ServerStatusView::Loading,
        }
    }

    /// The name of the status.
    pub fn label(&self) -> (r: String)
        ensures
            r@ == (match self@ {
                ServerStatusView::Disabled => "Disabled"@,
                ServerStatusView::Disconnected { message } => "Disconnected: "@ + message,
                ServerStatusView::Connected => "Connected"@,
                ServerStatusView::Loading => "Loading"@,
            }),
    {
        match self {
            OpenCodeServerStatus::Disabled => "Disabled".to_owned(),
            OpenCodeServerStatus::Disconnected { message } => concat2(
                "Disconnected: ",
                message.as_str(),
            ),
            OpenCodeServerStatus::Connected => "Connected".to_owned(),
            OpenCodeServerStatus::Loading => "Loading".to_owned(),
        }
    }
}

/// One entry of a session: who speaks, and what is said.
#[derive(Debug, PartialEq, Eq)]
pub struct OpenCodeConversationItem {
    pub role: String,
    pub text: String,
}

/// The model of an `OpenCodeConversationItem`.
pub struct MessageView {
    pub role: Seq<char>,
    pub text: Seq<char>,
}

impl OpenCodeConversationItem {
    pub open spec fn view(&self) -> MessageView {
        MessageView {
            role: self.role@,
            text: self.text@,
        }
    }
}

impl Modeled for OpenCodeConversationItem {
    type Model = MessageView;

    open spec fn content(&self) -> MessageView {
        self@
    }

    fn copy(&self) -> (r: Self) {
        OpenCodeConversationItem {
            role: self.role.clone(),
            text: self.text.clone(),
        }
    }

    fn same_content(&self, other: &Self) -> (r: bool) {
        same(self.role.as_str(), other.role.as_str())
            && same(self.text.as_str(), other.text.as_str())
    }
}

impl Clone for OpenCodeConversationItem {
    fn clone(&self) -> (r: Self)
        ensures
            r@ == self@,
    {
        self.copy()
    }
}

/// What the list of sessions shows of a session.
#[derive(Debug, PartialEq, Eq)]
pub struct OpenCodeSessionSummary {
    pub id: String,
    pub title: String,
    pub directory: Option<String>,
    pub project_id: Option<String>,
    pub updated_at: Option<i64>,
    pub status: Option<String>,
}

/// The model of an `OpenCodeSessionSummary`.
pub struct SessionView {
    pub id: Seq<char>,
    pub title: Seq<char>,
    pub directory: Option<Seq<char>>,
    pub project_id: Option<Seq<char>>,
    pub updated_at: Option<i64>,
    pub status: Option<Seq<char>>,
}

impl OpenCodeSessionSummary {
    pub open spec fn view(&self) -> SessionView {
        SessionView {
            id: self.id@,
            title: self.title@,
            directory: opt_view(self.directory),
            project_id: opt_view(self.project_id),
            updated_at: self.updated_at,
            status: opt_view(self.status),
        }
    }
}

impl Modeled for OpenCodeSessionSummary {
    type Model = SessionView;

    open spec fn content(&self) -> SessionView {
        self@
    }

    fn copy(&self) -> (r: Self) {
        OpenCodeSessionSummary {
            id: self.id.clone(),
            title: self.title.clone(),
            directory: clone_option(&self.directory),
            project_id: clone_option(&self.project_id),
            updated_at: self.updated_at,
            status: clone_option(&self.status),
        }
    }

    fn same_content(&self, other: &Self) -> (r: bool) {
        same(self.id.as_str(), other.id.as_str())
            && same(self.title.as_str(), other.title.as_str())
            && same_option(&self.directory, &other.directory)
            && same_option(&self.project_id, &other.project_id)
            && same_number(self.updated_at, other.updated_at)
            && same_option(&self.status, &other.status)
    }
}

impl Clone for OpenCodeSessionSummary {
    fn clone(&self) -> (r: Self)
        ensures
            r@ == self@,
    {
        self.copy()
    }
}

impl SessionView {
    /// The two summaries say the same; the directories may be written differently.
    pub open spec fn says_same(self, style: PathStyle, other: SessionView) -> bool {
        &&& self.id == other.id
        &&& self.title == other.title
        &&& same_location(style, self.directory, other.directory)
        &&& self.project_id == other.project_id
        &&& self.updated_at == other.updated_at
        &&& self.status == other.status
    }
}

impl OpenCodeSessionSummary {
    /// The two summaries say the same; the directories may be written differently.
    pub fn says_same(&self, style: PathStyle, other: &OpenCodeSessionSummary) -> (r: bool)
        ensures
            r == self@.says_same(style, other@),
    {
        same(self.id.as_str(), other.id.as_str())
            && same(self.title.as_str(), other.title.as_str())
            && same_path_option(style, &self.directory, &other.directory)
            && same_option(&self.project_id, &other.project_id)
            && same_number(self.updated_at, other.updated_at)
            && same_option(&self.status, &other.status)
    }
}

/// A session with its items.
#[derive(Debug, PartialEq, Eq)]
pub struct OpenCodeSessionDetail {
    pub summary: OpenCodeSessionSummary,
    pub items: Vec<OpenCodeConversationItem>,
}

/// The model of an `OpenCodeSessionDetail`.
pub struct SessionDetailView {
    pub summary: SessionView,
    pub items: Seq<MessageView>,
}

impl OpenCodeSessionDetail {
    pub open spec fn view(&self) -> SessionDetailView {
        SessionDetailView {
            summary: self.summary@,
            items: contents(self.items@),
        }
    }
}

impl Modeled for OpenCodeSessionDetail {
    type Model = SessionDetailView;

    open spec fn content(&self) -> SessionDetailView {
        self@
    }

    fn copy(&self) -> (r: Self) {
        OpenCodeSessionDetail {
            summary: self.summary.copy(),
            items: copy_all(&self.items),
        }
    }

    fn same_content(&self, other: &Self) -> (r: bool) {
        self.summary.same_content(&other.summary)
            && same_all(&self.items, &other.items)
    }
}

impl Clone for OpenCodeSessionDetail {
    fn clone(&self) -> (r: Self)
        ensures
            r@ == self@,
    {
        self.copy()
    }
}

impl SessionDetailView {
    /// The two sessions say the same; the directories may be written differently.
    pub open spec fn says_same(self, style: PathStyle, other: SessionDetailView) -> bool {
        self.summary.says_same(style, other.summary) && self.items == other.items
    }
}

impl OpenCodeSessionDetail {
    /// The two sessions say the same; the directories may be written differently.
    pub fn says_same(&self, style: PathStyle, other: &OpenCodeSessionDetail) -> (r: bool)
        ensures
            r == self@.says_same(style, other@),
    {
        self.summary.says_same(style, &other.summary) && same_all(&self.items, &other.items)
    }
}

/// A model that the server offers.
#[derive(Debug, PartialEq, Eq)]
pub struct OpenCodeModelInfo {
    pub id: String,
    pub display_name: String,
    pub provider_id: String,
    pub model_id: String,
    pub is_default: bool,
}

/// The model of an `OpenCodeModelInfo`.
pub struct ModelInfoView {
    pub id: Seq<char>,
    pub display_name: Seq<char>,
    pub provider_id: Seq<char>,
    pub model_id: Seq<char>,
    pub is_default: bool,
}

impl OpenCodeModelInfo {
    pub open spec fn view(&self) -> ModelInfoView {
        ModelInfoView {
            id: self.id@,
            display_name: self.display_name@,
            provider_id: self.provider_id@,
            model_id: self.model_id@,
            is_default: self.is_default,
        }
    }
}

impl Modeled for OpenCodeModelInfo {
    type Model = ModelInfoView;

    open spec fn content(&self) -> ModelInfoView {
        self@
    }

    fn copy(&self) -> (r: Self) {
        OpenCodeModelInfo {
            id: self.id.clone(),
            display_name: self.display_name.clone(),
            provider_id: self.provider_id.clone(),
            model_id: self.model_id.clone(),
            is_default: self.is_default,
        }
    }

    fn same_content(&self, other: &Self) -> (r: bool) {
        same(self.id.as_str(), other.id.as_str())
            && same(self.display_name.as_str(), other.display_name.as_str())
            && same(self.provider_id.as_str(), other.provider_id.as_str())
            && same(self.model_id.as_str(), other.model_id.as_str())
            && self.is_default == other.is_default
    }
}

impl Clone for OpenCodeModelInfo {
    fn clone(&self) -> (r: Self)
        ensures
            r@ == self@,
    {
        self.copy()
    }
}

/// A permission that a session waits for.
#[derive(Debug, PartialEq, Eq)]
pub struct OpenCodePendingPermission {
    pub id: String,
    pub session_id: String,
    pub permission: String,
    pub patterns: Vec<String>,
    pub always: Vec<String>,
}

/// The model of an `OpenCodePendingPermission`.
pub struct PermissionView {
    pub id: Seq<char>,
    pub session_id: Seq<char>,
    pub permission: Seq<char>,
    pub patterns: Seq<Seq<char>>,
    pub always: Seq<Seq<char>>,
}

impl OpenCodePendingPermission {
    pub open spec fn view(&self) -> PermissionView {
        PermissionView {
            id: self.id@,
            session_id: self.session_id@,
            permission: self.permission@,
            patterns: views(self.patterns@),
            always: views(self.always@),
        }
    }
}

impl Modeled for OpenCodePendingPermission {
    type Model = PermissionView;

    open spec fn content(&self) -> PermissionView {
        self@
    }

    fn copy(&self) -> (r: Self) {
        OpenCodePendingPermission {
            id: self.id.clone(),
            session_id: self.session_id.clone(),
            permission: self.permission.clone(),
            patterns: clone_texts(&self.patterns),
            always: clone_texts(&self.always),
        }
    }

    fn same_content(&self, other: &Self) -> (r: bool) {
        same(self.id.as_str(), other.id.as_str())
            && same(self.session_id.as_str(), other.session_id.as_str())
            && same(self.permission.as_str(), other.permission.as_str())
            && same_texts(&self.patterns, &other.patterns)
            && same_texts(&self.always, &other.always)
    }
}

impl Clone for OpenCodePendingPermission {
    fn clone(&self) -> (r: Self)
        ensures
            r@ == self@,
    {
        self.copy()
    }
}

/// How the user answers a request for a permission.
#[derive(Debug, Clone, Copy, PartialEq, Eq, Hash, Structural)]
pub enum OpenCodePermissionReply {
    Once,
    Always,
    Reject,
}

/// The word that the server knows a reply by.
pub open spec fn reply_word(reply: OpenCodePermissionReply) -> Seq<char> {
    match reply {
        OpenCodePermissionReply::Once => "once"@,
        OpenCodePermissionReply::Always => "always"@,
        OpenCodePermissionReply::Reject => "reject"@,
    }
}

impl OpenCodePermissionReply {
    /// The name of the reply.
    pub fn label(self) -> (r: &'static str)
        ensures
            r@ == (match self {
                OpenCodePermissionReply::Once => "Allow once"@,
                OpenCodePermissionReply::Always => "Always allow"@,
                OpenCodePermissionReply::Reject => "Reject"@,
            }),
    {
        match self {
            OpenCodePermissionReply::Once => "Allow once",
            OpenCodePermissionReply::Always => "Always allow",
            OpenCodePermissionReply::Reject => "Reject",
        }
    }

    /// The word that the server knows the reply by.
    pub fn wire_value(self) -> (r: &'static str)
        ensures
            r@ == reply_word(self),
    {
        match self {
            OpenCodePermissionReply::Once => "once",
            OpenCodePermissionReply::Always => "always",
            OpenCodePermissionReply::Reject => "reject",
        }
    }
}

/// An answer that a question offers.
#[derive(Debug, PartialEq, Eq)]
pub struct OpenCodeQuestionOption {
    pub label: String,
    pub description: String,
}

/// The model of an `OpenCodeQuestionOption`.
pub struct ChoiceView {
    pub label: Seq<char>,
    pub description: Seq<char>,
}

impl OpenCodeQuestionOption {
    pub open spec fn view(&self) -> ChoiceView {
        ChoiceView {
            label: self.label@,
            description: self.description@,
        }
    }
}

impl Modeled for OpenCodeQuestionOption {
    type Model = ChoiceView;

    open spec fn content(&self) -> ChoiceView {
        self@
    }

    fn copy(&self) -> (r: Self) {
        OpenCodeQuestionOption {
            label: self.label.clone(),
            description: self.description.clone(),
        }
    }

    fn same_content(&self, other: &Self) -> (r: bool) {
        same(self.label.as_str(), other.label.as_str())
            && same(self.description.as_str(), other.description.as_str())
    }
}

impl Clone for OpenCodeQuestionOption {
    fn clone(&self) -> (r: Self)
        ensures
            r@ == self@,
    {
        self.copy()
    }
}

/// A question to the user.
#[derive(Debug, PartialEq, Eq)]
pub struct OpenCodeQuestionInfo {
    pub header: String,
    pub question: String,
    pub options: Vec<OpenCodeQuestionOption>,
    pub multiple: bool,
    pub custom: bool,
}

/// The model of an `OpenCodeQuestionInfo`.
pub struct QuestionInfoView {
    pub header: Seq<char>,
    pub question: Seq<char>,
    pub options: Seq<ChoiceView>,
    pub multiple: bool,
    pub custom: bool,
}

impl OpenCodeQuestionInfo {
    pub open spec fn view(&self) -> QuestionInfoView {
        QuestionInfoView {
            header: self.header@,
            question: self.question@,
            options: contents(self.options@),
            multiple: self.multiple,
            custom: self.custom,
        }
    }
}

impl Modeled for OpenCodeQuestionInfo {
    type Model = QuestionInfoView;

    open spec fn content(&self) -> QuestionInfoView {
        self@
    }

    fn copy(&self) -> (r: Self) {
        OpenCodeQuestionInfo {
            header: self.header.clone(),
            question: self.question.clone(),
            options: copy_all(&self.options),
            multiple: self.multiple,
            custom: self.custom,
        }
    }

    fn same_content(&self, other: &Self) -> (r: bool) {
        same(self.header.as_str(), other.header.as_str())
            && same(self.question.as_str(), other.question.as_str())
            && same_all(&self.options, &other.options)
            && self.multiple == other.multiple
            && self.custom == other.custom
    }
}

impl Clone for OpenCodeQuestionInfo {
    fn clone(&self) -> (r: Self)
        ensures
            r@ == self@,
    {
        self.copy()
    }
}

impl OpenCodeQuestionInfo {
    /// The user may answer in their own words: the question says so, or offers no answer.
    pub fn allows_custom_answer(&self) -> (r: bool)
        ensures
            r == (self@.custom || self@.options.len() == 0),
    {
        self.custom || self.options.len() == 0
    }
}

/// Questions that a session waits for, to be answered together.
#[derive(Debug, PartialEq, Eq)]
pub struct OpenCodePendingQuestion {
    pub id: String,
    pub session_id: String,
    pub questions: Vec<OpenCodeQuestionInfo>,
}

/// The model of an `OpenCodePendingQuestion`.
pub struct PendingQuestionView {
    pub id: Seq<char>,
    pub session_id: Seq<char>,
    pub questions: Seq<QuestionInfoView>,
}

impl OpenCodePendingQuestion {
    pub open spec fn view(&self) -> PendingQuestionView {
        PendingQuestionView {
            id: self.id@,
            session_id: self.session_id@,
            questions: contents(self.questions@),
        }
    }
}

impl Modeled for OpenCodePendingQuestion {
    type Model = PendingQuestionView;

    open spec fn content(&self) -> PendingQuestionView {
        self@
    }

    fn copy(&self) -> (r: Self) {
        OpenCodePendingQuestion {
            id: self.id.clone(),
            session_id: self.session_id.clone(),
            questions: copy_all(&self.questions),
        }
    }

    fn same_content(&self, other: &Self) -> (r: bool) {
        same(self.id.as_str(), other.id.as_str())
            && same(self.session_id.as_str(), other.session_id.as_str())
            && same_all(&self.questions, &other.questions)
    }
}

impl Clone for OpenCodePendingQuestion {
    fn clone(&self) -> (r: Self)
        ensures
            r@ == self@,
    {
        self.copy()
    }
}

impl PendingQuestionView {
    /// The question, where there is one and no other.
    pub open spec fn single(self) -> Option<QuestionInfoView> {
        if self.questions.len() == 1 {
            Some(self.questions[0])
        } else {
            None
        }
    }
}

/// A text of a question, or another text where there is none or it is blank.
pub open spec fn text_or(text: Option<Seq<char>>, other: Seq<char>) -> Seq<char> {
    match text {
        Some(text) => if is_blank(text) {
            other
        } else {
            text
        },
        None => other,
    }
}

impl OpenCodePendingQuestion {
    /// The heading of the card.
    pub fn title(&self) -> (r: String)
        ensures
            r@ == text_or(
                match self@.single() {
                    Some(question) => Some(question.header),
                    None => None,
                },
                "OpenCode needs input"@,
            ),
    {
        match self.single_question() {
            Some(question) => {
                if blank(question.header.as_str()) {
                    "OpenCode needs input".to_owned()
                } else {
                    question.header.clone()
                }
            },
            None => "OpenCode needs input".to_owned(),
        }
    }

    /// The text of the card.
    pub fn message(&self) -> (r: String)
        ensures
            r@ == text_or(
                match self@.single() {
                    Some(question) => Some(question.question),
                    None => None,
                },
                "OpenCode is waiting for your response."@,
            ),
    {
        match self.single_question() {
            Some(question) => {
                if blank(question.question.as_str()) {
                    "OpenCode is waiting for your response.".to_owned()
                } else {
                    question.question.clone()
                }
            },
            None => "OpenCode is waiting for your response.".to_owned(),
        }
    }

    /// The question, where there is one and no other.
    pub fn single_question(&self) -> (r: Option<&OpenCodeQuestionInfo>)
        ensures
            opt_ref_content(r) == self@.single(),
    {
        if self.questions.len() == 1 {
            Some(&self.questions[0])
        } else {
            None
        }
    }
}

} // verus!
