//! Reading the JSON documents that an OpenCode server sends.
use crate::decode::{
    default_flag, default_list, default_text, default_text_list, flag, optional_text, present,
    read_default_flag, read_default_text, read_default_text_list, read_flag, read_optional_text,
    read_present, read_text,
};
use crate::json::{JsonValue, JsonView, canonical_items, json_views, parse_view};
use crate::members::{
    members_parse, names_of, present_document, read_stated, settled_documents, settled_present,
    stated,
};
use crate::modeled::{Modeled, contents, opt_content};
use crate::opencode_server::forms::{
    ChoiceForm, MessageForm, PendingQuestionForm, PermissionForm, ProjectForm, QuestionForm,
    SessionForm, law_choice_form, law_message_form, law_pending_question_form, law_permission_form,
    law_project_form, law_question_form, law_session_form, lemma_all_read,
};
use crate::opencode_server::types::{
    ChoiceView, OpenCodePendingPermission, OpenCodePendingQuestion, OpenCodeQuestionInfo,
    OpenCodeQuestionOption, OpenCodeSessionSummary, PendingQuestionView, PermissionView,
    QuestionInfoView, SessionView, same_number,
};
use crate::shape::{
    Shape, find_flag_fault, find_listing_fault, find_optional_text_fault, flag_fault, has_shape,
    listing_fault, member_fits, optional_text_fault, say_undecodable, shape_error, shape_fault_of,
    undecodable,
};
use crate::text::{blank, clone_option, concat2, concat3, is_blank, opt_view, same, same_option};
use crate::text_map::{find_value, pair_views, value_under};
use vstd::prelude::*;

verus! {

/// A project that the server knows.
#[derive(Debug, PartialEq, Eq)]
pub struct OpenCodeProjectWire {
    pub id: String,
    pub worktree: String,
}

/// A project that a document describes.
pub open spec fn project_of(value: JsonView) -> Option<(Seq<char>, Seq<char>)> {
    match stated(value, seq!["id"@, "worktree"@], 2) {
        Some(value) => project_members(value),
        None => None,
    }
}

/// The same, of an object that states no member twice.
pub open spec fn project_members(value: JsonView) -> Option<(Seq<char>, Seq<char>)> {
    match (value.get_text("id"@), value.get_text("worktree"@)) {
        (Some(id), Some(worktree)) => Some((id, worktree)),
        _ => None,
    }
}

impl OpenCodeProjectWire {
    pub open spec fn view(&self) -> (Seq<char>, Seq<char>) {
        (self.id@, self.worktree@)
    }

    /// The project that a document describes.
    pub fn from_json(value: &JsonValue) -> (r: Option<OpenCodeProjectWire>)
        ensures
            opt_content(r) == project_of(value@),
    {
        assert(names_of(["id", "worktree"]@) =~= seq!["id"@, "worktree"@]);
        let value = match read_stated(value, &["id", "worktree"], 2) {
            Some(value) => value,
            None => {
                return None;
            },
        };
        match (read_text(&value, "id"), read_text(&value, "worktree")) {
            (Some(id), Some(worktree)) => Some(OpenCodeProjectWire { id, worktree }),
            _ => None,
        }
    }
}

impl Modeled for OpenCodeProjectWire {
    type Model = (Seq<char>, Seq<char>);

    open spec fn content(&self) -> (Seq<char>, Seq<char>) {
        self@
    }

    fn copy(&self) -> (r: Self) {
        OpenCodeProjectWire { id: self.id.clone(), worktree: self.worktree.clone() }
    }

    fn same_content(&self, other: &Self) -> (r: bool) {
        same(self.id.as_str(), other.id.as_str()) && same(
            self.worktree.as_str(),
            other.worktree.as_str(),
        )
    }
}

/// A type whose values are read from JSON documents.
pub trait Decoded: Modeled {
    /// The shape of the documents.
    type Form: Shape;

    /// The value that a document writes, where it writes one.
    spec fn decoded(value: JsonView) -> Option<Self::Model>;

    /// The value that a document writes, where it writes one.
    fn decode(value: &JsonValue) -> (r: Option<Self>)
        ensures
            opt_content(r) == Self::decoded(value@),
    ;

    /// A document writes no value exactly where it has not the shape.
    proof fn form_is_right(value: JsonView)
        ensures
            Self::decoded(value) is None <==> !has_shape::<Self::Form>(value),
    ;
}

/// The values that the documents write, where each writes one.
pub open spec fn decoded_all<T: Decoded>(items: Seq<JsonView>) -> Option<Seq<T::Model>>
    decreases items.len(),
{
    if items.len() == 0 {
        Some(Seq::empty())
    } else {
        match (decoded_all::<T>(items.drop_last()), T::decoded(items.last())) {
            (Some(before), Some(item)) => Some(before.push(item)),
            _ => None,
        }
    }
}

/// The model of a list that was read.
pub open spec fn opt_contents<T: Modeled>(items: Option<Vec<T>>) -> Option<Seq<T::Model>> {
    match items {
        Some(items) => Some(contents(items@)),
        None => None,
    }
}

proof fn lemma_decoded_prefix<T: Decoded>(items: Seq<JsonView>, n: int)
    requires
        0 <= n <= items.len(),
        decoded_all::<T>(items.take(n)) is None,
    ensures
        decoded_all::<T>(items) is None,
    decreases items.len(),
{
    if n == items.len() {
        assert(items.take(n) =~= items);
    } else {
        assert(items.drop_last().take(n) =~= items.take(n));
        lemma_decoded_prefix::<T>(items.drop_last(), n);
    }
}

/// The values that the documents write, where each writes one.
pub fn decode_all<T: Decoded>(items: &Vec<JsonValue>) -> (r: Option<Vec<T>>)
    ensures
        opt_contents(r) == decoded_all::<T>(json_views(items@)),
{
    let ghost all = json_views(items@);
    let mut r: Vec<T> = Vec::new();
    let mut i: usize = 0;
    assert(contents(r@) =~= Seq::empty());
    assert(decoded_all::<T>(all.take(0)) == Some(contents(r@)));
    while i < items.len()
        invariant
            i <= items@.len(),
            all == json_views(items@),
            decoded_all::<T>(all.take(i as int)) == Some(contents(r@)),
        decreases items@.len() - i,
    {
        let ghost done = contents(r@);
        proof {
            assert(all.take(i as int + 1).drop_last() =~= all.take(i as int));
            assert(all.take(i as int + 1).last() == items@[i as int]@);
        }
        match T::decode(&items[i]) {
            Some(item) => {
                r.push(item);
                assert(contents(r@) =~= done.push(item.content()));
            },
            None => {
                proof {
                    lemma_decoded_prefix::<T>(all, i as int + 1);
                }
                return None;
            },
        }
        i = i + 1;
    }
    assert(all.take(i as int) =~= all);
    Some(r)
}

/// The values of an array.
pub open spec fn decoded_array<T: Decoded>(value: JsonView) -> Option<Seq<T::Model>> {
    match value {
        JsonView::Array(items) => decoded_all::<T>(items),
        _ => None,
    }
}

/// The values of an array.
pub fn decode_array<T: Decoded>(value: &JsonValue) -> (r: Option<Vec<T>>)
    ensures
        opt_contents(r) == decoded_array::<T>(value@),
{
    broadcast use JsonValue::lemma_array_view;

    match value {
        JsonValue::Array(items) => decode_all(items),
        _ => None,
    }
}

/// The values of an array that may be left out.
pub open spec fn decoded_list<T: Decoded>(value: JsonView, key: Seq<char>) -> Option<
    Seq<T::Model>,
> {
    match value.get(key) {
        None => Some(Seq::empty()),
        Some(list) => decoded_array::<T>(list),
    }
}

/// The values of an array that may be left out.
pub fn decode_list<T: Decoded>(value: &JsonValue, key: &str) -> (r: Option<Vec<T>>)
    ensures
        opt_contents(r) == decoded_list::<T>(value@, key@),
{
    match value.get(key) {
        None => {
            let r: Vec<T> = Vec::new();
            assert(contents(r@) =~= Seq::empty());
            Some(r)
        },
        Some(list) => decode_array(list),
    }
}

impl Decoded for OpenCodeProjectWire {
    type Form = ProjectForm;

    proof fn form_is_right(value: JsonView) {
        law_project_form(value);
    }

    open spec fn decoded(value: JsonView) -> Option<(Seq<char>, Seq<char>)> {
        project_of(value)
    }

    fn decode(value: &JsonValue) -> (r: Option<Self>) {
        OpenCodeProjectWire::from_json(value)
    }
}

/// The permission that a document asks for.
pub open spec fn permission_of(value: JsonView) -> Option<PermissionView> {
    match stated(value, seq!["id"@, "sessionID"@, "permission"@, "patterns"@, "always"@], 3) {
        Some(value) => permission_members(value),
        None => None,
    }
}

/// The same, of an object that states no member twice.
pub open spec fn permission_members(value: JsonView) -> Option<PermissionView> {
    match (
        value.get_text("id"@),
        value.get_text("sessionID"@),
        value.get_text("permission"@),
        default_text_list(value, "patterns"@),
        default_text_list(value, "always"@),
    ) {
        (Some(id), Some(session_id), Some(permission), Some(patterns), Some(always)) => Some(
            PermissionView { id, session_id, permission, patterns, always },
        ),
        _ => None,
    }
}

impl Decoded for OpenCodePendingPermission {
    type Form = PermissionForm;

    proof fn form_is_right(value: JsonView) {
        law_permission_form(value);
    }

    open spec fn decoded(value: JsonView) -> Option<PermissionView> {
        permission_of(value)
    }

    fn decode(value: &JsonValue) -> (r: Option<Self>) {
        assert(names_of(["id", "sessionID", "permission", "patterns", "always"]@) =~= seq![
            "id"@,
            "sessionID"@,
            "permission"@,
            "patterns"@,
            "always"@,
        ]);
        let value = match read_stated(
            value,
            &["id", "sessionID", "permission", "patterns", "always"],
            3,
        ) {
            Some(value) => value,
            None => {
                return None;
            },
        };
        match (
            read_text(&value, "id"),
            read_text(&value, "sessionID"),
            read_text(&value, "permission"),
            read_default_text_list(&value, "patterns"),
            read_default_text_list(&value, "always"),
        ) {
            (Some(id), Some(session_id), Some(permission), Some(patterns), Some(always)) => Some(
                OpenCodePendingPermission { id, session_id, permission, patterns, always },
            ),
            _ => None,
        }
    }
}

/// The answer that a document offers.
pub open spec fn choice_of(value: JsonView) -> Option<ChoiceView> {
    match stated(value, seq!["label"@, "description"@], 1) {
        Some(value) => choice_members(value),
        None => None,
    }
}

/// The same, of an object that states no member twice.
pub open spec fn choice_members(value: JsonView) -> Option<ChoiceView> {
    match (value.get_text("label"@), default_text(value, "description"@)) {
        (Some(label), Some(description)) => Some(ChoiceView { label, description }),
        _ => None,
    }
}

impl Decoded for OpenCodeQuestionOption {
    type Form = ChoiceForm;

    proof fn form_is_right(value: JsonView) {
        law_choice_form(value);
    }

    open spec fn decoded(value: JsonView) -> Option<ChoiceView> {
        choice_of(value)
    }

    fn decode(value: &JsonValue) -> (r: Option<Self>) {
        assert(names_of(["label", "description"]@) =~= seq!["label"@, "description"@]);
        let value = match read_stated(value, &["label", "description"], 1) {
            Some(value) => value,
            None => {
                return None;
            },
        };
        match (read_text(&value, "label"), read_default_text(&value, "description")) {
            (Some(label), Some(description)) => Some(
                OpenCodeQuestionOption { label, description },
            ),
            _ => None,
        }
    }
}

/// The question that a document asks.
pub open spec fn question_of(value: JsonView) -> Option<QuestionInfoView> {
    match stated(value, seq!["header"@, "question"@, "options"@, "multiple"@, "custom"@], 0) {
        Some(value) => question_members(value),
        None => None,
    }
}

/// The same, of an object that states no member twice.
pub open spec fn question_members(value: JsonView) -> Option<QuestionInfoView> {
    match (
        default_text(value, "header"@),
        default_text(value, "question"@),
        decoded_list::<OpenCodeQuestionOption>(value, "options"@),
        default_flag(value, "multiple"@),
        default_flag(value, "custom"@),
    ) {
        (Some(header), Some(question), Some(options), Some(multiple), Some(custom)) => Some(
            QuestionInfoView { header, question, options, multiple, custom },
        ),
        _ => None,
    }
}

impl Decoded for OpenCodeQuestionInfo {
    type Form = QuestionForm;

    proof fn form_is_right(value: JsonView) {
        law_question_form(value);
    }

    open spec fn decoded(value: JsonView) -> Option<QuestionInfoView> {
        question_of(value)
    }

    fn decode(value: &JsonValue) -> (r: Option<Self>) {
        assert(names_of(["header", "question", "options", "multiple", "custom"]@) =~= seq![
            "header"@,
            "question"@,
            "options"@,
            "multiple"@,
            "custom"@,
        ]);
        let value = match read_stated(
            value,
            &["header", "question", "options", "multiple", "custom"],
            0,
        ) {
            Some(value) => value,
            None => {
                return None;
            },
        };
        match (
            read_default_text(&value, "header"),
            read_default_text(&value, "question"),
            decode_list::<OpenCodeQuestionOption>(&value, "options"),
            read_default_flag(&value, "multiple"),
            read_default_flag(&value, "custom"),
        ) {
            (Some(header), Some(question), Some(options), Some(multiple), Some(custom)) => Some(
                OpenCodeQuestionInfo { header, question, options, multiple, custom },
            ),
            _ => None,
        }
    }
}

/// The document is an object.
pub fn is_object(value: &JsonValue) -> (r: bool)
    ensures
        r == (value@ is Object),
{
    broadcast use {JsonValue::lemma_object_view, JsonValue::lemma_array_view};

    match value {
        JsonValue::Object(_) => true,
        _ => false,
    }
}

/// The questions that a document asks.
pub open spec fn pending_question_of(value: JsonView) -> Option<PendingQuestionView> {
    match stated(value, seq!["id"@, "sessionID"@, "questions"@], 2) {
        Some(value) => pending_question_members(value),
        None => None,
    }
}

/// The same, of an object that states no member twice.
pub open spec fn pending_question_members(value: JsonView) -> Option<PendingQuestionView> {
    match (
        value.get_text("id"@),
        value.get_text("sessionID"@),
        decoded_list::<OpenCodeQuestionInfo>(value, "questions"@),
    ) {
        (Some(id), Some(session_id), Some(questions)) => Some(
            PendingQuestionView { id, session_id, questions },
        ),
        _ => None,
    }
}

impl Decoded for OpenCodePendingQuestion {
    type Form = PendingQuestionForm;

    proof fn form_is_right(value: JsonView) {
        law_pending_question_form(value);
    }

    open spec fn decoded(value: JsonView) -> Option<PendingQuestionView> {
        pending_question_of(value)
    }

    fn decode(value: &JsonValue) -> (r: Option<Self>) {
        assert(names_of(
            ["id", "sessionID", "questions"]@
        ) =~= seq!["id"@, "sessionID"@, "questions"@]);
        let value = match read_stated(value, &["id", "sessionID", "questions"], 2) {
            Some(value) => value,
            None => {
                return None;
            },
        };
        match (
            read_text(&value, "id"),
            read_text(&value, "sessionID"),
            decode_list::<OpenCodeQuestionInfo>(&value, "questions"),
        ) {
            (Some(id), Some(session_id), Some(questions)) => Some(
                OpenCodePendingQuestion { id, session_id, questions },
            ),
            _ => None,
        }
    }
}

/// A session as the server describes it.
#[derive(Debug, PartialEq, Eq)]
pub struct OpenCodeSessionWire {
    pub id: String,
    pub parent_id: Option<String>,
    pub title: Option<String>,
    pub slug: Option<String>,
    pub project_id: Option<String>,
    pub directory: Option<String>,
    pub updated_at: Option<i64>,
}

/// The model of an `OpenCodeSessionWire`.
pub struct SessionWireView {
    pub id: Seq<char>,
    pub parent_id: Option<Seq<char>>,
    pub title: Option<Seq<char>>,
    pub slug: Option<Seq<char>>,
    pub project_id: Option<Seq<char>>,
    pub directory: Option<Seq<char>>,
    pub updated_at: Option<i64>,
}

impl OpenCodeSessionWire {
    pub open spec fn view(&self) -> SessionWireView {
        SessionWireView {
            id: self.id@,
            parent_id: opt_view(self.parent_id),
            title: opt_view(self.title),
            slug: opt_view(self.slug),
            project_id: opt_view(self.project_id),
            directory: opt_view(self.directory),
            updated_at: self.updated_at,
        }
    }
}

impl Modeled for OpenCodeSessionWire {
    type Model = SessionWireView;

    open spec fn content(&self) -> SessionWireView {
        self@
    }

    fn copy(&self) -> (r: Self) {
        OpenCodeSessionWire {
            id: self.id.clone(),
            parent_id: clone_option(&self.parent_id),
            title: clone_option(&self.title),
            slug: clone_option(&self.slug),
            project_id: clone_option(&self.project_id),
            directory: clone_option(&self.directory),
            updated_at: self.updated_at,
        }
    }

    fn same_content(&self, other: &Self) -> (r: bool) {
        same(self.id.as_str(), other.id.as_str()) && same_option(&self.parent_id, &other.parent_id)
            && same_option(&self.title, &other.title) && same_option(&self.slug, &other.slug)
            && same_option(&self.project_id, &other.project_id) && same_option(
            &self.directory,
            &other.directory,
        ) && same_number(self.updated_at, other.updated_at)
    }
}

/// A time as the server writes it: a number, cut to a whole one. Without it a session has no time.
pub open spec fn wire_time(value: JsonView) -> Option<i64> {
    match value {
        JsonView::Number(n) => match n.signed {
            Some(time) => Some(time),
            None => match n.unsigned {
                Some(time) => if time <= i64::MAX {
                    Some(time as i64)
                } else {
                    n.truncated
                },
                None => n.truncated,
            },
        },
        _ => None,
    }
}

/// A time as the server writes it.
pub fn timestamp_value_to_i64(value: &JsonValue) -> (r: Option<i64>)
    ensures
        r == wire_time(value@),
{
    match value.as_number() {
        Some(parts) => match parts.signed {
            Some(time) => Some(time),
            None => match parts.unsigned {
                Some(time) => {
                    if time <= i64::MAX as u64 {
                        Some(time as i64)
                    } else {
                        parts.truncated
                    }
                },
                None => parts.truncated,
            },
        },
        None => None,
    }
}

/// The time of a session's last change. The member that holds it may be left out.
pub open spec fn session_time(value: JsonView) -> Option<Option<i64>> {
    match present(value, "time"@) {
        None => Some(None),
        Some(time) => match stated(time, seq!["updated"@], 1) {
            Some(time) => Some(
                match present(time, "updated"@) {
                    Some(updated) => wire_time(updated),
                    None => None,
                },
            ),
            None => None,
        },
    }
}

fn read_session_time(value: &JsonValue) -> (r: Option<Option<i64>>)
    ensures
        r == session_time(value@),
{
    match read_present(value, "time") {
        None => Some(None),
        Some(time) => {
            assert(names_of(["updated"]@) =~= seq!["updated"@]);
            let time = match read_stated(time, &["updated"], 1) {
                Some(time) => time,
                None => {
                    return None;
                },
            };
            Some(
                match read_present(&time, "updated") {
                    Some(updated) => timestamp_value_to_i64(updated),
                    None => None,
                },
            )
        },
    }
}

/// The session that a document describes.
pub open spec fn session_of(value: JsonView) -> Option<SessionWireView> {
    match stated(
        value,
        seq!["id"@, "title"@, "slug"@, "projectID"@, "directory"@, "time"@, "parentID"@],
        6,
    ) {
        Some(value) => session_members(value),
        None => None,
    }
}

/// The same, of an object that states no member twice.
pub open spec fn session_members(value: JsonView) -> Option<SessionWireView> {
    match (
        value.get_text("id"@),
        optional_text(value, "parentID"@),
        optional_text(value, "title"@),
        optional_text(value, "slug"@),
        optional_text(value, "projectID"@),
        optional_text(value, "directory"@),
        session_time(value),
    ) {
        (
            Some(id),
            Some(parent_id),
            Some(title),
            Some(slug),
            Some(project_id),
            Some(directory),
            Some(updated_at),
        ) => Some(
            SessionWireView { id, parent_id, title, slug, project_id, directory, updated_at },
        ),
        _ => None,
    }
}

impl Decoded for OpenCodeSessionWire {
    type Form = SessionForm;

    proof fn form_is_right(value: JsonView) {
        law_session_form(value);
    }

    open spec fn decoded(value: JsonView) -> Option<SessionWireView> {
        session_of(value)
    }

    fn decode(value: &JsonValue) -> (r: Option<Self>) {
        assert(names_of(
            ["id", "title", "slug", "projectID", "directory", "time", "parentID"]@
        ) =~= seq!["id"@, "title"@, "slug"@, "projectID"@, "directory"@, "time"@, "parentID"@]);
        let value = match read_stated(
            value,
            &["id", "title", "slug", "projectID", "directory", "time", "parentID"],
            6,
        ) {
            Some(value) => value,
            None => {
                return None;
            },
        };
        match (
            read_text(&value, "id"),
            read_optional_text(&value, "parentID"),
            read_optional_text(&value, "title"),
            read_optional_text(&value, "slug"),
            read_optional_text(&value, "projectID"),
            read_optional_text(&value, "directory"),
            read_session_time(&value),
        ) {
            (
                Some(id),
                Some(parent_id),
                Some(title),
                Some(slug),
                Some(project_id),
                Some(directory),
                Some(updated_at),
            ) => Some(
                OpenCodeSessionWire {
                    id,
                    parent_id,
                    title,
                    slug,
                    project_id,
                    directory,
                    updated_at,
                },
            ),
            _ => None,
        }
    }
}

/// What the list of sessions shows of a session. Its title is the one it has, else its slug, else
/// its identifier.
pub open spec fn summary_of(session: SessionWireView) -> SessionView {
    SessionView {
        id: session.id,
        title: match session.title {
            Some(title) => if is_blank(title) {
                match session.slug {
                    Some(slug) => slug,
                    None => session.id,
                }
            } else {
                title
            },
            None => match session.slug {
                Some(slug) => slug,
                None => session.id,
            },
        },
        directory: session.directory,
        project_id: session.project_id,
        updated_at: session.updated_at,
        status: None,
    }
}

impl OpenCodeSessionWire {
    /// What the list of sessions shows of the session.
    pub fn into_summary(self) -> (r: OpenCodeSessionSummary)
        ensures
            r@ == summary_of(self@),
    {
        let titled = match &self.title {
            Some(title) => !blank(title.as_str()),
            None => false,
        };
        let title = if titled {
            self.title
        } else {
            self.slug
        };
        let title = match title {
            Some(title) => title,
            None => self.id.clone(),
        };
        OpenCodeSessionSummary {
            id: self.id,
            title,
            directory: self.directory,
            project_id: self.project_id,
            updated_at: self.updated_at,
            status: None,
        }
    }
}

/// What the list shows of a session of a directory. A session that another session started is not
/// listed.
pub open spec fn listed_summary(
    session: SessionWireView,
    directory: Seq<char>,
    statuses: Seq<(Seq<char>, Seq<char>)>,
) -> Option<SessionView> {
    if session.parent_id is Some {
        None
    } else {
        let summary = summary_of(session);
        Some(
            SessionView {
                directory: match summary.directory {
                    Some(own) => Some(own),
                    None => Some(directory),
                },
                status: value_under(statuses, summary.id),
                ..summary
            },
        )
    }
}

/// What the list shows of a session of a directory.
pub fn session_summary_for_directory(
    session: OpenCodeSessionWire,
    directory: &str,
    statuses: &Vec<(String, String)>,
) -> (r: Option<OpenCodeSessionSummary>)
    ensures
        opt_content(r) == listed_summary(session@, directory@, pair_views(statuses@)),
{
    if session.parent_id.is_some() {
        return None;
    }
    let mut summary = session.into_summary();
    if summary.directory.is_none() {
        summary.directory = Some(directory.to_owned());
    }
    summary.status = find_value(statuses, summary.id.as_str());
    Some(summary)
}

/// A message of a session.
#[derive(Debug, PartialEq)]
pub struct OpenCodeMessageWire {
    pub role: String,
    pub error: Option<JsonValue>,
    pub finish: Option<JsonValue>,
    pub parts: Vec<JsonValue>,
}

/// The model of an `OpenCodeMessageWire`.
pub struct MessageWireView {
    pub role: Seq<char>,
    pub error: Option<JsonView>,
    pub finish: Option<JsonView>,
    pub parts: Seq<JsonView>,
}

/// The model of an optional document.
pub open spec fn opt_document(value: Option<JsonValue>) -> Option<JsonView> {
    match value {
        Some(value) => Some(value@),
        None => None,
    }
}

impl OpenCodeMessageWire {
    pub open spec fn view(&self) -> MessageWireView {
        MessageWireView {
            role: self.role@,
            error: opt_document(self.error),
            finish: opt_document(self.finish),
            parts: json_views(self.parts@),
        }
    }

    /// The message that a document describes.
    pub fn from_json(value: &JsonValue) -> (r: Option<OpenCodeMessageWire>)
        ensures
            opt_message_view(r) == message_of(value@),
    {
        broadcast use JsonValue::lemma_array_view;

        assert(names_of(["info", "parts"]@) =~= seq!["info"@, "parts"@]);
        let value = match read_stated(value, &["info", "parts"], 1) {
            Some(value) => value,
            None => {
                return None;
            },
        };
        let info = match value.get("info") {
            Some(info) => info,
            None => {
                return None;
            },
        };
        assert(names_of(["role", "error", "finish"]@) =~= seq!["role"@, "error"@, "finish"@]);
        let info = match read_stated(info, &["role", "error", "finish"], 3) {
            Some(info) => info,
            None => {
                return None;
            },
        };
        let role = match read_text(&info, "role") {
            Some(role) => role,
            None => {
                return None;
            },
        };
        let error = settled_present(&info, "error");
        let finish = settled_present(&info, "finish");
        let parts = match value.get("parts") {
            None => {
                let parts: Vec<JsonValue> = Vec::new();
                assert(json_views(parts@) =~= canonical_items(Seq::empty()));
                parts
            },
            Some(JsonValue::Array(items)) => settled_documents(items),
            Some(_) => {
                return None;
            },
        };
        Some(OpenCodeMessageWire { role, error, finish, parts })
    }
}

/// The model of an optional message.
pub open spec fn opt_message_view(message: Option<OpenCodeMessageWire>) -> Option<MessageWireView> {
    match message {
        Some(message) => Some(message@),
        None => None,
    }
}

/// The message that a document describes.
pub open spec fn message_of(value: JsonView) -> Option<MessageWireView> {
    match stated(value, seq!["info"@, "parts"@], 1) {
        Some(value) => match (
            match value.get("info"@) {
                Some(info) => stated(info, seq!["role"@, "error"@, "finish"@], 3),
                None => None,
            },
            default_list(value, "parts"@),
        ) {
            (Some(info), Some(parts)) => match info.get_text("role"@) {
                Some(role) => Some(
                    MessageWireView {
                        role,
                        error: present_document(info, "error"@),
                        finish: present_document(info, "finish"@),
                        parts: canonical_items(parts),
                    },
                ),
                None => None,
            },
            _ => None,
        },
        None => None,
    }
}

/// What a server says of its health.
pub struct ServerHealthShape;

impl Shape for ServerHealthShape {
    open spec fn title() -> Seq<char> {
        "struct Health"@
    }

    open spec fn names() -> Seq<Seq<char>> {
        seq!["healthy"@, "version"@]
    }

    open spec fn needed() -> nat {
        2
    }

    open spec fn may_lack(name: Seq<char>) -> bool {
        name == "version"@
    }

    open spec fn fault(name: Seq<char>, member: JsonView) -> Option<Seq<char>> {
        if name == "healthy"@ {
            flag_fault(name, member)
        } else {
            optional_text_fault(name, member)
        }
    }

    proof fn names_are_sound() {
        reveal_strlit("healthy");
        reveal_strlit("version");
        assert("healthy"@[0] == 'h' && "version"@[0] == 'v');
    }

    fn expected() -> (r: &'static str) {
        "struct Health"
    }

    fn member_names() -> (r: Vec<&'static str>) {
        let r: Vec<&'static str> = vec!["healthy", "version"];
        assert(names_of(r@) =~= Self::names());
        r
    }

    fn needed_count() -> (r: usize) {
        2
    }

    fn can_lack(name: &str) -> (r: bool) {
        same(name, "version")
    }

    fn find_fault(name: &str, member: &JsonValue) -> (r: Option<String>) {
        if same(name, "healthy") {
            find_flag_fault(name, member)
        } else {
            find_optional_text_fault(name, member)
        }
    }
}

/// What a document states of a server's health: whether it is well, and its version.
pub open spec fn health_of(value: JsonView) -> Option<(bool, Option<Seq<char>>)> {
    match stated(value, seq!["healthy"@, "version"@], 2) {
        Some(value) => match (flag(value, "healthy"@), optional_text(value, "version"@)) {
            (Some(healthy), Some(version)) => Some((healthy, version)),
            _ => None,
        },
        None => None,
    }
}

/// What is said of a health that cannot be read.
pub open spec fn unreadable_health(fault: Seq<char>) -> Seq<char> {
    "Could not parse OpenCode health response: "@ + undecodable(fault)
}

/// The verdict on a server: an error where it answered with a failure, or says that it is not
/// well, or says nothing that can be read.
pub open spec fn health_verdict(
    is_success: bool,
    status: Seq<char>,
    body: Seq<char>,
) -> Result<(), Seq<char>> {
    if !is_success {
        Err("OpenCode health check returned "@ + status + ": "@ + body)
    } else {
        match members_parse(body) {
            Err(error) => Err(unreadable_health(error)),
            Ok(value) => match health_of(value) {
                None => Err(unreadable_health(shape_error::<ServerHealthShape>(value))),
                Some((true, _)) => Ok(()),
                Some((false, version)) => Err(
                    "OpenCode server reported unhealthy"@ + (match version {
                        Some(version) => " ("@ + version + ")"@,
                        None => Seq::empty(),
                    }),
                ),
            },
        }
    }
}

/// What a document states of a server's health cannot be read exactly where it has not the shape.
pub proof fn law_server_health_shape(value: JsonView)
    ensures
        health_of(value) is None <==> !has_shape::<ServerHealthShape>(value),
{
    let names = ServerHealthShape::names();
    reveal_strlit("healthy");
    reveal_strlit("version");
    assert("healthy"@[0] == 'h' && "version"@[0] == 'v');
    assert(names[0] == "healthy"@ && names[1] == "version"@);
    if let Some(object) = stated(value, names, 2) {
        if health_of(value) is Some {
            assert forall|k: int| 0 <= k < names.len() implies member_fits::<ServerHealthShape>(
                object,
                #[trigger] names[k],
            ) by {
                assert(k == 0 || k == 1);
            }
        }
    }
}

/// The model of a verdict.
pub open spec fn verdict_view(r: Result<(), String>) -> Result<(), Seq<char>> {
    match r {
        Ok(_) => Ok(()),
        Err(message) => Err(message@),
    }
}

/// What a document states of a server's health.
fn read_health(value: &JsonValue) -> (r: Option<(bool, Option<String>)>)
    ensures
        match r {
            Some((healthy, version)) => health_of(value@) == Some((healthy, opt_view(version))),
            None => health_of(value@) is None,
        },
{
    assert(names_of(["healthy", "version"]@) =~= seq!["healthy"@, "version"@]);
    let value = match read_stated(value, &["healthy", "version"], 2) {
        Some(value) => value,
        None => {
            return None;
        },
    };
    match (read_flag(&value, "healthy"), read_optional_text(&value, "version")) {
        (Some(healthy), Some(version)) => Some((healthy, version)),
        _ => None,
    }
}

/// The verdict on a server.
pub fn check_health(is_success: bool, status: &str, body: &str) -> (r: Result<(), String>)
    ensures
        verdict_view(r) == health_verdict(is_success, status@, body@),
{
    if !is_success {
        let mut message = concat3("OpenCode health check returned ", status, ": ");
        message.append(body);
        return Err(message);
    }
    let fault = match JsonValue::parse_members(body) {
        Err(error) => error,
        Ok(value) => match read_health(&value) {
            Some((true, _)) => {
                return Ok(());
            },
            Some((false, Some(version))) => {
                let named = concat3(" (", version.as_str(), ")");
                return Err(concat2("OpenCode server reported unhealthy", named.as_str()));
            },
            Some((false, None)) => {
                let message = "OpenCode server reported unhealthy".to_owned();
                assert(message@ =~= message@ + Seq::empty());
                return Err(message);
            },
            None => {
                proof {
                    law_server_health_shape(value@);
                }
                shape_fault_of::<ServerHealthShape>(&value)
            },
        },
    };
    Err(
        concat2(
            "Could not parse OpenCode health response: ",
            say_undecodable(fault.as_str()).as_str(),
        ),
    )
}

/// What is said of an answer that cannot be read.
pub open spec fn unreadable_answer(url: Seq<char>, fault: Seq<char>) -> Seq<char> {
    "Could not parse OpenCode response from "@ + url + ": "@ + undecodable(fault)
}

/// What is said of an answer that cannot be read.
pub(crate) fn say_unreadable_answer(url: &str, fault: &str) -> (r: String)
    ensures
        r@ == unreadable_answer(url@, fault@),
{
    let mut r = concat3("Could not parse OpenCode response from ", url, ": ");
    r.append(say_undecodable(fault).as_str());
    r
}

/// The document that the server answers with, every member that it states kept, or what is said of
/// its failure.
pub open spec fn answer_of(
    is_success: bool,
    status: Seq<char>,
    url: Seq<char>,
    body: Seq<char>,
) -> Result<
    JsonView,
    Seq<char>,
> {
    if !is_success {
        Err("OpenCode server returned "@ + status + ": "@ + body)
    } else {
        match members_parse(body) {
            Ok(value) => Ok(value),
            Err(error) => Err(unreadable_answer(url, error)),
        }
    }
}

/// The document that the server answers with.
pub fn read_answer(is_success: bool, status: &str, url: &str, body: &str) -> (r: Result<
    JsonValue,
    String,
>)
    ensures
        parse_view(r) == answer_of(is_success, status@, url@, body@),
{
    if !is_success {
        return Err(
            concat3(concat2("OpenCode server returned ", status).as_str(), ": ", body),
        );
    }
    match JsonValue::parse_members(body) {
        Ok(value) => Ok(value),
        Err(error) => Err(say_unreadable_answer(url, error.as_str())),
    }
}

/// The value that an answer writes, or what is said of an answer that writes none.
pub fn read_value<T: Decoded>(value: &JsonValue, url: &str) -> (r: Result<T, String>)
    ensures
        match r {
            Ok(item) => T::decoded(value@) == Some(item.content()),
            Err(message) => T::decoded(value@) is None && message@ == unreadable_answer(
                url@,
                shape_error::<T::Form>(value@),
            ),
        },
{
    match T::decode(value) {
        Some(item) => Ok(item),
        None => {
            proof {
                T::form_is_right(value@);
            }
            Err(say_unreadable_answer(url, shape_fault_of::<T::Form>(value).as_str()))
        },
    }
}

/// The values that an answer lists, or what is said of an answer that lists none.
pub fn read_values<T: Decoded>(value: &JsonValue, url: &str) -> (r: Result<Vec<T>, String>)
    ensures
        match r {
            Ok(items) => decoded_array::<T>(value@) == Some(contents(items@)),
            Err(message) => decoded_array::<T>(value@) is None && message@ == unreadable_answer(
                url@,
                listing_fault::<T::Form>(value@)->0,
            ) && listing_fault::<T::Form>(value@) is Some,
        },
{
    match decode_array::<T>(value) {
        Some(items) => Ok(items),
        None => {
            proof {
                if let JsonView::Array(items) = value@ {
                    lemma_all_read::<T>(items);
                }
            }
            let fault = match find_listing_fault::<T::Form>(value) {
                Some(fault) => fault,
                None => String::new(),
            };
            Err(say_unreadable_answer(url, fault.as_str()))
        },
    }
}

/// The message that an answer writes, or what is said of an answer that writes none.
pub fn read_message(value: &JsonValue, url: &str) -> (r: Result<OpenCodeMessageWire, String>)
    ensures
        match r {
            Ok(message) => message_of(value@) == Some(message@),
            Err(error) => message_of(value@) is None && error@ == unreadable_answer(
                url@,
                shape_error::<MessageForm>(value@),
            ),
        },
{
    match OpenCodeMessageWire::from_json(value) {
        Some(message) => Ok(message),
        None => {
            proof {
                law_message_form(value@);
            }
            Err(say_unreadable_answer(url, shape_fault_of::<MessageForm>(value).as_str()))
        },
    }
}

} // verus!
