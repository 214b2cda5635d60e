//! The shapes of the documents that an OpenCode server sends, and what is wrong with those that do
//! not have them.
use crate::decode::default_text_list;
use crate::json::{JsonValue, JsonView};
use crate::members::{names_of, stated};
use crate::opencode_server::types::{OpenCodeQuestionInfo, OpenCodeQuestionOption};
use crate::opencode_server::wire::{
    Decoded, choice_of, decoded_all, decoded_list, message_of, pending_question_of, permission_of,
    project_of, question_of, session_of, session_time,
};
use crate::shape::{
    Shape, find_flag_fault, find_list_fault, find_optional_part_fault, find_optional_path_fault,
    find_optional_text_fault, find_part_list_fault, find_path_fault, find_shape_fault,
    find_text_fault, find_text_list_fault, flag_fault, has_shape, law_faults, lemma_parts_fault,
    lemma_texts_read, list_fault, member_fits, optional_part_fault, optional_path_fault,
    optional_text_fault, part_list_fault, parts_fault, path_fault, shape_fault, text_fault,
    text_list_fault,
};
use crate::text::same;
use vstd::prelude::*;

verus! {

proof fn lemma_project_form_names()
    ensures
        "id"@ != "worktree"@,
{
    reveal_strlit("id");
    reveal_strlit("worktree");
    assert("id"@.len() == 2 && "worktree"@.len() == 8);
}

/// A project.
pub struct ProjectForm;

impl Shape for ProjectForm {
    open spec fn title() -> Seq<char> {
        "struct OpenCodeProjectWire"@
    }

    open spec fn names() -> Seq<Seq<char>> {
        seq!["id"@, "worktree"@]
    }

    open spec fn needed() -> nat {
        2
    }

    open spec fn may_lack(name: Seq<char>) -> bool {
        false
    }

    open spec fn fault(name: Seq<char>, member: JsonView) -> Option<Seq<char>> {
        if name == "id"@ {
            text_fault(name, member)
        } else {
            path_fault(name, member)
        }
    }

    proof fn names_are_sound() {
        lemma_project_form_names();
    }

    fn expected() -> (r: &'static str) {
        "struct OpenCodeProjectWire"
    }

    fn member_names() -> (r: Vec<&'static str>) {
        let r: Vec<&'static str> = vec!["id", "worktree"];
        assert(names_of(r@) =~= Self::names());
        r
    }

    fn needed_count() -> (r: usize) {
        2
    }

    fn can_lack(_name: &str) -> (r: bool) {
        false
    }

    fn find_fault(name: &str, member: &JsonValue) -> (r: Option<String>) {
        if same(name, "id") {
            find_text_fault(name, member)
        } else {
            find_path_fault(name, member)
        }
    }
}

/// A document describes no project exactly where it has not the shape of one.
pub proof fn law_project_form(value: JsonView)
    ensures
        project_of(value) is None <==> !has_shape::<ProjectForm>(value),
{
    let names = ProjectForm::names();
    lemma_project_form_names();
    assert(names[0] == "id"@ && names[1] == "worktree"@);
    if let Some(object) = stated(value, names, 2) {
        if project_of(value) is Some {
            assert forall|k: int| 0 <= k < names.len() implies member_fits::<ProjectForm>(
                object,
                #[trigger] names[k],
            ) by {
                assert(k == 0 || k == 1);
            }
        }
    }
}

proof fn lemma_permission_form_names()
    ensures
        "id"@ != "sessionID"@,
        "id"@ != "permission"@,
        "id"@ != "patterns"@,
        "id"@ != "always"@,
        "sessionID"@ != "permission"@,
        "sessionID"@ != "patterns"@,
        "sessionID"@ != "always"@,
        "permission"@ != "patterns"@,
        "permission"@ != "always"@,
        "patterns"@ != "always"@,
{
    reveal_strlit("id");
    reveal_strlit("sessionID");
    reveal_strlit("permission");
    reveal_strlit("patterns");
    reveal_strlit("always");
    assert("id"@.len() == 2 && "sessionID"@.len() == 9 && "permission"@.len() == 10
        && "patterns"@.len() == 8 && "always"@.len() == 6);
}

/// A permission that is asked for.
pub struct PermissionForm;

impl Shape for PermissionForm {
    open spec fn title() -> Seq<char> {
        "struct OpenCodePermissionRequestWire"@
    }

    open spec fn names() -> Seq<Seq<char>> {
        seq!["id"@, "sessionID"@, "permission"@, "patterns"@, "always"@]
    }

    open spec fn needed() -> nat {
        3
    }

    open spec fn may_lack(name: Seq<char>) -> bool {
        name == "patterns"@ || name == "always"@
    }

    open spec fn fault(name: Seq<char>, member: JsonView) -> Option<Seq<char>> {
        if name == "patterns"@ || name == "always"@ {
            text_list_fault(name, member)
        } else {
            text_fault(name, member)
        }
    }

    proof fn names_are_sound() {
        lemma_permission_form_names();
    }

    fn expected() -> (r: &'static str) {
        "struct OpenCodePermissionRequestWire"
    }

    fn member_names() -> (r: Vec<&'static str>) {
        let r: Vec<&'static str> = vec!["id", "sessionID", "permission", "patterns", "always"];
        assert(names_of(r@) =~= Self::names());
        r
    }

    fn needed_count() -> (r: usize) {
        3
    }

    fn can_lack(name: &str) -> (r: bool) {
        same(name, "patterns") || same(name, "always")
    }

    fn find_fault(name: &str, member: &JsonValue) -> (r: Option<String>) {
        if same(name, "patterns") || same(name, "always") {
            find_text_list_fault(name, member)
        } else {
            find_text_fault(name, member)
        }
    }
}

/// A document describes no permission exactly where it has not the shape of one.
pub proof fn law_permission_form(value: JsonView)
    ensures
        permission_of(value) is None <==> !has_shape::<PermissionForm>(value),
{
    let names = PermissionForm::names();
    lemma_permission_form_names();
    assert(names[0] == "id"@ && names[1] == "sessionID"@ && names[2] == "permission"@
        && names[3] == "patterns"@ && names[4] == "always"@);
    if let Some(object) = stated(value, names, 3) {
        lemma_text_list_read(object, "patterns"@);
        lemma_text_list_read(object, "always"@);
        if permission_of(value) is Some {
            assert forall|k: int| 0 <= k < names.len() implies member_fits::<PermissionForm>(
                object,
                #[trigger] names[k],
            ) by {
                assert(k == 0 || k == 1 || k == 2 || k == 3 || k == 4);
            }
        }
    }
}

proof fn lemma_choice_form_names()
    ensures
        "label"@ != "description"@,
{
    reveal_strlit("label");
    reveal_strlit("description");
    assert("label"@.len() == 5 && "description"@.len() == 11);
}

/// An answer that a question offers.
pub struct ChoiceForm;

impl Shape for ChoiceForm {
    open spec fn title() -> Seq<char> {
        "struct OpenCodeQuestionOptionWire"@
    }

    open spec fn names() -> Seq<Seq<char>> {
        seq!["label"@, "description"@]
    }

    open spec fn needed() -> nat {
        1
    }

    open spec fn may_lack(name: Seq<char>) -> bool {
        name == "description"@
    }

    open spec fn fault(name: Seq<char>, member: JsonView) -> Option<Seq<char>> {
        text_fault(name, member)
    }

    proof fn names_are_sound() {
        lemma_choice_form_names();
    }

    fn expected() -> (r: &'static str) {
        "struct OpenCodeQuestionOptionWire"
    }

    fn member_names() -> (r: Vec<&'static str>) {
        let r: Vec<&'static str> = vec!["label", "description"];
        assert(names_of(r@) =~= Self::names());
        r
    }

    fn needed_count() -> (r: usize) {
        1
    }

    fn can_lack(name: &str) -> (r: bool) {
        same(name, "description")
    }

    fn find_fault(name: &str, member: &JsonValue) -> (r: Option<String>) {
        find_text_fault(name, member)
    }
}

/// A document describes no offered answer exactly where it has not the shape of one.
pub proof fn law_choice_form(value: JsonView)
    ensures
        choice_of(value) is None <==> !has_shape::<ChoiceForm>(value),
{
    let names = ChoiceForm::names();
    lemma_choice_form_names();
    assert(names[0] == "label"@ && names[1] == "description"@);
    if let Some(object) = stated(value, names, 1) {
        if choice_of(value) is Some {
            assert forall|k: int| 0 <= k < names.len() implies member_fits::<ChoiceForm>(
                object,
                #[trigger] names[k],
            ) by {
                assert(k == 0 || k == 1);
            }
        }
    }
}

proof fn lemma_question_form_names()
    ensures
        "header"@ != "question"@,
        "header"@ != "options"@,
        "header"@ != "multiple"@,
        "header"@ != "custom"@,
        "question"@ != "options"@,
        "question"@ != "multiple"@,
        "question"@ != "custom"@,
        "options"@ != "multiple"@,
        "options"@ != "custom"@,
        "multiple"@ != "custom"@,
{
    reveal_strlit("header");
    reveal_strlit("question");
    reveal_strlit("options");
    reveal_strlit("multiple");
    reveal_strlit("custom");
    assert("header"@.len() == 6 && "question"@.len() == 8 && "options"@.len() == 7
        && "multiple"@.len() == 8 && "custom"@.len() == 6);
    assert("header"@[0] == 'h');
    assert("custom"@[0] == 'c');
    assert("question"@[0] == 'q');
    assert("multiple"@[0] == 'm');
}

/// A question.
pub struct QuestionForm;

impl Shape for QuestionForm {
    open spec fn title() -> Seq<char> {
        "struct OpenCodeQuestionInfoWire"@
    }

    open spec fn names() -> Seq<Seq<char>> {
        seq!["header"@, "question"@, "options"@, "multiple"@, "custom"@]
    }

    open spec fn needed() -> nat {
        0
    }

    open spec fn may_lack(name: Seq<char>) -> bool {
        true
    }

    open spec fn fault(name: Seq<char>, member: JsonView) -> Option<Seq<char>> {
        if name == "options"@ {
            part_list_fault::<ChoiceForm>(name, member)
        } else if name == "header"@ || name == "question"@ {
            text_fault(name, member)
        } else {
            flag_fault(name, member)
        }
    }

    proof fn names_are_sound() {
        lemma_question_form_names();
    }

    fn expected() -> (r: &'static str) {
        "struct OpenCodeQuestionInfoWire"
    }

    fn member_names() -> (r: Vec<&'static str>) {
        let r: Vec<&'static str> = vec!["header", "question", "options", "multiple", "custom"];
        assert(names_of(r@) =~= Self::names());
        r
    }

    fn needed_count() -> (r: usize) {
        0
    }

    fn can_lack(_name: &str) -> (r: bool) {
        true
    }

    fn find_fault(name: &str, member: &JsonValue) -> (r: Option<String>) {
        if same(name, "options") {
            find_part_list_fault::<ChoiceForm>(name, member)
        } else if same(name, "header") || same(name, "question") {
            find_text_fault(name, member)
        } else {
            find_flag_fault(name, member)
        }
    }
}

/// A document describes no question exactly where it has not the shape of one.
pub proof fn law_question_form(value: JsonView)
    ensures
        question_of(value) is None <==> !has_shape::<QuestionForm>(value),
{
    let names = QuestionForm::names();
    lemma_question_form_names();
    assert(names[0] == "header"@ && names[1] == "question"@ && names[2] == "options"@
        && names[3] == "multiple"@ && names[4] == "custom"@);
    if let Some(object) = stated(value, names, 0) {
        lemma_list_read::<OpenCodeQuestionOption>(object, "options"@);
        if question_of(value) is Some {
            assert forall|k: int| 0 <= k < names.len() implies member_fits::<QuestionForm>(
                object,
                #[trigger] names[k],
            ) by {
                assert(k == 0 || k == 1 || k == 2 || k == 3 || k == 4);
            }
        }
    }
}

proof fn lemma_pending_question_form_names()
    ensures
        "id"@ != "sessionID"@,
        "id"@ != "questions"@,
        "sessionID"@ != "questions"@,
{
    reveal_strlit("id");
    reveal_strlit("sessionID");
    reveal_strlit("questions");
    assert("id"@.len() == 2 && "sessionID"@.len() == 9 && "questions"@.len() == 9);
    assert("sessionID"@[0] == 's');
    assert("questions"@[0] == 'q');
}

/// The questions that are asked at once.
pub struct PendingQuestionForm;

impl Shape for PendingQuestionForm {
    open spec fn title() -> Seq<char> {
        "struct OpenCodeQuestionRequestWire"@
    }

    open spec fn names() -> Seq<Seq<char>> {
        seq!["id"@, "sessionID"@, "questions"@]
    }

    open spec fn needed() -> nat {
        2
    }

    open spec fn may_lack(name: Seq<char>) -> bool {
        name == "questions"@
    }

    open spec fn fault(name: Seq<char>, member: JsonView) -> Option<Seq<char>> {
        if name == "questions"@ {
            part_list_fault::<QuestionForm>(name, member)
        } else {
            text_fault(name, member)
        }
    }

    proof fn names_are_sound() {
        lemma_pending_question_form_names();
    }

    fn expected() -> (r: &'static str) {
        "struct OpenCodeQuestionRequestWire"
    }

    fn member_names() -> (r: Vec<&'static str>) {
        let r: Vec<&'static str> = vec!["id", "sessionID", "questions"];
        assert(names_of(r@) =~= Self::names());
        r
    }

    fn needed_count() -> (r: usize) {
        2
    }

    fn can_lack(name: &str) -> (r: bool) {
        same(name, "questions")
    }

    fn find_fault(name: &str, member: &JsonValue) -> (r: Option<String>) {
        if same(name, "questions") {
            find_part_list_fault::<QuestionForm>(name, member)
        } else {
            find_text_fault(name, member)
        }
    }
}

/// A document describes no list of questions exactly where it has not the shape of one.
pub proof fn law_pending_question_form(value: JsonView)
    ensures
        pending_question_of(value) is None <==> !has_shape::<PendingQuestionForm>(value),
{
    let names = PendingQuestionForm::names();
    lemma_pending_question_form_names();
    assert(names[0] == "id"@ && names[1] == "sessionID"@ && names[2] == "questions"@);
    if let Some(object) = stated(value, names, 2) {
        lemma_list_read::<OpenCodeQuestionInfo>(object, "questions"@);
        if pending_question_of(value) is Some {
            assert forall|k: int| 0 <= k < names.len() implies member_fits::<PendingQuestionForm>(
                object,
                #[trigger] names[k],
            ) by {
                assert(k == 0 || k == 1 || k == 2);
            }
        }
    }
}

/// The times of a session.
pub struct SessionTimeForm;

impl Shape for SessionTimeForm {
    open spec fn title() -> Seq<char> {
        "struct OpenCodeSessionTimeWire"@
    }

    open spec fn names() -> Seq<Seq<char>> {
        seq!["updated"@]
    }

    open spec fn needed() -> nat {
        1
    }

    open spec fn may_lack(name: Seq<char>) -> bool {
        true
    }

    open spec fn fault(name: Seq<char>, member: JsonView) -> Option<Seq<char>> {
        None
    }

    proof fn names_are_sound() {
    }

    fn expected() -> (r: &'static str) {
        "struct OpenCodeSessionTimeWire"
    }

    fn member_names() -> (r: Vec<&'static str>) {
        let r: Vec<&'static str> = vec!["updated"];
        assert(names_of(r@) =~= Self::names());
        r
    }

    fn needed_count() -> (r: usize) {
        1
    }

    fn can_lack(_name: &str) -> (r: bool) {
        true
    }

    fn find_fault(_name: &str, _member: &JsonValue) -> (r: Option<String>) {
        None
    }
}

proof fn lemma_session_form_names()
    ensures
        "id"@ != "title"@,
        "id"@ != "slug"@,
        "id"@ != "projectID"@,
        "id"@ != "directory"@,
        "id"@ != "time"@,
        "id"@ != "parentID"@,
        "title"@ != "slug"@,
        "title"@ != "projectID"@,
        "title"@ != "directory"@,
        "title"@ != "time"@,
        "title"@ != "parentID"@,
        "slug"@ != "projectID"@,
        "slug"@ != "directory"@,
        "slug"@ != "time"@,
        "slug"@ != "parentID"@,
        "projectID"@ != "directory"@,
        "projectID"@ != "time"@,
        "projectID"@ != "parentID"@,
        "directory"@ != "time"@,
        "directory"@ != "parentID"@,
        "time"@ != "parentID"@,
{
    reveal_strlit("id");
    reveal_strlit("title");
    reveal_strlit("slug");
    reveal_strlit("projectID");
    reveal_strlit("directory");
    reveal_strlit("time");
    reveal_strlit("parentID");
    assert("id"@.len() == 2 && "title"@.len() == 5 && "slug"@.len() == 4
        && "projectID"@.len() == 9 && "directory"@.len() == 9 && "time"@.len() == 4
        && "parentID"@.len() == 8);
    assert("slug"@[0] == 's');
    assert("time"@[0] == 't');
    assert("projectID"@[0] == 'p');
    assert("directory"@[0] == 'd');
}

/// A session.
pub struct SessionForm;

impl Shape for SessionForm {
    open spec fn title() -> Seq<char> {
        "struct OpenCodeSessionWire"@
    }

    open spec fn names() -> Seq<Seq<char>> {
        seq!["id"@, "title"@, "slug"@, "projectID"@, "directory"@, "time"@, "parentID"@]
    }

    open spec fn needed() -> nat {
        6
    }

    open spec fn may_lack(name: Seq<char>) -> bool {
        name != "id"@
    }

    open spec fn fault(name: Seq<char>, member: JsonView) -> Option<Seq<char>> {
        if name == "id"@ {
            text_fault(name, member)
        } else if name == "directory"@ {
            optional_path_fault(name, member)
        } else if name == "time"@ {
            optional_part_fault::<SessionTimeForm>(member)
        } else {
            optional_text_fault(name, member)
        }
    }

    proof fn names_are_sound() {
        lemma_session_form_names();
    }

    fn expected() -> (r: &'static str) {
        "struct OpenCodeSessionWire"
    }

    fn member_names() -> (r: Vec<&'static str>) {
        let r: Vec<&'static str> = vec![
            "id",
            "title",
            "slug",
            "projectID",
            "directory",
            "time",
            "parentID",
        ];
        assert(names_of(r@) =~= Self::names());
        r
    }

    fn needed_count() -> (r: usize) {
        6
    }

    fn can_lack(name: &str) -> (r: bool) {
        !same(name, "id")
    }

    fn find_fault(name: &str, member: &JsonValue) -> (r: Option<String>) {
        if same(name, "id") {
            find_text_fault(name, member)
        } else if same(name, "directory") {
            find_optional_path_fault(name, member)
        } else if same(name, "time") {
            find_optional_part_fault::<SessionTimeForm>(member)
        } else {
            find_optional_text_fault(name, member)
        }
    }
}

/// A document describes no session exactly where it has not the shape of one.
pub proof fn law_session_form(value: JsonView)
    ensures
        session_of(value) is None <==> !has_shape::<SessionForm>(value),
{
    let names = SessionForm::names();
    lemma_session_form_names();
    assert(names[0] == "id"@ && names[1] == "title"@ && names[2] == "slug"@
        && names[3] == "projectID"@ && names[4] == "directory"@ && names[5] == "time"@
        && names[6] == "parentID"@);
    if let Some(object) = stated(value, names, 6) {
        lemma_time_read(object);
        if session_of(value) is Some {
            assert forall|k: int| 0 <= k < names.len() implies member_fits::<SessionForm>(
                object,
                #[trigger] names[k],
            ) by {
                assert(k == 0 || k == 1 || k == 2 || k == 3 || k == 4 || k == 5 || k == 6);
            }
        }
    }
}

proof fn lemma_message_info_form_names()
    ensures
        "role"@ != "error"@,
        "role"@ != "finish"@,
        "error"@ != "finish"@,
{
    reveal_strlit("role");
    reveal_strlit("error");
    reveal_strlit("finish");
    assert("role"@.len() == 4 && "error"@.len() == 5 && "finish"@.len() == 6);
}

/// What is known of a message beside its parts.
pub struct MessageInfoForm;

impl Shape for MessageInfoForm {
    open spec fn title() -> Seq<char> {
        "struct OpenCodeMessageInfoWire"@
    }

    open spec fn names() -> Seq<Seq<char>> {
        seq!["role"@, "error"@, "finish"@]
    }

    open spec fn needed() -> nat {
        3
    }

    open spec fn may_lack(name: Seq<char>) -> bool {
        name != "role"@
    }

    open spec fn fault(name: Seq<char>, member: JsonView) -> Option<Seq<char>> {
        if name == "role"@ {
            text_fault(name, member)
        } else {
            None
        }
    }

    proof fn names_are_sound() {
        lemma_message_info_form_names();
    }

    fn expected() -> (r: &'static str) {
        "struct OpenCodeMessageInfoWire"
    }

    fn member_names() -> (r: Vec<&'static str>) {
        let r: Vec<&'static str> = vec!["role", "error", "finish"];
        assert(names_of(r@) =~= Self::names());
        r
    }

    fn needed_count() -> (r: usize) {
        3
    }

    fn can_lack(name: &str) -> (r: bool) {
        !same(name, "role")
    }

    fn find_fault(name: &str, member: &JsonValue) -> (r: Option<String>) {
        if same(name, "role") {
            find_text_fault(name, member)
        } else {
            None
        }
    }
}

proof fn lemma_message_form_names()
    ensures
        "info"@ != "parts"@,
{
    reveal_strlit("info");
    reveal_strlit("parts");
    assert("info"@.len() == 4 && "parts"@.len() == 5);
}

/// A message of a session.
pub struct MessageForm;

impl Shape for MessageForm {
    open spec fn title() -> Seq<char> {
        "struct OpenCodeMessageWire"@
    }

    open spec fn names() -> Seq<Seq<char>> {
        seq!["info"@, "parts"@]
    }

    open spec fn needed() -> nat {
        1
    }

    open spec fn may_lack(name: Seq<char>) -> bool {
        name == "parts"@
    }

    open spec fn fault(name: Seq<char>, member: JsonView) -> Option<Seq<char>> {
        if name == "info"@ {
            shape_fault::<MessageInfoForm>(member)
        } else {
            list_fault(name, member)
        }
    }

    proof fn names_are_sound() {
        lemma_message_form_names();
    }

    fn expected() -> (r: &'static str) {
        "struct OpenCodeMessageWire"
    }

    fn member_names() -> (r: Vec<&'static str>) {
        let r: Vec<&'static str> = vec!["info", "parts"];
        assert(names_of(r@) =~= Self::names());
        r
    }

    fn needed_count() -> (r: usize) {
        1
    }

    fn can_lack(name: &str) -> (r: bool) {
        same(name, "parts")
    }

    fn find_fault(name: &str, member: &JsonValue) -> (r: Option<String>) {
        if same(name, "info") {
            find_shape_fault::<MessageInfoForm>(member)
        } else {
            find_list_fault(name, member)
        }
    }
}

/// A document describes no message exactly where it has not the shape of one.
pub proof fn law_message_form(value: JsonView)
    ensures
        message_of(value) is None <==> !has_shape::<MessageForm>(value),
{
    let names = MessageForm::names();
    lemma_message_form_names();
    assert(names[0] == "info"@ && names[1] == "parts"@);
    if let Some(object) = stated(value, names, 1) {
        lemma_info_read(object);
        if message_of(value) is Some {
            assert forall|k: int| 0 <= k < names.len() implies member_fits::<MessageForm>(
                object,
                #[trigger] names[k],
            ) by {
                assert(k == 0 || k == 1);
            }
        }
    }
}

proof fn lemma_text_list_read(object: JsonView, name: Seq<char>)
    ensures
        default_text_list(object, name) is None <==> (object.get(name) matches Some(member)
            && text_list_fault(name, member) is Some),
{
    if let Some(JsonView::Array(items)) = object.get(name) {
        lemma_texts_read(name, items);
    }
}

/// Documents write no list exactly where one of them has not the shape.
pub proof fn lemma_all_read<T: Decoded>(items: Seq<JsonView>)
    ensures
        decoded_all::<T>(items) is None <==> parts_fault::<T::Form>(items, 0) is Some,
    decreases items.len(),
{
    lemma_parts_fault::<T::Form>(items, 0);
    if items.len() > 0 {
        let before = items.drop_last();
        lemma_all_read::<T>(before);
        lemma_parts_fault::<T::Form>(before, 0);
        T::form_is_right(items.last());
        assert(forall|j: int| 0 <= j < before.len() ==> before[j] == #[trigger] items[j]);
        if decoded_all::<T>(items) is Some {
            assert forall|j: int| 0 <= j < items.len() implies has_shape::<T::Form>(
                #[trigger] items[j],
            ) by {
                if j < before.len() {
                    assert(has_shape::<T::Form>(before[j]));
                }
            }
        } else if parts_fault::<T::Form>(items, 0) is None {
            assert forall|j: int| 0 <= j < before.len() implies has_shape::<T::Form>(
                #[trigger] before[j],
            ) by {
                assert(has_shape::<T::Form>(items[j]));
            }
            assert(has_shape::<T::Form>(items[items.len() - 1]));
        }
    }
}

proof fn lemma_list_read<T: Decoded>(object: JsonView, name: Seq<char>)
    ensures
        decoded_list::<T>(object, name) is None <==> (object.get(name) matches Some(member)
            && part_list_fault::<T::Form>(name, member) is Some),
{
    if let Some(JsonView::Array(items)) = object.get(name) {
        lemma_all_read::<T>(items);
    }
}

proof fn lemma_time_read(object: JsonView)
    ensures
        session_time(object) is None <==> (object.get("time"@) matches Some(member)
            && optional_part_fault::<SessionTimeForm>(member) is Some),
{
    let names = SessionTimeForm::names();
    assert(names[0] == "updated"@);
    if let Some(time) = object.get("time"@) {
        law_faults::<SessionTimeForm>(time);
    }
}

proof fn lemma_info_read(object: JsonView)
    ensures
        object.get("info"@) matches Some(info) ==> (shape_fault::<MessageInfoForm>(info) is None
            <==> (stated(info, seq!["role"@, "error"@, "finish"@], 3) matches Some(info)
            && info.get_text("role"@) is Some)),
{
    let names = MessageInfoForm::names();
    lemma_message_info_form_names();
    assert(names[0] == "role"@ && names[1] == "error"@ && names[2] == "finish"@);
    if let Some(info) = object.get("info"@) {
        law_faults::<MessageInfoForm>(info);
        if let Some(members) = stated(info, names, 3) {
            if members.get_text("role"@) is Some {
                assert forall|k: int| 0 <= k < names.len() implies member_fits::<MessageInfoForm>(
                    members,
                    #[trigger] names[k],
                ) by {
                    assert(k == 0 || k == 1 || k == 2);
                }
            }
        }
    }
}

} // verus!
