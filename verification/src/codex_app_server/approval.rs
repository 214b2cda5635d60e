//! Requests of a Codex app server that wait for the user: approvals and questions.
use crate::codex_app_server::fields::{
    bool_field, bool_field_of, has_any_field, has_array_field, key_views, lemma_get_smaller,
    lemma_lookup_index, normalize_identifier, normalized_identifier, string_field, string_field_of,
    value_has_any_field, value_has_array_field,
};
use crate::json::{
    JsonValue, JsonView, json_parse, json_views, lemma_longest_entry, lemma_longest_item,
    longest_in_items, longest_text,
};
use crate::text::{
    blank, concat2, contains_same, decimal, decimal_of, is_blank, join, joined, lemma_trim_len,
    same, trim, trimmed, views,
};
use vstd::prelude::*;

verus! {

/// What the user can answer to a request for approval.
#[derive(Debug, Clone, Copy, PartialEq, Eq, Hash, Structural)]
pub enum CodexApprovalDecision {
    Accept,
    AcceptForSession,
    AcceptForPrefix,
    Decline,
    Cancel,
}

/// The text on a decision's button.
pub open spec fn decision_label(decision: CodexApprovalDecision) -> Seq<char> {
    match decision {
        CodexApprovalDecision::Accept => "Accept"@,
        CodexApprovalDecision::AcceptForSession => "Accept for session"@,
        CodexApprovalDecision::AcceptForPrefix => "Accept for prefix"@,
        CodexApprovalDecision::Decline => "Decline"@,
        CodexApprovalDecision::Cancel => "Cancel"@,
    }
}

/// The name of a decision in a reply.
pub open spec fn decision_wire_name(decision: CodexApprovalDecision) -> Seq<char> {
    match decision {
        CodexApprovalDecision::Accept => "accept"@,
        CodexApprovalDecision::AcceptForSession => "acceptForSession"@,
        CodexApprovalDecision::AcceptForPrefix => "acceptForPrefix"@,
        CodexApprovalDecision::Decline => "decline"@,
        CodexApprovalDecision::Cancel => "cancel"@,
    }
}

/// The decision that a name in a request stands for; punctuation and case do not matter.
pub open spec fn decision_of_name(name: Seq<char>) -> Option<CodexApprovalDecision> {
    let id = normalized_identifier(name);
    if id == "accept"@ || id == "approve"@ || id == "allow"@ || id == "yes"@ {
        Some(CodexApprovalDecision::Accept)
    } else if id == "acceptforsession"@ || id == "approveforsession"@ || id == "allowforsession"@
        || id == "applynetworkpolicyamendment"@ {
        Some(CodexApprovalDecision::AcceptForSession)
    } else if id == "acceptforprefix"@ || id == "approveforprefix"@ || id == "allowforprefix"@ || id
        == "acceptwithexecpolicyamendment"@ {
        Some(CodexApprovalDecision::AcceptForPrefix)
    } else if id == "decline"@ || id == "deny"@ || id == "reject"@ || id == "no"@ {
        Some(CodexApprovalDecision::Decline)
    } else if id == "cancel"@ || id == "abort"@ {
        Some(CodexApprovalDecision::Cancel)
    } else {
        None
    }
}

impl CodexApprovalDecision {
    /// The text on the decision's button.
    pub fn label(self) -> (r: &'static str)
        ensures
            r@ == decision_label(self),
    {
        match self {
            CodexApprovalDecision::Accept => "Accept",
            CodexApprovalDecision::AcceptForSession => "Accept for session",
            CodexApprovalDecision::AcceptForPrefix => "Accept for prefix",
            CodexApprovalDecision::Decline => "Decline",
            CodexApprovalDecision::Cancel => "Cancel",
        }
    }

    /// The decision that a name in a request stands for.
    pub fn from_wire(value: &str) -> (r: Option<CodexApprovalDecision>)
        ensures
            r == decision_of_name(value@),
    {
        let id = normalize_identifier(value);
        let id = id.as_str();
        if same(id, "accept") || same(id, "approve") || same(id, "allow") || same(id, "yes") {
            Some(CodexApprovalDecision::Accept)
        } else if same(id, "acceptforsession") || same(id, "approveforsession") || same(
            id,
            "allowforsession",
        ) || same(id, "applynetworkpolicyamendment") {
            Some(CodexApprovalDecision::AcceptForSession)
        } else if same(id, "acceptforprefix") || same(id, "approveforprefix") || same(
            id,
            "allowforprefix",
        ) || same(id, "acceptwithexecpolicyamendment") {
            Some(CodexApprovalDecision::AcceptForPrefix)
        } else if same(id, "decline") || same(id, "deny") || same(id, "reject") || same(id, "no") {
            Some(CodexApprovalDecision::Decline)
        } else if same(id, "cancel") || same(id, "abort") {
            Some(CodexApprovalDecision::Cancel)
        } else {
            None
        }
    }

    /// The name of the decision in a reply.
    pub fn wire_value(self) -> (r: &'static str)
        ensures
            r@ == decision_wire_name(self),
    {
        match self {
            CodexApprovalDecision::Accept => "accept",
            CodexApprovalDecision::AcceptForSession => "acceptForSession",
            CodexApprovalDecision::AcceptForPrefix => "acceptForPrefix",
            CodexApprovalDecision::Decline => "decline",
            CodexApprovalDecision::Cancel => "cancel",
        }
    }
}

/// The identifier of a request.
#[derive(Debug, PartialEq, Eq)]
pub enum JsonRpcId {
    Number(u64),
    Text(String),
}

/// The model of a `JsonRpcId`.
pub enum IdView {
    Number(u64),
    Text(Seq<char>),
}

impl JsonRpcId {
    pub open spec fn view(&self) -> IdView {
        match self {
            JsonRpcId::Number(n) => IdView::Number(*n),
            JsonRpcId::Text(s) => IdView::Text(s@),
        }
    }
}

impl Clone for JsonRpcId {
    fn clone(&self) -> (r: Self)
        ensures
            r@ == self@,
    {
        match self {
            JsonRpcId::Number(n) => JsonRpcId::Number(*n),
            JsonRpcId::Text(s) => JsonRpcId::Text(s.clone()),
        }
    }
}

/// An answer that a question offers.
#[derive(Debug, PartialEq, Eq)]
pub struct CodexUserInputQuestionOption {
    pub label: String,
    pub description: String,
}

/// The model of a `CodexUserInputQuestionOption`.
pub struct OptionView {
    pub label: Seq<char>,
    pub description: Seq<char>,
}

impl CodexUserInputQuestionOption {
    pub open spec fn view(&self) -> OptionView {
        OptionView { label: self.label@, description: self.description@ }
    }
}

/// The models of a list of answers.
pub open spec fn option_views(options: Seq<CodexUserInputQuestionOption>) -> Seq<OptionView> {
    options.map_values(|o: CodexUserInputQuestionOption| o@)
}

/// A question to the user. A question that names no identifier is answered by its position.
#[derive(Debug, PartialEq, Eq)]
pub struct CodexUserInputQuestion {
    pub id: String,
    pub header: String,
    pub question: String,
    pub is_other: bool,
    pub is_secret: bool,
    pub options: Vec<CodexUserInputQuestionOption>,
    pub answer_index: Option<usize>,
}

/// The model of a `CodexUserInputQuestion`.
pub struct QuestionView {
    pub id: Seq<char>,
    pub header: Seq<char>,
    pub question: Seq<char>,
    pub is_other: bool,
    pub is_secret: bool,
    pub options: Seq<OptionView>,
    pub answer_index: Option<nat>,
}

impl CodexUserInputQuestion {
    pub open spec fn view(&self) -> QuestionView {
        QuestionView {
            id: self.id@,
            header: self.header@,
            question: self.question@,
            is_other: self.is_other,
            is_secret: self.is_secret,
            options: option_views(self.options@),
            answer_index: match self.answer_index {
                Some(i) => Some(i as nat),
                None => None,
            },
        }
    }
}

/// The models of a list of questions.
pub open spec fn question_views(questions: Seq<CodexUserInputQuestion>) -> Seq<QuestionView> {
    questions.map_values(|q: CodexUserInputQuestion| q@)
}

/// The document that a text embeds: one that starts, blanks aside, as a JSON object or array.
pub open spec fn embedded_document(text: Seq<char>) -> Option<JsonView> {
    let t = trim(text);
    if t.len() > 0 && (t[0] == '{' || t[0] == '[') {
        match json_parse(t) {
            Ok(value) => if longest_text(value) < t.len() {
                Some(value)
            } else {
                None
            },
            Err(_) => None,
        }
    } else {
        None
    }
}

/// The document that a text embeds.
pub fn parse_embedded_json(value: &str) -> (r: Option<JsonValue>)
    ensures
        match r {
            Some(v) => embedded_document(value@) == Some(v@),
            None => embedded_document(value@) is None,
        },
{
    let t = trimmed(value);
    if t.unicode_len() == 0 {
        return None;
    }
    let first: char = t.get_char(0);
    if !(first == '{' || first == '[') {
        return None;
    }
    match JsonValue::parse(t) {
        Ok(v) => Some(v),
        Err(_) => None,
    }
}

/// A member is no larger, in its longest string, than the object.
pub proof fn lemma_get_longest(value: JsonView, key: Seq<char>)
    ensures
        value.get(key) matches Some(child) ==> longest_text(child) <= longest_text(value),
{
    if value is Object {
        lemma_lookup_index(value->Object_0, key);
        if value.get(key) is Some {
            let i = choose|i: int|
                0 <= i < value->Object_0.len() && value.get(key) == Some(
                    #[trigger] value->Object_0[i].1,
                );
            lemma_longest_entry(value->Object_0, i);
        }
    }
}

/// The keys under which a question holds its answers.
pub open spec fn option_keys() -> Seq<Seq<char>> {
    seq!["options"@, "choices"@, "buttons"@, "answers"@]
}

/// The answer that an entry of a question offers.
pub open spec fn option_of(value: JsonView) -> Option<OptionView> {
    match value {
        JsonView::Text(label) => if is_blank(label) {
            None
        } else {
            Some(OptionView { label, description: Seq::empty() })
        },
        JsonView::Number(n) => Some(OptionView { label: n.text, description: Seq::empty() }),
        JsonView::Object(_) => match string_field_of(
            value,
            seq!["label"@, "title"@, "text"@, "value"@, "name"@, "id"@],
        ) {
            Some(label) => Some(
                OptionView {
                    label,
                    description: match string_field_of(
                        value,
                        seq!["description"@, "subtitle"@, "detail"@, "details"@],
                    ) {
                        Some(description) => description,
                        None => Seq::empty(),
                    },
                },
            ),
            None => None,
        },
        _ => None,
    }
}

/// The answers that the entries offer.
pub open spec fn options_of_items(items: Seq<JsonView>) -> Seq<OptionView>
    decreases items.len(),
{
    if items.len() == 0 {
        Seq::empty()
    } else {
        let before = options_of_items(items.drop_last());
        match option_of(items.last()) {
            Some(option) => before.push(option),
            None => before,
        }
    }
}

/// The answers that a question offers under the first `n` of the keys.
pub open spec fn options_under(value: JsonView, n: nat) -> Seq<OptionView>
    decreases n,
{
    if n == 0 || n > option_keys().len() {
        Seq::empty()
    } else {
        let before = options_under(value, (n - 1) as nat);
        match value.get_items(option_keys()[n - 1]) {
            Some(items) => before + options_of_items(items),
            None => before,
        }
    }
}

/// The question that an entry states, as the question at position `index`.
pub open spec fn question_of(value: JsonView, index: nat) -> Option<QuestionView> {
    let has_options = has_array_field(value, option_keys());
    let has_flags = has_any_field(
        value,
        seq!["isOther"@, "is_other"@, "isSecret"@, "is_secret"@],
    );
    let stated = string_field_of(value, seq!["question"@, "prompt"@]);
    let found = match stated {
        Some(question) => Some(question),
        None => if has_options || has_flags {
            string_field_of(value, seq!["message"@, "body"@, "text"@])
        } else {
            None
        },
    };
    let question = match found {
        Some(question) => question,
        None => Seq::empty(),
    };
    if is_blank(question) && !has_options && !has_flags {
        None
    } else {
        let explicit_id = string_field_of(
            value,
            seq!["id"@, "questionId"@, "question_id"@, "key"@, "name"@],
        );
        Some(
            QuestionView {
                id: match explicit_id {
                    Some(id) => id,
                    None => "question-"@ + decimal(index + 1),
                },
                header: match string_field_of(
                    value,
                    seq!["header"@, "title"@, "label"@, "name"@],
                ) {
                    Some(header) => header,
                    None => Seq::empty(),
                },
                question,
                is_other: bool_field_of(value, seq!["isOther"@, "is_other"@]),
                is_secret: bool_field_of(value, seq!["isSecret"@, "is_secret"@]),
                options: options_under(value, 4),
                answer_index: match explicit_id {
                    Some(_) => None,
                    None => Some(index),
                },
            },
        )
    }
}

/// The keys under which a request nests its questions.
pub open spec fn question_keys() -> Seq<Seq<char>> {
    seq![
        "params"@,
        "input"@,
        "inputItems"@,
        "input_items"@,
        "questions"@,
        "request"@,
        "tool"@,
        "toolCall"@,
        "tool_call"@,
        "item"@,
        "event"@,
        "data"@,
        "payload"@,
        "arguments"@,
        "args"@,
        "content"@,
        "body"@,
    ]
}

/// The questions found so far, followed by those of `value`: its own, those nested in it, and
/// those of a document embedded in a text.
pub open spec fn with_questions(value: JsonView, found: Seq<QuestionView>) -> Seq<QuestionView>
    decreases longest_text(value), value, 18int,
{
    match value {
        JsonView::Array(items) => with_questions_of_items(items, found),
        JsonView::Object(_) => with_questions_under(
            value,
            17,
            match question_of(value, found.len()) {
                Some(question) => found.push(question),
                None => found,
            },
        ),
        JsonView::Text(s) => match embedded_document(s) {
            Some(document) => {
                proof {
                    lemma_trim_len(s);
                }
                with_questions(document, found)
            },
            None => found,
        },
        _ => found,
    }
}

/// The questions found so far, followed by those of the items of a list.
pub open spec fn with_questions_of_items(
    items: Seq<JsonView>,
    found: Seq<QuestionView>,
) -> Seq<QuestionView>
    decreases longest_in_items(items), items, 0int,
{
    if items.len() == 0 {
        found
    } else {
        with_questions(
            items[items.len() - 1],
            with_questions_of_items(items.take(items.len() - 1), found),
        )
    }
}

/// The questions found so far, followed by those under the first `n` of the nesting keys.
pub open spec fn with_questions_under(
    value: JsonView,
    n: nat,
    found: Seq<QuestionView>,
) -> Seq<QuestionView>
    decreases longest_text(value), value, n,
{
    if n == 0 || n > question_keys().len() {
        found
    } else {
        let key = question_keys()[n - 1];
        proof {
            lemma_get_smaller(value, key);
            lemma_get_longest(value, key);
        }
        let before = with_questions_under(value, (n - 1) as nat, found);
        match value.get(key) {
            Some(child) => with_questions(child, before),
            None => before,
        }
    }
}

/// What tells a question from another: its header, its text and the labels of its answers.
pub open spec fn question_key(question: QuestionView) -> Seq<char> {
    question.header + "\u{1e}"@ + question.question + "\u{1e}"@ + join(
        question.options.map_values(|o: OptionView| o.label),
        "\u{1f}"@,
    )
}

/// One of the questions has the given key.
pub open spec fn asks(questions: Seq<QuestionView>, key: Seq<char>) -> bool {
    exists|i: int| 0 <= i < questions.len() && question_key(#[trigger] questions[i]) == key
}

/// The questions without repetitions: of those with the same key, the first.
pub open spec fn distinct_questions(questions: Seq<QuestionView>) -> Seq<QuestionView>
    decreases questions.len(),
{
    if questions.len() == 0 {
        Seq::empty()
    } else {
        let before = distinct_questions(questions.drop_last());
        if asks(before, question_key(questions.last())) {
            before
        } else {
            before.push(questions.last())
        }
    }
}

/// The questions that a request asks.
pub open spec fn questions_of(params: JsonView) -> Seq<QuestionView> {
    distinct_questions(with_questions(params, Seq::empty()))
}

/// The answer that an entry of a question offers.
pub fn user_input_question_option(value: &JsonValue) -> (r: Option<CodexUserInputQuestionOption>)
    ensures
        match r {
            Some(option) => option_of(value@) == Some(option@),
            None => option_of(value@) is None,
        },
{
    broadcast use JsonValue::lemma_object_view;

    match value {
        JsonValue::Text(label) => {
            if blank(label.as_str()) {
                None
            } else {
                Some(
                    CodexUserInputQuestionOption {
                        label: label.clone(),
                        description: String::new(),
                    },
                )
            }
        },
        JsonValue::Object(_) => {
            let label_keys: [&str; 6] = ["label", "title", "text", "value", "name", "id"];
            let detail_keys: [&str; 4] = ["description", "subtitle", "detail", "details"];
            proof {
                assert(key_views(label_keys@) =~= seq![
                    "label"@,
                    "title"@,
                    "text"@,
                    "value"@,
                    "name"@,
                    "id"@,
                ]);
                assert(key_views(detail_keys@) =~= seq![
                    "description"@,
                    "subtitle"@,
                    "detail"@,
                    "details"@,
                ]);
            }
            match string_field(value, &label_keys) {
                Some(label) => {
                    let description = match string_field(value, &detail_keys) {
                        Some(description) => description,
                        None => String::new(),
                    };
                    Some(CodexUserInputQuestionOption { label, description })
                },
                None => None,
            }
        },
        other => match other.as_number() {
            Some(parts) => Some(
                CodexUserInputQuestionOption { label: parts.text, description: String::new() },
            ),
            None => None,
        },
    }
}

/// The answers that a question offers.
pub fn user_input_question_options(value: &JsonValue) -> (r: Vec<CodexUserInputQuestionOption>)
    ensures
        option_views(r@) == options_under(value@, 4),
{
    let keys: [&str; 4] = ["options", "choices", "buttons", "answers"];
    let mut r: Vec<CodexUserInputQuestionOption> = Vec::new();
    let mut k: usize = 0;
    assert(option_views(r@) =~= options_under(value@, 0));
    while k < 4
        invariant
            k <= 4,
            key_views(keys@) =~= option_keys(),
            option_views(r@) == options_under(value@, k as nat),
        decreases 4 - k,
    {
        assert(option_keys()[k as int] == key_views(keys@)[k as int]);
        let ghost before = option_views(r@);
        if let Some(field) = value.get(keys[k]) {
            if let Some(items) = field.as_array() {
                let ghost all = json_views(items@);
                let mut i: usize = 0;
                assert(option_views(r@) =~= before + options_of_items(all.take(0)));
                while i < items.len()
                    invariant
                        i <= items@.len(),
                        all == json_views(items@),
                        option_views(r@) == before + options_of_items(all.take(i as int)),
                    decreases items@.len() - i,
                {
                    let ghost done = option_views(r@);
                    assert(all.take(i as int + 1).drop_last() =~= all.take(i as int));
                    assert(all.take(i as int + 1).last() == items@[i as int]@);
                    if let Some(option) = user_input_question_option(&items[i]) {
                        r.push(option);
                        assert(option_views(r@) =~= done.push(option@));
                    }
                    assert(option_views(r@) =~= before + options_of_items(all.take(i as int + 1)));
                    i = i + 1;
                }
                assert(all.take(i as int) =~= all);
            }
        }
        k = k + 1;
    }
    r
}

/// The question that an entry states.
pub fn user_input_question(value: &JsonValue, fallback_index: usize) -> (r: Option<
    CodexUserInputQuestion,
>)
    ensures
        match r {
            Some(question) => question_of(value@, fallback_index as nat) == Some(question@),
            None => question_of(value@, fallback_index as nat) is None,
        },
{
    let option_names: [&str; 4] = ["options", "choices", "buttons", "answers"];
    let flag_names: [&str; 4] = ["isOther", "is_other", "isSecret", "is_secret"];
    let question_names: [&str; 2] = ["question", "prompt"];
    let text_names: [&str; 3] = ["message", "body", "text"];
    let id_names: [&str; 5] = ["id", "questionId", "question_id", "key", "name"];
    let header_names: [&str; 4] = ["header", "title", "label", "name"];
    let other_names: [&str; 2] = ["isOther", "is_other"];
    let secret_names: [&str; 2] = ["isSecret", "is_secret"];
    proof {
        assert(key_views(option_names@) =~= option_keys());
        assert(key_views(flag_names@) =~= seq![
            "isOther"@,
            "is_other"@,
            "isSecret"@,
            "is_secret"@,
        ]);
        assert(key_views(question_names@) =~= seq!["question"@, "prompt"@]);
        assert(key_views(text_names@) =~= seq!["message"@, "body"@, "text"@]);
        assert(key_views(id_names@) =~= seq![
            "id"@,
            "questionId"@,
            "question_id"@,
            "key"@,
            "name"@,
        ]);
        assert(key_views(header_names@) =~= seq!["header"@, "title"@, "label"@, "name"@]);
        assert(key_views(other_names@) =~= seq!["isOther"@, "is_other"@]);
        assert(key_views(secret_names@) =~= seq!["isSecret"@, "is_secret"@]);
    }
    let has_options = value_has_array_field(value, &option_names);
    let has_flags = value_has_any_field(value, &flag_names);
    let found = match string_field(value, &question_names) {
        Some(question) => Some(question),
        None => {
            if has_options || has_flags {
                string_field(value, &text_names)
            } else {
                None
            }
        },
    };
    let question = match found {
        Some(question) => question,
        None => String::new(),
    };
    if blank(question.as_str()) && !has_options && !has_flags {
        return None;
    }
    let explicit_id = string_field(value, &id_names);
    let answer_index: Option<usize> = if explicit_id.is_some() {
        None
    } else {
        Some(fallback_index)
    };
    let id = match explicit_id {
        Some(id) => id,
        None => concat2("question-", decimal_of(fallback_index as u128 + 1).as_str()),
    };
    let header = match string_field(value, &header_names) {
        Some(header) => header,
        None => String::new(),
    };
    Some(
        CodexUserInputQuestion {
            id,
            header,
            question,
            is_other: bool_field(value, &other_names),
            is_secret: bool_field(value, &secret_names),
            options: user_input_question_options(value),
            answer_index,
        },
    )
}

/// Adds the questions of `value` to those found.
pub fn collect_user_input_questions(
    value: &JsonValue,
    questions: &mut Vec<CodexUserInputQuestion>,
)
    ensures
        question_views(final(questions)@) == with_questions(value@, question_views(old(questions)@)),
    decreases longest_text(value@), value@,
{
    broadcast use {JsonValue::lemma_array_view, JsonValue::lemma_object_view};

    let ghost start = question_views(questions@);
    match value {
        JsonValue::Array(items) => {
            let ghost all = json_views(items@);
            let mut i: usize = 0;
            assert(all.take(0) =~= Seq::empty());
            while i < items.len()
                invariant
                    i <= items@.len(),
                    all == json_views(items@),
                    value@ == JsonView::Array(all),
                    question_views(questions@) == with_questions_of_items(
                        all.take(i as int),
                        start,
                    ),
                decreases items@.len() - i,
            {
                proof {
                    let more = all.take(i as int + 1);
                    assert(more.take(more.len() - 1) =~= all.take(i as int));
                    assert(more[more.len() - 1] == items@[i as int]@);
                    lemma_longest_item(all, i as int);
                    assert(decreases_to!(value@ => value@->Array_0[i as int]));
                }
                collect_user_input_questions(&items[i], questions);
                i = i + 1;
            }
            assert(all.take(i as int) =~= all);
        },
        JsonValue::Object(_) => {
            if let Some(question) = user_input_question(value, questions.len()) {
                questions.push(question);
                assert(question_views(questions@) =~= start.push(question@));
            }
            let ghost base = question_views(questions@);
            let keys: [&str; 17] = [
                "params",
                "input",
                "inputItems",
                "input_items",
                "questions",
                "request",
                "tool",
                "toolCall",
                "tool_call",
                "item",
                "event",
                "data",
                "payload",
                "arguments",
                "args",
                "content",
                "body",
            ];
            let mut i: usize = 0;
            while i < 17
                invariant
                    i <= 17,
                    key_views(keys@) =~= question_keys(),
                    question_views(questions@) == with_questions_under(value@, i as nat, base),
                decreases 17 - i,
            {
                assert(question_keys()[i as int] == key_views(keys@)[i as int]);
                proof {
                    lemma_get_smaller(value@, question_keys()[i as int]);
                    lemma_get_longest(value@, question_keys()[i as int]);
                }
                if let Some(child) = value.get(keys[i]) {
                    collect_user_input_questions(child, questions);
                }
                i = i + 1;
            }
        },
        JsonValue::Text(s) => {
            if let Some(document) = parse_embedded_json(s.as_str()) {
                proof {
                    lemma_trim_len(s@);
                }
                collect_user_input_questions(&document, questions);
            }
        },
        _ => {},
    }
}

/// What tells a question from another.
fn key_of_question(question: &CodexUserInputQuestion) -> (r: String)
    ensures
        r@ == question_key(question@),
{
    let mut labels: Vec<String> = Vec::new();
    let ghost all = question@.options.map_values(|o: OptionView| o.label);
    let mut i: usize = 0;
    while i < question.options.len()
        invariant
            i <= question.options@.len(),
            all == question@.options.map_values(|o: OptionView| o.label),
            views(labels@) == all.take(i as int),
        decreases question.options@.len() - i,
    {
        let ghost done = views(labels@);
        labels.push(question.options[i].label.clone());
        proof {
            assert(views(labels@) =~= done.push(question.options@[i as int].label@));
            assert(all.take(i as int + 1) =~= done.push(all[i as int]));
        }
        i = i + 1;
    }
    assert(all.take(i as int) =~= all);
    let mut key = question.header.clone();
    key.append("\u{1e}");
    key.append(question.question.as_str());
    key.append("\u{1e}");
    key.append(joined(&labels, "\u{1f}").as_str());
    key
}

/// The questions that a request asks.
pub fn user_input_questions(params: &JsonValue) -> (r: Vec<CodexUserInputQuestion>)
    ensures
        question_views(r@) == questions_of(params@),
{
    let mut found: Vec<CodexUserInputQuestion> = Vec::new();
    assert(question_views(found@) =~= Seq::empty());
    collect_user_input_questions(params, &mut found);
    let ghost all = question_views(found@);
    let mut r: Vec<CodexUserInputQuestion> = Vec::new();
    let mut keys: Vec<String> = Vec::new();
    let ghost mut done: int = 0;
    assert(all.skip(0) =~= all);
    assert(question_views(r@) =~= distinct_questions(all.take(0)));
    while found.len() > 0
        invariant
            0 <= done <= all.len(),
            question_views(found@) == all.skip(done),
            question_views(r@) == distinct_questions(all.take(done)),
            keys@.len() == r@.len(),
            forall|i: int| 0 <= i < r@.len() ==> (#[trigger] keys@[i])@ == question_key(r@[i]@),
        decreases found@.len(),
    {
        let ghost rest = question_views(found@);
        let ghost kept = question_views(r@);
        assert(rest.len() == found@.len());
        let question = found.remove(0);
        let key = key_of_question(&question);
        proof {
            assert(rest[0] == question@);
            assert(all[done] == rest[0]);
            assert(question_views(found@) =~= all.skip(done + 1)) by {
                assert(question_views(found@) =~= rest.skip(1));
                assert(rest.skip(1) =~= all.skip(done + 1));
            }
            assert(all.take(done + 1).drop_last() =~= all.take(done));
            assert(all.take(done + 1).last() == question@);
        }
        let repeated = contains_same(&keys, key.as_str());
        proof {
            if repeated {
                let i = choose|i: int| 0 <= i < views(keys@).len() && views(keys@)[i] == key@;
                assert(keys@[i]@ == key@);
                assert(question_key(kept[i]) == key@);
                assert(asks(kept, key@));
            } else {
                assert(!asks(kept, key@)) by {
                    if asks(kept, key@) {
                        let i = choose|i: int|
                            0 <= i < kept.len() && question_key(#[trigger] kept[i]) == key@;
                        assert(keys@[i]@ == key@);
                        assert(views(keys@)[i] == key@);
                    }
                }
            }
        }
        if !repeated {
            r.push(question);
            keys.push(key);
            assert(question_views(r@) =~= kept.push(question@));
        }
        proof {
            done = done + 1;
        }
    }
    proof {
        assert(all.skip(done).len() == 0);
        assert(all.take(done) =~= all);
    }
    r
}

} // verus!
