//! A request for approval, from the server's message to the reply.
use crate::codex_app_server::approval::{
    CodexApprovalDecision, CodexUserInputQuestion, IdView, JsonRpcId, OptionView, QuestionView,
    decision_of_name, decision_wire_name, embedded_document, lemma_get_longest, parse_embedded_json,
    question_views, questions_of, user_input_questions,
};
use crate::codex_app_server::fields::{
    command_field, command_of, key_views, lemma_get_smaller, normalize_identifier,
    normalized_identifier, opt_word, string_field, string_field_of,
};
use crate::json::{
    JsonValue, JsonView, json_views, lemma_longest_item, longest_in_items, longest_text,
    opt_json_view,
};
use crate::text::{
    blank, contains, contains_text, is_blank, lemma_trim_len, lower, lowered, opt_str_view,
    opt_view, same,
};
use vstd::prelude::*;

verus! {

/// The keys under which a request nests the decisions it allows.
pub open spec fn decision_keys() -> Seq<Seq<char>> {
    seq![
        "params"@,
        "request"@,
        "tool"@,
        "toolCall"@,
        "tool_call"@,
        "item"@,
        "event"@,
        "data"@,
        "payload"@,
        "arguments"@,
        "args"@,
        "content"@,
        "body"@,
    ]
}

/// The keys under which a list or record says which decision is meant.
pub open spec fn decision_name_keys() -> Seq<Seq<char>> {
    seq!["decision"@, "action"@, "value"@, "id"@]
}

/// The decisions that a field lists, as they are to be sent back: a record stands for the name it
/// holds, or for itself where it holds none.
pub open spec fn listed_decisions(value: JsonView) -> Seq<JsonView>
    decreases value,
{
    match value {
        JsonView::Array(items) => listed_in_items(items),
        JsonView::Object(_) => match string_field_of(value, decision_name_keys()) {
            Some(name) => seq![JsonView::Text(name)],
            None => seq![value],
        },
        JsonView::Text(s) => if is_blank(s) {
            Seq::empty()
        } else {
            seq![value]
        },
        _ => Seq::empty(),
    }
}

/// The decisions that the items of a list name.
pub open spec fn listed_in_items(items: Seq<JsonView>) -> Seq<JsonView>
    decreases items,
{
    if items.len() == 0 {
        Seq::empty()
    } else {
        listed_in_items(items.take(items.len() - 1)) + listed_decisions(items[items.len() - 1])
    }
}

/// The decisions under one key.
pub open spec fn listed_under(value: JsonView, key: Seq<char>) -> Seq<JsonView> {
    match value.get(key) {
        Some(field) => listed_decisions(field),
        None => Seq::empty(),
    }
}

/// The decisions that a request allows, in the order in which it names them.
pub open spec fn allowed_decisions(value: JsonView) -> Seq<JsonView>
    decreases longest_text(value), value, 14int,
{
    match value {
        JsonView::Array(items) => allowed_in_items(items),
        JsonView::Object(_) => listed_under(value, "availableDecisions"@) + listed_under(
            value,
            "available_decisions"@,
        ) + allowed_under(value, 13),
        JsonView::Text(s) => match embedded_document(s) {
            Some(document) => {
                proof {
                    lemma_trim_len(s);
                }
                allowed_decisions(document)
            },
            None => Seq::empty(),
        },
        _ => Seq::empty(),
    }
}

/// The decisions that the items of a list allow.
pub open spec fn allowed_in_items(items: Seq<JsonView>) -> Seq<JsonView>
    decreases longest_in_items(items), items, 0int,
{
    if items.len() == 0 {
        Seq::empty()
    } else {
        allowed_in_items(items.take(items.len() - 1)) + allowed_decisions(items[items.len() - 1])
    }
}

/// The decisions allowed under the first `n` of the nesting keys.
pub open spec fn allowed_under(value: JsonView, n: nat) -> Seq<JsonView>
    decreases longest_text(value), value, n,
{
    if n == 0 || n > decision_keys().len() {
        Seq::empty()
    } else {
        let key = decision_keys()[n - 1];
        proof {
            lemma_get_smaller(value, key);
            lemma_get_longest(value, key);
        }
        let before = allowed_under(value, (n - 1) as nat);
        match value.get(key) {
            Some(child) => before + allowed_decisions(child),
            None => before,
        }
    }
}

/// The decision that a listed value stands for.
pub open spec fn decision_of_value(value: JsonView) -> Option<CodexApprovalDecision> {
    match value {
        JsonView::Text(name) => decision_of_name(name),
        JsonView::Object(_) => if value.get("acceptWithExecpolicyAmendment"@) is Some {
            Some(CodexApprovalDecision::AcceptForPrefix)
        } else if value.get("applyNetworkPolicyAmendment"@) is Some {
            Some(CodexApprovalDecision::AcceptForSession)
        } else {
            match string_field_of(value, decision_name_keys()) {
                Some(name) => decision_of_name(name),
                None => None,
            }
        },
        _ => None,
    }
}

/// A decision with the value that is sent for it.
pub type WireDecisions = Seq<(CodexApprovalDecision, JsonView)>;

/// One of the pairs is for the decision.
pub open spec fn decides(pairs: WireDecisions, decision: CodexApprovalDecision) -> bool {
    exists|i: int| 0 <= i < pairs.len() && (#[trigger] pairs[i]).0 == decision
}

/// The decisions that the values stand for, each once, with the first value that stands for it.
pub open spec fn wire_decisions(values: Seq<JsonView>) -> WireDecisions
    decreases values.len(),
{
    if values.len() == 0 {
        Seq::empty()
    } else {
        let before = wire_decisions(values.drop_last());
        match decision_of_value(values.last()) {
            Some(decision) => if decides(before, decision) {
                before
            } else {
                before.push((decision, values.last()))
            },
            None => before,
        }
    }
}

/// The method asks the user a question.
pub open spec fn asks_user_input(method: Seq<char>) -> bool {
    contains_text(normalized_identifier(method), "requestuserinput"@)
}

/// The method asks for an approval or for input.
pub open spec fn asks_approval(method: Seq<char>) -> bool {
    let id = normalized_identifier(method);
    ||| contains_text(id, "requestapproval"@)
    ||| contains_text(id, "execapprovalrequest"@)
    ||| contains_text(id, "applypatchapprovalrequest"@)
    ||| contains_text(id, "requestpermissions"@)
    ||| contains_text(id, "requestuserinput"@)
}

/// The reason says no more than that an approval is wanted.
pub open spec fn is_generic_reason(reason: Seq<char>) -> bool {
    let id = normalized_identifier(reason);
    ||| id == "codexisrequestingapproval"@
    ||| id == "codexisrequestingcommandapproval"@
    ||| id == "codexisrequestingfilechangeapproval"@
}

/// The decisions offered where the request names none.
pub open spec fn default_decisions(method: Seq<char>) -> Seq<CodexApprovalDecision> {
    if asks_user_input(method) {
        seq![
            CodexApprovalDecision::Accept,
            CodexApprovalDecision::Decline,
            CodexApprovalDecision::Cancel,
        ]
    } else {
        seq![
            CodexApprovalDecision::Accept,
            CodexApprovalDecision::AcceptForSession,
            CodexApprovalDecision::Decline,
            CodexApprovalDecision::Cancel,
        ]
    }
}

/// A control of the approval card.
#[derive(Debug, PartialEq, Eq)]
pub enum CodexPendingApprovalControl {
    ApprovalDecision(CodexApprovalDecision),
    UserInputOption { question_id: String, label: String, description: String },
}

/// The model of a `CodexPendingApprovalControl`.
pub enum ControlView {
    Decision(CodexApprovalDecision),
    Answer { question_id: Seq<char>, label: Seq<char>, description: Seq<char> },
}

impl CodexPendingApprovalControl {
    pub open spec fn view(&self) -> ControlView {
        match self {
            CodexPendingApprovalControl::ApprovalDecision(decision) => ControlView::Decision(
                *decision,
            ),
            CodexPendingApprovalControl::UserInputOption {
                question_id,
                label,
                description,
            } => ControlView::Answer {
                question_id: question_id@,
                label: label@,
                description: description@,
            },
        }
    }
}

/// The models of a list of controls.
pub open spec fn control_views(controls: Seq<CodexPendingApprovalControl>) -> Seq<ControlView> {
    controls.map_values(|c: CodexPendingApprovalControl| c@)
}

/// A request that waits for the user.
#[derive(Debug, PartialEq)]
pub struct CodexPendingApproval {
    pub request_id: JsonRpcId,
    pub method: String,
    pub thread_id: Option<String>,
    pub turn_id: Option<String>,
    pub item_id: Option<String>,
    pub reason: String,
    /// The server sent the reason as a message to the user.
    pub reason_is_message: bool,
    pub command: Option<String>,
    pub cwd: Option<String>,
    pub available_decisions: Vec<CodexApprovalDecision>,
    pub user_input_questions: Vec<CodexUserInputQuestion>,
    pub decision_wire_values: Vec<(CodexApprovalDecision, JsonValue)>,
}

/// The model of a `CodexPendingApproval`.
pub struct ApprovalView {
    pub request_id: IdView,
    pub method: Seq<char>,
    pub thread_id: Option<Seq<char>>,
    pub turn_id: Option<Seq<char>>,
    pub item_id: Option<Seq<char>>,
    pub reason: Seq<char>,
    pub reason_is_message: bool,
    pub command: Option<Seq<char>>,
    pub cwd: Option<Seq<char>>,
    pub available_decisions: Seq<CodexApprovalDecision>,
    pub questions: Seq<QuestionView>,
    pub wire_values: WireDecisions,
}

/// The models of a list of decisions with the values sent for them.
pub open spec fn wire_views(pairs: Seq<(CodexApprovalDecision, JsonValue)>) -> WireDecisions {
    pairs.map_values(|p: (CodexApprovalDecision, JsonValue)| (p.0, p.1@))
}

/// The decisions of a list of pairs.
pub open spec fn decisions_in(pairs: WireDecisions) -> Seq<CodexApprovalDecision> {
    pairs.map_values(|p: (CodexApprovalDecision, JsonView)| p.0)
}

/// The reason given where the request states none.
pub open spec fn missing_reason(method: Seq<char>) -> Seq<char> {
    if contains_text(method, "commandExecution"@) {
        "Codex is requesting command approval."@
    } else if contains_text(method, "fileChange"@) {
        "Codex is requesting file change approval."@
    } else {
        "Codex is requesting approval."@
    }
}

/// The request for approval that a message states: one whose method asks for it, with an
/// identifier and parameters.
pub open spec fn approval_of(
    method: Option<Seq<char>>,
    id: Option<IdView>,
    params: Option<JsonView>,
) -> Option<ApprovalView> {
    match (method, id, params) {
        (Some(method), Some(request_id), Some(params)) => if asks_approval(method) {
            let questions = questions_of(params);
            let pairs = wire_decisions(allowed_decisions(params));
            Some(
                ApprovalView {
                    request_id,
                    method,
                    thread_id: string_field_of(params, seq!["threadId"@, "thread_id"@]),
                    turn_id: string_field_of(params, seq!["turnId"@, "turn_id"@]),
                    item_id: string_field_of(
                        params,
                        seq!["itemId"@, "item_id"@, "approvalId"@, "approval_id"@],
                    ),
                    reason: match string_field_of(
                        params,
                        seq!["reason"@, "message"@, "prompt"@],
                    ) {
                        Some(reason) => reason,
                        None => missing_reason(method),
                    },
                    reason_is_message: string_field_of(params, seq!["reason"@]) is None
                        && string_field_of(params, seq!["message"@]) is Some,
                    command: command_of(params),
                    cwd: string_field_of(
                        params,
                        seq!["cwd"@, "workingDirectory"@, "working_directory"@],
                    ),
                    available_decisions: if pairs.len() > 0 {
                        decisions_in(pairs)
                    } else if asks_user_input(method) && questions.len() > 0 {
                        Seq::empty()
                    } else {
                        default_decisions(method)
                    },
                    questions,
                    wire_values: pairs,
                },
            )
        } else {
            None
        },
        _ => None,
    }
}

impl ApprovalView {
    /// The one question of a request with one question.
    pub open spec fn single_question(self) -> Option<QuestionView> {
        if self.questions.len() == 1 {
            Some(self.questions[0])
        } else {
            None
        }
    }

    /// One of the questions offers answers.
    pub open spec fn has_option_question(self) -> bool {
        exists|i: int|
            0 <= i < self.questions.len() && (#[trigger] self.questions[i]).options.len() > 0
    }

    /// One of the questions offers answers or says what it wants to know.
    pub open spec fn has_meaningful_question(self) -> bool {
        exists|i: int|
            0 <= i < self.questions.len() && is_meaningful(#[trigger] self.questions[i])
    }

    /// The heading of the approval card.
    pub open spec fn title(self) -> Seq<char> {
        match self.single_question() {
            Some(question) if !is_blank(question.header) => question.header,
            _ => if self.has_meaningful_question() {
                "Codex needs input"@
            } else {
                "Codex needs approval"@
            },
        }
    }

    /// The reason, or a question in its place where the reason says nothing. What the server wrote to
    /// the user stays as it is.
    pub open spec fn defaulted_reason(self) -> Seq<char> {
        if !is_generic_reason(self.reason) {
            self.reason
        } else if self.command is Some {
            "Approve Codex to run this command?"@
        } else if contains_text(lower(self.method), "filechange"@) {
            "Approve Codex to apply the requested file changes?"@
        } else if asks_user_input(self.method) {
            if self.reason_is_message {
                self.reason
            } else {
                "Approve Codex to continue with the proposed plan?"@
            }
        } else {
            "Approve this Codex request?"@
        }
    }

    /// The text of the approval card.
    pub open spec fn message(self) -> Seq<char> {
        match self.single_question() {
            Some(question) if !is_blank(question.question) && !is_generic_reason(
                question.question,
            ) => question.question,
            _ => self.defaulted_reason(),
        }
    }

    /// The decisions to offer.
    pub open spec fn effective_decisions(self) -> Seq<CodexApprovalDecision> {
        if self.available_decisions.len() == 0 && !self.has_option_question() {
            default_decisions(self.method)
        } else {
            self.available_decisions
        }
    }

    /// The questions that offer answers.
    pub open spec fn option_questions(self) -> Seq<QuestionView> {
        self.questions.filter(|q: QuestionView| q.options.len() > 0)
    }

    /// The controls of the approval card: the answers of the one question that offers any, else
    /// the decisions.
    pub open spec fn controls(self) -> Seq<ControlView> {
        if self.option_questions().len() == 1 {
            answer_controls(self.option_questions()[0])
        } else if self.available_decisions.len() == 0 {
            decision_controls(default_decisions(self.method))
        } else {
            decision_controls(self.available_decisions)
        }
    }

    /// The value sent for a decision: the one that the request named, else the decision's name.
    pub open spec fn wire_value(self, decision: CodexApprovalDecision) -> JsonView {
        match first_wire_value(self.wire_values, decision) {
            Some(value) => value,
            None => JsonView::Text(decision_wire_name(decision)),
        }
    }

    /// The reply that sends a decision.
    pub open spec fn approval_result(self, decision: CodexApprovalDecision) -> JsonView {
        JsonView::Object(seq![("decision"@, self.wire_value(decision))])
    }

    /// The reply that answers a question: by position where the question has no identifier of its
    /// own, else under its identifier. There is none for a question that was not asked.
    pub open spec fn user_input_result(self, question_id: Seq<char>, answer: Seq<char>) -> Option<
        JsonView,
    > {
        match question_with_id(self.questions, question_id) {
            Some(question) => Some(
                match question.answer_index {
                    Some(index) => JsonView::Object(
                        seq![
                            (
                                "answers"@,
                                JsonView::Array(
                                    unanswered(index).push(answers_record(seq![answer])),
                                ),
                            ),
                        ],
                    ),
                    None => JsonView::Object(
                        seq![
                            (
                                "answers"@,
                                JsonView::Object(
                                    seq![(question_id, answers_record(seq![answer]))],
                                ),
                            ),
                        ],
                    ),
                },
            ),
            None => None,
        }
    }
}

/// The question offers answers or says what it wants to know.
pub open spec fn is_meaningful(question: QuestionView) -> bool {
    question.options.len() > 0 || (!is_blank(question.question) && !is_generic_reason(
        question.question,
    ))
}

/// The controls for the answers of a question.
pub open spec fn answer_controls(question: QuestionView) -> Seq<ControlView> {
    question.options.map_values(
        |o: OptionView|
            ControlView::Answer {
                question_id: question.id,
                label: o.label,
                description: o.description,
            },
    )
}

/// The controls for a list of decisions.
pub open spec fn decision_controls(decisions: Seq<CodexApprovalDecision>) -> Seq<ControlView> {
    decisions.map_values(|d: CodexApprovalDecision| ControlView::Decision(d))
}

/// The value of the first pair for a decision.
pub open spec fn first_wire_value(pairs: WireDecisions, decision: CodexApprovalDecision) -> Option<
    JsonView,
>
    decreases pairs.len(),
{
    if pairs.len() == 0 {
        None
    } else if pairs[0].0 == decision {
        Some(pairs[0].1)
    } else {
        first_wire_value(pairs.skip(1), decision)
    }
}

/// The first question with an identifier.
pub open spec fn question_with_id(questions: Seq<QuestionView>, id: Seq<char>) -> Option<
    QuestionView,
>
    decreases questions.len(),
{
    if questions.len() == 0 {
        None
    } else if questions[0].id == id {
        Some(questions[0])
    } else {
        question_with_id(questions.skip(1), id)
    }
}

/// The record of the answers to one question.
pub open spec fn answers_record(answers: Seq<Seq<char>>) -> JsonView {
    JsonView::Object(
        seq![
            ("answers"@, JsonView::Array(answers.map_values(|a: Seq<char>| JsonView::Text(a)))),
        ],
    )
}

/// The records of questions before the one that is answered.
pub open spec fn unanswered(count: nat) -> Seq<JsonView> {
    Seq::new(count, |i: int| answers_record(Seq::empty()))
}

/// Adds the decisions that a field lists.
pub fn collect_decision_value(value: &JsonValue, decisions: &mut Vec<JsonValue>)
    ensures
        json_views(final(decisions)@) == json_views(old(decisions)@) + listed_decisions(value@),
    decreases value,
{
    broadcast use {JsonValue::lemma_array_view, JsonValue::lemma_object_view};

    let ghost start = json_views(decisions@);
    match value {
        JsonValue::Array(items) => {
            let ghost all = json_views(items@);
            let mut i: usize = 0;
            assert(start =~= start + listed_in_items(all.take(0)));
            while i < items.len()
                invariant
                    i <= items@.len(),
                    *value == JsonValue::Array(*items),
                    all == json_views(items@),
                    json_views(decisions@) == start + listed_in_items(all.take(i as int)),
                decreases items@.len() - i,
            {
                proof {
                    let more = all.take(i as int + 1);
                    assert(more.take(more.len() - 1) =~= all.take(i as int));
                    assert(more[more.len() - 1] == items@[i as int]@);
                    assert(decreases_to!(value => value->Array_0@[i as int]));
                }
                collect_decision_value(&items[i], decisions);
                assert(json_views(decisions@) =~= start + listed_in_items(all.take(i as int + 1)));
                i = i + 1;
            }
            assert(all.take(i as int) =~= all);
        },
        JsonValue::Object(_) => {
            let keys: [&str; 4] = ["decision", "action", "value", "id"];
            assert(key_views(keys@) =~= decision_name_keys());
            match string_field(value, &keys) {
                Some(name) => {
                    decisions.push(JsonValue::Text(name));
                    assert(json_views(decisions@) =~= start + seq![JsonView::Text(name@)]);
                },
                None => {
                    decisions.push(value.clone());
                    assert(json_views(decisions@) =~= start + seq![value@]);
                },
            }
        },
        JsonValue::Text(s) => {
            if !blank(s.as_str()) {
                decisions.push(JsonValue::Text(s.clone()));
                assert(json_views(decisions@) =~= start + seq![value@]);
            } else {
                assert(start =~= start + listed_decisions(value@));
            }
        },
        _ => {
            assert(start =~= start + listed_decisions(value@));
        },
    }
}

/// Adds the decisions that a request allows.
pub fn collect_approval_decision_values(value: &JsonValue, decisions: &mut Vec<JsonValue>)
    ensures
        json_views(final(decisions)@) == json_views(old(decisions)@) + allowed_decisions(value@),
    decreases longest_text(value@), value@,
{
    broadcast use {JsonValue::lemma_array_view, JsonValue::lemma_object_view};

    let ghost start = json_views(decisions@);
    match value {
        JsonValue::Array(items) => {
            let ghost all = json_views(items@);
            let mut i: usize = 0;
            assert(start =~= start + allowed_in_items(all.take(0)));
            while i < items.len()
                invariant
                    i <= items@.len(),
                    value@ == JsonView::Array(all),
                    all == json_views(items@),
                    json_views(decisions@) == start + allowed_in_items(all.take(i as int)),
                decreases items@.len() - i,
            {
                proof {
                    let more = all.take(i as int + 1);
                    assert(more.take(more.len() - 1) =~= all.take(i as int));
                    assert(more[more.len() - 1] == items@[i as int]@);
                    lemma_longest_item(all, i as int);
                    assert(decreases_to!(value@ => value@->Array_0[i as int]));
                }
                collect_approval_decision_values(&items[i], decisions);
                assert(json_views(decisions@) =~= start + allowed_in_items(all.take(i as int + 1)));
                i = i + 1;
            }
            assert(all.take(i as int) =~= all);
        },
        JsonValue::Object(_) => {
            if let Some(listed) = value.get("availableDecisions") {
                collect_decision_value(listed, decisions);
            }
            if let Some(listed) = value.get("available_decisions") {
                collect_decision_value(listed, decisions);
            }
            let ghost own = listed_under(value@, "availableDecisions"@) + listed_under(
                value@,
                "available_decisions"@,
            );
            assert(json_views(decisions@) =~= start + own);
            let keys: [&str; 13] = [
                "params",
                "request",
                "tool",
                "toolCall",
                "tool_call",
                "item",
                "event",
                "data",
                "payload",
                "arguments",
                "args",
                "content",
                "body",
            ];
            let mut i: usize = 0;
            assert(json_views(decisions@) =~= start + own + allowed_under(value@, 0));
            while i < 13
                invariant
                    i <= 13,
                    key_views(keys@) =~= decision_keys(),
                    json_views(decisions@) == start + own + allowed_under(value@, i as nat),
                decreases 13 - i,
            {
                proof {
                    assert(decision_keys()[i as int] == key_views(keys@)[i as int]);
                    lemma_get_smaller(value@, decision_keys()[i as int]);
                    lemma_get_longest(value@, decision_keys()[i as int]);
                }
                if let Some(child) = value.get(keys[i]) {
                    collect_approval_decision_values(child, decisions);
                }
                assert(json_views(decisions@) =~= start + own + allowed_under(
                    value@,
                    i as nat + 1,
                ));
                i = i + 1;
            }
            assert(json_views(decisions@) =~= start + (own + allowed_under(value@, 13)));
        },
        JsonValue::Text(s) => {
            match parse_embedded_json(s.as_str()) {
                Some(document) => {
                    proof {
                        lemma_trim_len(s@);
                    }
                    collect_approval_decision_values(&document, decisions);
                },
                None => {
                    assert(start =~= start + allowed_decisions(value@));
                },
            }
        },
        _ => {
            assert(start =~= start + allowed_decisions(value@));
        },
    }
}

/// The decision that a listed value stands for.
pub fn approval_decision_from_wire_value(value: &JsonValue) -> (r: Option<CodexApprovalDecision>)
    ensures
        r == decision_of_value(value@),
{
    broadcast use JsonValue::lemma_object_view;

    match value {
        JsonValue::Text(name) => CodexApprovalDecision::from_wire(name.as_str()),
        JsonValue::Object(_) => {
            if value.get("acceptWithExecpolicyAmendment").is_some() {
                Some(CodexApprovalDecision::AcceptForPrefix)
            } else if value.get("applyNetworkPolicyAmendment").is_some() {
                Some(CodexApprovalDecision::AcceptForSession)
            } else {
                let keys: [&str; 4] = ["decision", "action", "value", "id"];
                assert(key_views(keys@) =~= decision_name_keys());
                match string_field(value, &keys) {
                    Some(name) => CodexApprovalDecision::from_wire(name.as_str()),
                    None => None,
                }
            }
        },
        _ => None,
    }
}

/// The decisions that a request allows, each once, with the value to send for it.
fn wire_pairs(params: &JsonValue) -> (r: Vec<(CodexApprovalDecision, JsonValue)>)
    ensures
        wire_views(r@) == wire_decisions(allowed_decisions(params@)),
{
    let mut values: Vec<JsonValue> = Vec::new();
    assert(json_views(values@) =~= Seq::empty());
    collect_approval_decision_values(params, &mut values);
    let ghost all = allowed_decisions(params@);
    assert(json_views(values@) =~= all);
    let mut r: Vec<(CodexApprovalDecision, JsonValue)> = Vec::new();
    let mut i: usize = 0;
    assert(wire_views(r@) =~= wire_decisions(all.take(0)));
    while i < values.len()
        invariant
            i <= values@.len(),
            all == json_views(values@),
            wire_views(r@) == wire_decisions(all.take(i as int)),
        decreases values@.len() - i,
    {
        let ghost kept = wire_views(r@);
        proof {
            assert(all.take(i as int + 1).drop_last() =~= all.take(i as int));
            assert(all.take(i as int + 1).last() == values@[i as int]@);
        }
        if let Some(decision) = approval_decision_from_wire_value(&values[i]) {
            if !has_decision(&r, decision) {
                r.push((decision, values[i].clone()));
                assert(wire_views(r@) =~= kept.push((decision, values@[i as int]@)));
            }
        }
        i = i + 1;
    }
    assert(all.take(i as int) =~= all);
    r
}

/// One of the pairs is for the decision.
fn has_decision(
    pairs: &Vec<(CodexApprovalDecision, JsonValue)>,
    decision: CodexApprovalDecision,
) -> (r: bool)
    ensures
        r == decides(wire_views(pairs@), decision),
{
    let mut i: usize = 0;
    while i < pairs.len()
        invariant
            i <= pairs@.len(),
            forall|j: int| 0 <= j < i ==> (#[trigger] wire_views(pairs@)[j]).0 != decision,
        decreases pairs@.len() - i,
    {
        assert(wire_views(pairs@)[i as int].0 == pairs@[i as int].0);
        if pairs[i].0 == decision {
            return true;
        }
        i = i + 1;
    }
    false
}

/// The method asks the user a question.
pub fn is_request_user_input_method(method: &str) -> (r: bool)
    ensures
        r == asks_user_input(method@),
{
    contains(normalize_identifier(method).as_str(), "requestuserinput")
}

/// The method asks for an approval or for input.
pub fn is_approval_request(method: &str) -> (r: bool)
    ensures
        r == asks_approval(method@),
{
    let id = normalize_identifier(method);
    let id = id.as_str();
    contains(id, "requestapproval") || contains(id, "execapprovalrequest") || contains(
        id,
        "applypatchapprovalrequest",
    ) || contains(id, "requestpermissions") || contains(id, "requestuserinput")
}

/// The reason says no more than that an approval is wanted.
pub fn is_generic_codex_approval_reason(reason: &str) -> (r: bool)
    ensures
        r == is_generic_reason(reason@),
{
    let id = normalize_identifier(reason);
    let id = id.as_str();
    same(id, "codexisrequestingapproval") || same(id, "codexisrequestingcommandapproval") || same(
        id,
        "codexisrequestingfilechangeapproval",
    )
}

/// The decisions offered where the request names none.
pub fn default_approval_decisions(method: &str) -> (r: Vec<CodexApprovalDecision>)
    ensures
        r@ == default_decisions(method@),
{
    let mut r: Vec<CodexApprovalDecision> = Vec::new();
    r.push(CodexApprovalDecision::Accept);
    if !is_request_user_input_method(method) {
        r.push(CodexApprovalDecision::AcceptForSession);
    }
    r.push(CodexApprovalDecision::Decline);
    r.push(CodexApprovalDecision::Cancel);
    assert(r@ =~= default_decisions(method@));
    r
}

/// The decisions of a list of pairs.
fn decisions_of_pairs(pairs: &Vec<(CodexApprovalDecision, JsonValue)>) -> (r: Vec<
    CodexApprovalDecision,
>)
    ensures
        r@ == decisions_in(wire_views(pairs@)),
{
    let mut r: Vec<CodexApprovalDecision> = Vec::new();
    let mut i: usize = 0;
    while i < pairs.len()
        invariant
            i <= pairs@.len(),
            r@.len() == i,
            forall|j: int| 0 <= j < i ==> r@[j] == pairs@[j].0,
        decreases pairs@.len() - i,
    {
        r.push(pairs[i].0);
        i = i + 1;
    }
    assert(r@ =~= decisions_in(wire_views(pairs@)));
    r
}

/// The model of an optional request.
pub open spec fn opt_approval_view(approval: Option<CodexPendingApproval>) -> Option<
    ApprovalView,
> {
    match approval {
        Some(approval) => Some(approval@),
        None => None,
    }
}

/// The model of an optional identifier.
pub open spec fn opt_id_view(id: Option<JsonRpcId>) -> Option<IdView> {
    match id {
        Some(id) => Some(id@),
        None => None,
    }
}

/// The request for approval that a message states.
pub fn parse_approval_request(
    method: Option<&str>,
    request_id: Option<JsonRpcId>,
    params: Option<&JsonValue>,
) -> (r: Option<CodexPendingApproval>)
    ensures
        opt_approval_view(r) == approval_of(
            opt_str_view(method),
            opt_id_view(request_id),
            opt_json_view(params),
        ),
{
    let method = match method {
        Some(method) => method,
        None => {
            return None;
        },
    };
    if !is_approval_request(method) {
        return None;
    }
    let request_id = match request_id {
        Some(request_id) => request_id,
        None => {
            return None;
        },
    };
    let params = match params {
        Some(params) => params,
        None => {
            return None;
        },
    };
    let reason_keys: [&str; 3] = ["reason", "message", "prompt"];
    let plain_reason_keys: [&str; 1] = ["reason"];
    let message_keys: [&str; 1] = ["message"];
    let thread_keys: [&str; 2] = ["threadId", "thread_id"];
    let turn_keys: [&str; 2] = ["turnId", "turn_id"];
    let item_keys: [&str; 4] = ["itemId", "item_id", "approvalId", "approval_id"];
    let cwd_keys: [&str; 3] = ["cwd", "workingDirectory", "working_directory"];
    proof {
        assert(key_views(reason_keys@) =~= seq!["reason"@, "message"@, "prompt"@]);
        assert(key_views(plain_reason_keys@) =~= seq!["reason"@]);
        assert(key_views(message_keys@) =~= seq!["message"@]);
        assert(key_views(thread_keys@) =~= seq!["threadId"@, "thread_id"@]);
        assert(key_views(turn_keys@) =~= seq!["turnId"@, "turn_id"@]);
        assert(key_views(item_keys@) =~= seq![
            "itemId"@,
            "item_id"@,
            "approvalId"@,
            "approval_id"@,
        ]);
        assert(key_views(cwd_keys@) =~= seq!["cwd"@, "workingDirectory"@, "working_directory"@]);
    }
    let reason = match string_field(params, &reason_keys) {
        Some(reason) => reason,
        None => {
            if contains(method, "commandExecution") {
                "Codex is requesting command approval.".to_owned()
            } else if contains(method, "fileChange") {
                "Codex is requesting file change approval.".to_owned()
            } else {
                "Codex is requesting approval.".to_owned()
            }
        },
    };
    let reason_is_message = string_field(params, &plain_reason_keys).is_none() && string_field(
        params,
        &message_keys,
    ).is_some();
    let questions = user_input_questions(params);
    let pairs = wire_pairs(params);
    let available_decisions: Vec<CodexApprovalDecision> = if pairs.len() > 0 {
        decisions_of_pairs(&pairs)
    } else if is_request_user_input_method(method) && questions.len() > 0 {
        Vec::new()
    } else {
        default_approval_decisions(method)
    };
    proof {
        assert(wire_views(pairs@).len() == pairs@.len());
        assert(question_views(questions@).len() == questions@.len());
    }
    Some(
        CodexPendingApproval {
            request_id,
            method: method.to_owned(),
            thread_id: string_field(params, &thread_keys),
            turn_id: string_field(params, &turn_keys),
            item_id: string_field(params, &item_keys),
            reason,
            reason_is_message,
            command: command_field(params),
            cwd: string_field(params, &cwd_keys),
            available_decisions,
            user_input_questions: questions,
            decision_wire_values: pairs,
        },
    )
}

/// A JSON object with one entry.
fn single_entry(key: &str, value: JsonValue) -> (r: JsonValue)
    ensures
        r@ == JsonView::Object(seq![(key@, value@)]),
{
    broadcast use JsonValue::lemma_object_view;

    let mut entries: Vec<(String, JsonValue)> = Vec::new();
    entries.push((key.to_owned(), value));
    let r = JsonValue::Object(entries);
    assert(r@->Object_0 =~= seq![(key@, value@)]);
    r
}

/// The record of the answers to one question, where there is at most one.
fn record_of_answers(answer: Option<&str>) -> (r: JsonValue)
    ensures
        r@ == answers_record(opt_word(opt_str_view(answer))),
{
    broadcast use JsonValue::lemma_array_view;

    let mut answers: Vec<JsonValue> = Vec::new();
    if let Some(answer) = answer {
        answers.push(JsonValue::Text(answer.to_owned()));
    }
    assert(json_views(answers@) =~= opt_word(opt_str_view(answer)).map_values(
        |a: Seq<char>| JsonView::Text(a),
    ));
    single_entry("answers", JsonValue::Array(answers))
}

impl CodexPendingApproval {
    pub open spec fn view(&self) -> ApprovalView {
        ApprovalView {
            request_id: self.request_id@,
            method: self.method@,
            thread_id: opt_view(self.thread_id),
            turn_id: opt_view(self.turn_id),
            item_id: opt_view(self.item_id),
            reason: self.reason@,
            reason_is_message: self.reason_is_message,
            command: opt_view(self.command),
            cwd: opt_view(self.cwd),
            available_decisions: self.available_decisions@,
            questions: question_views(self.user_input_questions@),
            wire_values: wire_views(self.decision_wire_values@),
        }
    }

    /// The heading of the approval card.
    pub fn title(&self) -> (r: String)
        ensures
            r@ == self@.title(),
    {
        if let Some(question) = self.single_user_input_question() {
            if !blank(question.header.as_str()) {
                return question.header.clone();
            }
        }
        if self.has_meaningful_user_input_question() {
            "Codex needs input".to_owned()
        } else {
            "Codex needs approval".to_owned()
        }
    }

    /// The text of the approval card.
    pub fn message(&self) -> (r: String)
        ensures
            r@ == self@.message(),
    {
        if let Some(question) = self.single_user_input_question() {
            if !blank(question.question.as_str()) && !is_generic_codex_approval_reason(
                question.question.as_str(),
            ) {
                return question.question.clone();
            }
        }
        self.defaulted_reason()
    }

    /// The request asks the user a question.
    pub fn is_user_input_request(&self) -> (r: bool)
        ensures
            r == asks_user_input(self@.method),
    {
        is_request_user_input_method(self.method.as_str())
    }

    /// One of the questions offers answers or says what it wants to know.
    fn has_meaningful_user_input_question(&self) -> (r: bool)
        ensures
            r == self@.has_meaningful_question(),
    {
        let mut i: usize = 0;
        let ghost questions = self@.questions;
        while i < self.user_input_questions.len()
            invariant
                i <= self.user_input_questions@.len(),
                questions == question_views(self.user_input_questions@),
                questions == self@.questions,
                forall|j: int| 0 <= j < i ==> !is_meaningful(#[trigger] questions[j]),
            decreases self.user_input_questions@.len() - i,
        {
            let question = &self.user_input_questions[i];
            assert(questions[i as int] == question@);
            assert(question@.options.len() == question.options@.len());
            if question.options.len() > 0 || (!blank(question.question.as_str())
                && !is_generic_codex_approval_reason(question.question.as_str())) {
                assert(is_meaningful(questions[i as int]));
                return true;
            }
            i = i + 1;
        }
        false
    }

    /// The reason, or a question in its place where the reason says nothing. What the server wrote to
    /// the user stays as it is.
    fn defaulted_reason(&self) -> (r: String)
        ensures
            r@ == self@.defaulted_reason(),
    {
        if !is_generic_codex_approval_reason(self.reason.as_str()) {
            return self.reason.clone();
        }
        if self.command.is_some() {
            "Approve Codex to run this command?".to_owned()
        } else if contains(lowered(self.method.as_str()).as_str(), "filechange") {
            "Approve Codex to apply the requested file changes?".to_owned()
        } else if self.is_user_input_request() {
            if self.reason_is_message {
                self.reason.clone()
            } else {
                "Approve Codex to continue with the proposed plan?".to_owned()
            }
        } else {
            "Approve this Codex request?".to_owned()
        }
    }

    /// A copy of the decisions that the request allows.
    fn copy_of_decisions(&self) -> (r: Vec<CodexApprovalDecision>)
        ensures
            r@ == self@.available_decisions,
    {
        let mut r: Vec<CodexApprovalDecision> = Vec::new();
        let mut i: usize = 0;
        while i < self.available_decisions.len()
            invariant
                i <= self.available_decisions@.len(),
                r@ == self.available_decisions@.take(i as int),
            decreases self.available_decisions@.len() - i,
        {
            r.push(self.available_decisions[i]);
            i = i + 1;
        }
        r
    }

    /// How many questions offer answers, and the position of the first that does.
    fn count_option_questions(&self) -> (r: (usize, usize))
        ensures
            r.0 == self@.option_questions().len(),
            r.0 > 0 <==> self@.has_option_question(),
            r.0 > 0 ==> r.1 < self@.questions.len() && self@.questions[r.1 as int]
                == self@.option_questions()[0],
    {
        let ghost questions = self@.questions;
        let ghost offers = |q: QuestionView| q.options.len() > 0;
        let mut count: usize = 0;
        let mut first: usize = 0;
        let mut i: usize = 0;
        while i < self.user_input_questions.len()
            invariant
                i <= self.user_input_questions@.len(),
                questions == question_views(self.user_input_questions@),
                offers == (|q: QuestionView| q.options.len() > 0),
                count <= i,
                count == questions.take(i as int).filter(offers).len(),
                count > 0 <==> exists|j: int|
                    0 <= j < i && (#[trigger] questions[j]).options.len() > 0,
                count > 0 ==> first < i && questions[first as int] == questions.take(
                    i as int,
                ).filter(offers)[0],
            decreases self.user_input_questions@.len() - i,
        {
            proof {
                reveal(Seq::filter);
                assert(questions.take(i as int + 1).drop_last() =~= questions.take(i as int));
                assert(questions[i as int] == self.user_input_questions@[i as int]@);
                assert(questions[i as int].options.len()
                    == self.user_input_questions@[i as int].options@.len());
            }
            if self.user_input_questions[i].options.len() > 0 {
                if count == 0 {
                    first = i;
                }
                count = count + 1;
            }
            i = i + 1;
        }
        assert(questions.take(i as int) =~= questions);
        (count, first)
    }

    /// The decisions to offer.
    pub fn effective_available_decisions(&self) -> (r: Vec<CodexApprovalDecision>)
        ensures
            r@ == self@.effective_decisions(),
    {
        let (count, _) = self.count_option_questions();
        if self.available_decisions.len() == 0 && count == 0 {
            default_approval_decisions(self.method.as_str())
        } else {
            self.copy_of_decisions()
        }
    }

    /// The controls of the approval card.
    pub fn controls(&self) -> (r: Vec<CodexPendingApprovalControl>)
        ensures
            control_views(r@) == self@.controls(),
    {
        let (count, first) = self.count_option_questions();
        let mut r: Vec<CodexPendingApprovalControl> = Vec::new();
        if count == 1 {
            let question = &self.user_input_questions[first];
            let ghost all = answer_controls(question@);
            let mut i: usize = 0;
            while i < question.options.len()
                invariant
                    i <= question.options@.len(),
                    all == answer_controls(question@),
                    control_views(r@) == all.take(i as int),
                decreases question.options@.len() - i,
            {
                let ghost done = control_views(r@);
                r.push(
                    CodexPendingApprovalControl::UserInputOption {
                        question_id: question.id.clone(),
                        label: question.options[i].label.clone(),
                        description: question.options[i].description.clone(),
                    },
                );
                proof {
                    assert(control_views(r@) =~= done.push(all[i as int]));
                    assert(all.take(i as int + 1) =~= done.push(all[i as int]));
                }
                i = i + 1;
            }
            assert(all.take(i as int) =~= all);
            return r;
        }
        let decisions = if self.available_decisions.len() == 0 {
            default_approval_decisions(self.method.as_str())
        } else {
            self.copy_of_decisions()
        };
        let ghost all = decision_controls(decisions@);
        let mut i: usize = 0;
        while i < decisions.len()
            invariant
                i <= decisions@.len(),
                all == decision_controls(decisions@),
                control_views(r@) == all.take(i as int),
            decreases decisions@.len() - i,
        {
            let ghost done = control_views(r@);
            r.push(CodexPendingApprovalControl::ApprovalDecision(decisions[i]));
            proof {
                assert(control_views(r@) =~= done.push(all[i as int]));
                assert(all.take(i as int + 1) =~= done.push(all[i as int]));
            }
            i = i + 1;
        }
        assert(all.take(i as int) =~= all);
        r
    }

    /// The one question of a request with one question.
    pub fn single_user_input_question(&self) -> (r: Option<&CodexUserInputQuestion>)
        ensures
            match r {
                Some(question) => self@.single_question() == Some(question@),
                None => self@.single_question() is None,
            },
    {
        if self.user_input_questions.len() == 1 {
            Some(&self.user_input_questions[0])
        } else {
            None
        }
    }

    /// The reply that sends a decision.
    pub fn approval_result(&self, decision: CodexApprovalDecision) -> (r: JsonValue)
        ensures
            r@ == self@.approval_result(decision),
    {
        let ghost pairs = self@.wire_values;
        let mut i: usize = 0;
        assert(pairs.skip(0) =~= pairs);
        while i < self.decision_wire_values.len()
            invariant
                i <= self.decision_wire_values@.len(),
                pairs == wire_views(self.decision_wire_values@),
                pairs == self@.wire_values,
                first_wire_value(pairs, decision) == first_wire_value(
                    pairs.skip(i as int),
                    decision,
                ),
            decreases self.decision_wire_values@.len() - i,
        {
            assert(pairs.skip(i as int)[0] == pairs[i as int]);
            assert(pairs.skip(i as int).skip(1) =~= pairs.skip(i as int + 1));
            if self.decision_wire_values[i].0 == decision {
                return single_entry("decision", self.decision_wire_values[i].1.clone());
            }
            i = i + 1;
        }
        single_entry("decision", JsonValue::Text(decision.wire_value().to_owned()))
    }

    /// The reply that answers a question.
    pub fn user_input_result(&self, question_id: &str, answer: &str) -> (r: Option<JsonValue>)
        ensures
            match r {
                Some(result) => self@.user_input_result(question_id@, answer@) == Some(result@),
                None => self@.user_input_result(question_id@, answer@) is None,
            },
    {
        let ghost questions = self@.questions;
        let mut i: usize = 0;
        assert(questions.skip(0) =~= questions);
        while i < self.user_input_questions.len()
            invariant
                i <= self.user_input_questions@.len(),
                questions == question_views(self.user_input_questions@),
                questions == self@.questions,
                question_with_id(questions, question_id@) == question_with_id(
                    questions.skip(i as int),
                    question_id@,
                ),
            decreases self.user_input_questions@.len() - i,
        {
            assert(questions.skip(i as int)[0] == questions[i as int]);
            assert(questions.skip(i as int).skip(1) =~= questions.skip(i as int + 1));
            let question = &self.user_input_questions[i];
            if same(question.id.as_str(), question_id) {
                let mine = record_of_answers(Some(answer));
                assert(opt_word(Some(answer@)) =~= seq![answer@]);
                match question.answer_index {
                    Some(index) => {
                        let ghost blanks = unanswered(index as nat);
                        let mut answers: Vec<JsonValue> = Vec::new();
                        let mut k: usize = 0;
                        while k < index
                            invariant
                                k <= index,
                                blanks == unanswered(index as nat),
                                json_views(answers@) == blanks.take(k as int),
                            decreases index - k,
                        {
                            let ghost done = json_views(answers@);
                            answers.push(record_of_answers(None));
                            proof {
                                assert(opt_word(None) =~= Seq::<Seq<char>>::empty());
                                assert(json_views(answers@) =~= done.push(blanks[k as int]));
                                assert(blanks.take(k as int + 1) =~= done.push(blanks[k as int]));
                            }
                            k = k + 1;
                        }
                        let ghost done = json_views(answers@);
                        answers.push(mine);
                        proof {
                            assert(blanks.take(k as int) =~= blanks);
                            assert(json_views(answers@) =~= blanks.push(mine@));
                            JsonValue::lemma_array_view(answers);
                        }
                        return Some(single_entry("answers", JsonValue::Array(answers)));
                    },
                    None => {
                        return Some(single_entry("answers", single_entry(question_id, mine)));
                    },
                }
            }
            i = i + 1;
        }
        None
    }
}

} // verus!
