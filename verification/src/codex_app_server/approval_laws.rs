//! What holds of the requests of a Codex app server that the user answers.
use crate::codex_app_server::approval::{
    CodexApprovalDecision, IdView, OptionView, QuestionView, decision_of_name, decision_wire_name,
    distinct_questions, embedded_document, lemma_get_longest, option_keys, option_of,
    options_of_items, options_under, question_keys, question_of, with_questions,
    with_questions_of_items, with_questions_under,
};
use crate::codex_app_server::fields::{
    command_of, lemma_get_smaller, normalized_identifier, string_field_of,
};
use crate::codex_app_server::request::{
    ApprovalView, ControlView, WireDecisions, allowed_decisions, allowed_under, approval_of,
    asks_approval, asks_user_input, decides, decision_keys, default_decisions, first_wire_value,
    is_generic_reason, listed_decisions, listed_in_items, question_with_id, wire_decisions,
};
use crate::json::{JsonView, json_parse, longest_in_items, longest_text};
use crate::text::{contains_text, decimal, is_blank, lemma_trim_len, trim};
use vstd::prelude::*;

verus! {

proof fn lemma_decision_words()
    ensures
        "accept"@ != "approve"@,
        "accept"@ != "allow"@,
        "accept"@ != "yes"@,
        "accept"@ != "acceptforsession"@,
        "accept"@ != "approveforsession"@,
        "accept"@ != "allowforsession"@,
        "accept"@ != "applynetworkpolicyamendment"@,
        "accept"@ != "acceptforprefix"@,
        "accept"@ != "approveforprefix"@,
        "accept"@ != "allowforprefix"@,
        "accept"@ != "acceptwithexecpolicyamendment"@,
        "accept"@ != "decline"@,
        "accept"@ != "deny"@,
        "accept"@ != "reject"@,
        "accept"@ != "no"@,
        "accept"@ != "cancel"@,
        "accept"@ != "abort"@,
        "approve"@ != "allow"@,
        "approve"@ != "yes"@,
        "approve"@ != "acceptforsession"@,
        "approve"@ != "approveforsession"@,
        "approve"@ != "allowforsession"@,
        "approve"@ != "applynetworkpolicyamendment"@,
        "approve"@ != "acceptforprefix"@,
        "approve"@ != "approveforprefix"@,
        "approve"@ != "allowforprefix"@,
        "approve"@ != "acceptwithexecpolicyamendment"@,
        "approve"@ != "decline"@,
        "approve"@ != "deny"@,
        "approve"@ != "reject"@,
        "approve"@ != "no"@,
        "approve"@ != "cancel"@,
        "approve"@ != "abort"@,
        "allow"@ != "yes"@,
        "allow"@ != "acceptforsession"@,
        "allow"@ != "approveforsession"@,
        "allow"@ != "allowforsession"@,
        "allow"@ != "applynetworkpolicyamendment"@,
        "allow"@ != "acceptforprefix"@,
        "allow"@ != "approveforprefix"@,
        "allow"@ != "allowforprefix"@,
        "allow"@ != "acceptwithexecpolicyamendment"@,
        "allow"@ != "decline"@,
        "allow"@ != "deny"@,
        "allow"@ != "reject"@,
        "allow"@ != "no"@,
        "allow"@ != "cancel"@,
        "allow"@ != "abort"@,
        "yes"@ != "acceptforsession"@,
        "yes"@ != "approveforsession"@,
        "yes"@ != "allowforsession"@,
        "yes"@ != "applynetworkpolicyamendment"@,
        "yes"@ != "acceptforprefix"@,
        "yes"@ != "approveforprefix"@,
        "yes"@ != "allowforprefix"@,
        "yes"@ != "acceptwithexecpolicyamendment"@,
        "yes"@ != "decline"@,
        "yes"@ != "deny"@,
        "yes"@ != "reject"@,
        "yes"@ != "no"@,
        "yes"@ != "cancel"@,
        "yes"@ != "abort"@,
        "acceptforsession"@ != "approveforsession"@,
        "acceptforsession"@ != "allowforsession"@,
        "acceptforsession"@ != "applynetworkpolicyamendment"@,
        "acceptforsession"@ != "acceptforprefix"@,
        "acceptforsession"@ != "approveforprefix"@,
        "acceptforsession"@ != "allowforprefix"@,
        "acceptforsession"@ != "acceptwithexecpolicyamendment"@,
        "acceptforsession"@ != "decline"@,
        "acceptforsession"@ != "deny"@,
        "acceptforsession"@ != "reject"@,
        "acceptforsession"@ != "no"@,
        "acceptforsession"@ != "cancel"@,
        "acceptforsession"@ != "abort"@,
        "approveforsession"@ != "allowforsession"@,
        "approveforsession"@ != "applynetworkpolicyamendment"@,
        "approveforsession"@ != "acceptforprefix"@,
        "approveforsession"@ != "approveforprefix"@,
        "approveforsession"@ != "allowforprefix"@,
        "approveforsession"@ != "acceptwithexecpolicyamendment"@,
        "approveforsession"@ != "decline"@,
        "approveforsession"@ != "deny"@,
        "approveforsession"@ != "reject"@,
        "approveforsession"@ != "no"@,
        "approveforsession"@ != "cancel"@,
        "approveforsession"@ != "abort"@,
        "allowforsession"@ != "applynetworkpolicyamendment"@,
        "allowforsession"@ != "acceptforprefix"@,
        "allowforsession"@ != "approveforprefix"@,
        "allowforsession"@ != "allowforprefix"@,
        "allowforsession"@ != "acceptwithexecpolicyamendment"@,
        "allowforsession"@ != "decline"@,
        "allowforsession"@ != "deny"@,
        "allowforsession"@ != "reject"@,
        "allowforsession"@ != "no"@,
        "allowforsession"@ != "cancel"@,
        "allowforsession"@ != "abort"@,
        "applynetworkpolicyamendment"@ != "acceptforprefix"@,
        "applynetworkpolicyamendment"@ != "approveforprefix"@,
        "applynetworkpolicyamendment"@ != "allowforprefix"@,
        "applynetworkpolicyamendment"@ != "acceptwithexecpolicyamendment"@,
        "applynetworkpolicyamendment"@ != "decline"@,
        "applynetworkpolicyamendment"@ != "deny"@,
        "applynetworkpolicyamendment"@ != "reject"@,
        "applynetworkpolicyamendment"@ != "no"@,
        "applynetworkpolicyamendment"@ != "cancel"@,
        "applynetworkpolicyamendment"@ != "abort"@,
        "acceptforprefix"@ != "approveforprefix"@,
        "acceptforprefix"@ != "allowforprefix"@,
        "acceptforprefix"@ != "acceptwithexecpolicyamendment"@,
        "acceptforprefix"@ != "decline"@,
        "acceptforprefix"@ != "deny"@,
        "acceptforprefix"@ != "reject"@,
        "acceptforprefix"@ != "no"@,
        "acceptforprefix"@ != "cancel"@,
        "acceptforprefix"@ != "abort"@,
        "approveforprefix"@ != "allowforprefix"@,
        "approveforprefix"@ != "acceptwithexecpolicyamendment"@,
        "approveforprefix"@ != "decline"@,
        "approveforprefix"@ != "deny"@,
        "approveforprefix"@ != "reject"@,
        "approveforprefix"@ != "no"@,
        "approveforprefix"@ != "cancel"@,
        "approveforprefix"@ != "abort"@,
        "allowforprefix"@ != "acceptwithexecpolicyamendment"@,
        "allowforprefix"@ != "decline"@,
        "allowforprefix"@ != "deny"@,
        "allowforprefix"@ != "reject"@,
        "allowforprefix"@ != "no"@,
        "allowforprefix"@ != "cancel"@,
        "allowforprefix"@ != "abort"@,
        "acceptwithexecpolicyamendment"@ != "decline"@,
        "acceptwithexecpolicyamendment"@ != "deny"@,
        "acceptwithexecpolicyamendment"@ != "reject"@,
        "acceptwithexecpolicyamendment"@ != "no"@,
        "acceptwithexecpolicyamendment"@ != "cancel"@,
        "acceptwithexecpolicyamendment"@ != "abort"@,
        "decline"@ != "deny"@,
        "decline"@ != "reject"@,
        "decline"@ != "no"@,
        "decline"@ != "cancel"@,
        "decline"@ != "abort"@,
        "deny"@ != "reject"@,
        "deny"@ != "no"@,
        "deny"@ != "cancel"@,
        "deny"@ != "abort"@,
        "reject"@ != "no"@,
        "reject"@ != "cancel"@,
        "reject"@ != "abort"@,
        "no"@ != "cancel"@,
        "no"@ != "abort"@,
        "cancel"@ != "abort"@,
{
    reveal_strlit("accept");
    reveal_strlit("approve");
    reveal_strlit("allow");
    reveal_strlit("yes");
    reveal_strlit("acceptforsession");
    reveal_strlit("approveforsession");
    reveal_strlit("allowforsession");
    reveal_strlit("applynetworkpolicyamendment");
    reveal_strlit("acceptforprefix");
    reveal_strlit("approveforprefix");
    reveal_strlit("allowforprefix");
    reveal_strlit("acceptwithexecpolicyamendment");
    reveal_strlit("decline");
    reveal_strlit("deny");
    reveal_strlit("reject");
    reveal_strlit("no");
    reveal_strlit("cancel");
    reveal_strlit("abort");
    assert("accept"@.len() == 6);
    assert("approve"@.len() == 7);
    assert("allow"@.len() == 5);
    assert("yes"@.len() == 3);
    assert("acceptforsession"@.len() == 16);
    assert("approveforsession"@.len() == 17);
    assert("allowforsession"@.len() == 15);
    assert("applynetworkpolicyamendment"@.len() == 27);
    assert("acceptforprefix"@.len() == 15);
    assert("approveforprefix"@.len() == 16);
    assert("allowforprefix"@.len() == 14);
    assert("acceptwithexecpolicyamendment"@.len() == 29);
    assert("decline"@.len() == 7);
    assert("deny"@.len() == 4);
    assert("reject"@.len() == 6);
    assert("no"@.len() == 2);
    assert("cancel"@.len() == 6);
    assert("abort"@.len() == 5);
    assert("accept"@[0] == 'a');
    assert("reject"@[0] == 'r');
    assert("cancel"@[0] == 'c');
    assert("approve"@[0] == 'a');
    assert("decline"@[0] == 'd');
    assert("allow"@[1] == 'l');
    assert("abort"@[1] == 'b');
    assert("acceptforsession"@[1] == 'c');
    assert("approveforprefix"@[1] == 'p');
    assert("allowforsession"@[1] == 'l');
    assert("acceptforprefix"@[1] == 'c');
}

/// The words that stand for a decision, whatever their capitals and signs; no other word does.
pub proof fn law_words_of_decisions(name: Seq<char>)
    ensures
        normalized_identifier(name) == "accept"@ || normalized_identifier(name) == "approve"@ || normalized_identifier(name) == "allow"@ || normalized_identifier(name) == "yes"@
            <==> decision_of_name(name) == Some(CodexApprovalDecision::Accept),
        normalized_identifier(name) == "acceptforsession"@ || normalized_identifier(name) == "approveforsession"@ || normalized_identifier(name) == "allowforsession"@ || normalized_identifier(name) == "applynetworkpolicyamendment"@
            <==> decision_of_name(name) == Some(CodexApprovalDecision::AcceptForSession),
        normalized_identifier(name) == "acceptforprefix"@ || normalized_identifier(name) == "approveforprefix"@ || normalized_identifier(name) == "allowforprefix"@ || normalized_identifier(name) == "acceptwithexecpolicyamendment"@
            <==> decision_of_name(name) == Some(CodexApprovalDecision::AcceptForPrefix),
        normalized_identifier(name) == "decline"@ || normalized_identifier(name) == "deny"@ || normalized_identifier(name) == "reject"@ || normalized_identifier(name) == "no"@
            <==> decision_of_name(name) == Some(CodexApprovalDecision::Decline),
        normalized_identifier(name) == "cancel"@ || normalized_identifier(name) == "abort"@
            <==> decision_of_name(name) == Some(CodexApprovalDecision::Cancel),
{
    lemma_decision_words();
}

/// Every entry that is an option is offered, in order.
pub proof fn law_every_option_is_offered(items: Seq<JsonView>)
    ensures
        options_of_items(items) == items.filter(|i: JsonView| option_of(i) is Some).map_values(
            |i: JsonView| option_of(i)->0,
        ),
    decreases items.len(),
{
    reveal(Seq::filter);
    let keep = |i: JsonView| option_of(i) is Some;
    let make = |i: JsonView| option_of(i)->0;
    if items.len() > 0 {
        law_every_option_is_offered(items.drop_last());
        assert(items.filter(keep).map_values(make) =~= options_of_items(items));
    } else {
        assert(items.filter(keep).map_values(make) =~= Seq::empty());
    }
}

/// The options that are listed under a name.
pub open spec fn options_listed(value: JsonView, key: Seq<char>) -> Seq<OptionView> {
    match value.get(key) {
        Some(JsonView::Array(items)) => options_of_items(items),
        _ => Seq::empty(),
    }
}

/// A question offers all options that are listed under any of the names for them.
pub proof fn law_options_of_a_question(value: JsonView)
    ensures
        options_under(value, 4) == options_listed(value, "options"@) + options_listed(
            value,
            "choices"@,
        ) + options_listed(value, "buttons"@) + options_listed(value, "answers"@),
{
    reveal_with_fuel(options_under, 5);
    let keys = option_keys();
    assert(keys[0] == "options"@ && keys[1] == "choices"@ && keys[2] == "buttons"@ && keys[3]
        == "answers"@);
    let a = options_listed(value, "options"@);
    let b = options_listed(value, "choices"@);
    let c = options_listed(value, "buttons"@);
    let d = options_listed(value, "answers"@);
    assert(options_under(value, 0) =~= Seq::empty());
    assert(options_under(value, 1) =~= a);
    assert(options_under(value, 2) =~= a + b);
    assert(options_under(value, 3) =~= a + b + c);
    assert(options_under(value, 4) =~= a + b + c + d);
}

/// An option is a text, a number, or an object with a label and perhaps a description.
pub proof fn law_option(text: Seq<char>, value: JsonView, more: Seq<char>)
    requires
        !is_blank(text),
        !is_blank(more),
        value is Object,
        value.get("label"@) == Some(JsonView::Text(text)),
    ensures
        option_of(JsonView::Text(text)) == Some(
            OptionView { label: text, description: Seq::empty() },
        ),
        option_of(value) matches Some(option) && option.label == text,
        value.get("description"@) == Some(JsonView::Text(more)) ==> option_of(value) == Some(
            OptionView { label: text, description: more },
        ),
        option_of(JsonView::Null) is None,
{
    let keys = seq!["label"@, "title"@, "text"@, "value"@, "name"@, "id"@];
    assert(keys[0] == "label"@);
    let other = seq!["description"@, "subtitle"@, "detail"@, "details"@];
    assert(other[0] == "description"@);
}

/// A question is asked with what it states; one that names itself is answered by its name, any
/// other by its place.
pub proof fn law_question(value: JsonView, index: nat, text: Seq<char>, id: Seq<char>)
    requires
        value.get("question"@) == Some(JsonView::Text(text)),
        !is_blank(text),
        !is_blank(id),
    ensures
        question_of(value, index) matches Some(question) && question.question == text
            && question.options == options_under(value, 4),
        value.get("id"@) == Some(JsonView::Text(id)) ==> question_of(value, index)->0.id == id
            && question_of(value, index)->0.answer_index is None,
        string_field_of(value, seq!["id"@, "questionId"@, "question_id"@, "key"@, "name"@]) is None
            ==> question_of(value, index)->0.id == "question-"@ + decimal(index + 1) && question_of(
            value,
            index,
        )->0.answer_index == Some(index),
        value.get("header"@) == Some(JsonView::Text(id)) ==> question_of(value, index)->0.header
            == id,
        value.get("isSecret"@) matches Some(JsonView::Bool(flag)) ==> question_of(
            value,
            index,
        )->0.is_secret == flag,
        value.get("isOther"@) matches Some(JsonView::Bool(flag)) ==> question_of(
            value,
            index,
        )->0.is_other == flag,
{
    let a = seq!["question"@, "prompt"@];
    let b = seq!["id"@, "questionId"@, "question_id"@, "key"@, "name"@];
    let c = seq!["header"@, "title"@, "label"@, "name"@];
    let d = seq!["isSecret"@, "is_secret"@];
    let e = seq!["isOther"@, "is_other"@];
    assert(a[0] == "question"@ && b[0] == "id"@ && c[0] == "header"@ && d[0] == "isSecret"@ && e[0]
        == "isOther"@);
}

/// The questions of a list are looked for entry by entry, in order.
pub proof fn law_questions_of_a_list(
    a: Seq<JsonView>,
    b: Seq<JsonView>,
    value: JsonView,
    found: Seq<QuestionView>,
)
    ensures
        with_questions(JsonView::Array(a + b), found) == with_questions(
            JsonView::Array(b),
            with_questions(JsonView::Array(a), found),
        ),
        with_questions(JsonView::Array(seq![value]), found) == with_questions(value, found),
        with_questions(JsonView::Array(Seq::empty()), found) == found,
    decreases b.len(),
{
    reveal_with_fuel(with_questions, 2);
    reveal_with_fuel(with_questions_of_items, 2);
    assert(seq![value].take(0) =~= Seq::empty());
    assert(seq![value][0] == value);
    assert(with_questions_of_items(seq![value].take(0), found) == found);
    assert(with_questions_of_items(seq![value], found) == with_questions(value, found));
    assert(b.len() == 0 ==> with_questions(JsonView::Array(b), with_questions(
        JsonView::Array(a),
        found,
    )) == with_questions(JsonView::Array(a), found));
    if b.len() == 0 {
        assert(a + b =~= a);
    } else {
        let front = b.take(b.len() - 1);
        law_questions_of_a_list(a, front, value, found);
        assert((a + b).take((a + b).len() - 1) =~= a + front);
        assert((a + b)[(a + b).len() - 1] == b[b.len() - 1]);
        let some = with_questions_of_items(a, found);
        assert(with_questions_of_items(a + b, found) == with_questions(
            b[b.len() - 1],
            with_questions_of_items(a + front, found),
        ));
        assert(with_questions_of_items(b, some) == with_questions(
            b[b.len() - 1],
            with_questions_of_items(front, some),
        ));
    }
}

/// Looking further takes no question back that was found before.
pub proof fn law_found_questions_stay(value: JsonView, found: Seq<QuestionView>)
    ensures
        found.is_prefix_of(with_questions(value, found)),
    decreases longest_text(value), value, 18int,
{
    assert(found.take(found.len() as int) =~= found);
    match value {
        JsonView::Array(items) => lemma_found_in_items(items, found),
        JsonView::Object(_) => {
            let more = match question_of(value, found.len()) {
                Some(question) => found.push(question),
                None => found,
            };
            lemma_found_under(value, 17, more);
            let all = with_questions(value, found);
            assert forall|i: int| 0 <= i < found.len() implies found[i] == all[i] by {
                assert(more[i] == all.take(more.len() as int)[i]);
            }
            assert(found =~= all.take(found.len() as int));
        },
        JsonView::Text(s) => {
            lemma_trim_len(s);
            if let Some(document) = embedded_document(s) {
                law_found_questions_stay(document, found);
            }
        },
        _ => {},
    }
}

proof fn lemma_found_in_items(items: Seq<JsonView>, found: Seq<QuestionView>)
    ensures
        found.is_prefix_of(with_questions_of_items(items, found)),
    decreases longest_in_items(items), items, 0int,
{
    assert(found.take(found.len() as int) =~= found);
    if items.len() > 0 {
        let front = items.take(items.len() - 1);
        lemma_found_in_items(front, found);
        let some = with_questions_of_items(front, found);
        law_found_questions_stay(items[items.len() - 1], some);
        lemma_prefix_chain(found, some, with_questions_of_items(items, found));
    }
}

proof fn lemma_found_under(value: JsonView, n: nat, found: Seq<QuestionView>)
    ensures
        found.is_prefix_of(with_questions_under(value, n, found)),
    decreases longest_text(value), value, n,
{
    assert(found.take(found.len() as int) =~= found);
    if 0 < n <= question_keys().len() {
        let key = question_keys()[n - 1];
        lemma_get_smaller(value, key);
        lemma_get_longest(value, key);
        lemma_found_under(value, (n - 1) as nat, found);
        let some = with_questions_under(value, (n - 1) as nat, found);
        if let Some(child) = value.get(key) {
            law_found_questions_stay(child, some);
            lemma_prefix_chain(found, some, with_questions_under(value, n, found));
        }
    }
}

proof fn lemma_prefix_chain(
    a: Seq<QuestionView>,
    b: Seq<QuestionView>,
    c: Seq<QuestionView>,
)
    requires
        a.is_prefix_of(b),
        b.is_prefix_of(c),
    ensures
        a.is_prefix_of(c),
{
    assert forall|i: int| 0 <= i < a.len() implies a[i] == c[i] by {
        assert(a[i] == b.take(a.len() as int)[i]);
        assert(b[i] == c.take(b.len() as int)[i]);
    }
    assert(a =~= c.take(a.len() as int));
}

/// An object that asks a question adds it behind those found before.
pub proof fn law_question_is_found(
    entries: Seq<(Seq<char>, JsonView)>,
    found: Seq<QuestionView>,
)
    ensures
        question_of(JsonView::Object(entries), found.len()) matches Some(question)
            ==> with_questions(JsonView::Object(entries), found).len() > found.len()
            && with_questions(JsonView::Object(entries), found)[found.len() as int] == question,
{
    let value = JsonView::Object(entries);
    if let Some(question) = question_of(value, found.len()) {
        let more = found.push(question);
        lemma_found_under(value, 17, more);
        let all = with_questions(value, found);
        assert(more[found.len() as int] == all.take(more.len() as int)[found.len() as int]);
    }
}

/// The questions under one of the names are looked for behind those under the names before it.
pub proof fn law_questions_under_a_name(value: JsonView, n: nat, found: Seq<QuestionView>)
    requires
        0 < n <= 17,
    ensures
        value.get(question_keys()[n - 1]) matches Some(child) ==> with_questions_under(
            value,
            n,
            found,
        ) == with_questions(child, with_questions_under(value, (n - 1) as nat, found)),
        value.get(question_keys()[n - 1]) is None ==> with_questions_under(value, n, found)
            == with_questions_under(value, (n - 1) as nat, found),
        question_keys().len() == 17,
        question_keys().contains("questions"@),
        question_keys().contains("params"@),
        question_keys().contains("request"@),
        question_keys().contains("input"@),
{
    let keys = question_keys();
    assert(keys[0] == "params"@ && keys[1] == "input"@ && keys[4] == "questions"@ && keys[5]
        == "request"@);
}

/// The decisions that a list names are those of its entries, in order; a text is itself, an object
/// the name that it gives, or itself.
pub proof fn law_listed_decisions(a: Seq<JsonView>, b: Seq<JsonView>, value: JsonView)
    ensures
        listed_decisions(JsonView::Array(a + b)) == listed_decisions(JsonView::Array(a))
            + listed_decisions(JsonView::Array(b)),
        listed_decisions(JsonView::Array(seq![value])) == listed_decisions(value),
        value matches JsonView::Text(text) ==> (!is_blank(text) ==> listed_decisions(value)
            == seq![value]),
        value is Object ==> listed_decisions(value) == seq![
            match string_field_of(value, seq!["decision"@, "action"@, "value"@, "id"@]) {
                Some(name) => JsonView::Text(name),
                None => value,
            },
        ],
    decreases b.len(),
{
    reveal_with_fuel(listed_in_items, 2);
    assert(seq![value].take(0) =~= Seq::empty());
    assert(listed_in_items(seq![value]) =~= listed_decisions(value));
    if b.len() == 0 {
        assert(a + b =~= a);
        assert(listed_in_items(a) + listed_in_items(b) =~= listed_in_items(a));
    } else {
        law_listed_decisions(a, b.take(b.len() - 1), value);
        assert((a + b).take((a + b).len() - 1) =~= a + b.take(b.len() - 1));
        assert((a + b)[(a + b).len() - 1] == b[b.len() - 1]);
        assert(listed_in_items(a + b) =~= listed_in_items(a) + listed_in_items(b));
    }
}

/// The decisions that a request allows are first those that it lists itself, then those of what is
/// nested in it.
pub proof fn law_allowed_decisions(value: JsonView, listed: JsonView)
    requires
        value is Object,
        value.get("availableDecisions"@) == Some(listed),
    ensures
        listed_decisions(listed).is_prefix_of(allowed_decisions(value)),
        value.get("available_decisions"@) is None && (forall|i: int|
            0 <= i < decision_keys().len() ==> value.get(#[trigger] decision_keys()[i]) is None)
            ==> allowed_decisions(value) == listed_decisions(listed),
{
    let own = listed_decisions(listed);
    assert(allowed_decisions(value).take(own.len() as int) =~= own);
    if value.get("available_decisions"@) is None && (forall|i: int|
        0 <= i < decision_keys().len() ==> value.get(#[trigger] decision_keys()[i]) is None) {
        lemma_nothing_under(value, 13);
        assert(allowed_decisions(value) =~= own);
    }
}

proof fn lemma_nothing_under(value: JsonView, n: nat)
    requires
        n <= 13,
        forall|i: int|
            0 <= i < decision_keys().len() ==> value.get(#[trigger] decision_keys()[i]) is None,
    ensures
        allowed_under(value, n).len() == 0,
    decreases n,
{
    if n > 0 {
        lemma_nothing_under(value, (n - 1) as nat);
        assert(value.get(decision_keys()[n - 1]) is None);
    }
}

/// A request that asks for approval becomes one for the user, with its identifier, its command and
/// its questions; it offers the decisions that it names, and the usual ones where it names none and
/// asks no question.
pub proof fn law_request_becomes_an_approval(
    method: Seq<char>,
    id: IdView,
    params: JsonView,
    text: Seq<char>,
)
    requires
        !is_blank(text),
    ensures
        approval_of(Some(method), Some(id), Some(params)) is Some <==> asks_approval(method),
        approval_of(None, Some(id), Some(params)) is None,
        approval_of(Some(method), None, Some(params)) is None,
        approval_of(Some(method), Some(id), None) is None,
        approval_of(Some(method), Some(id), Some(params)) matches Some(approval) ==> {
            &&& approval.request_id == id
            &&& approval.method == method
            &&& approval.command == command_of(params)
            &&& approval.questions == distinct_questions(with_questions(params, Seq::empty()))
            &&& (params.get("threadId"@) == Some(JsonView::Text(text)) ==> approval.thread_id
                == Some(text))
            &&& (params.get("turnId"@) == Some(JsonView::Text(text)) ==> approval.turn_id == Some(
                text,
            ))
            &&& (params.get("itemId"@) == Some(JsonView::Text(text)) ==> approval.item_id == Some(
                text,
            ))
            &&& (params.get("reason"@) == Some(JsonView::Text(text)) ==> approval.reason == text)
            &&& (params.get("cwd"@) == Some(JsonView::Text(text)) ==> approval.cwd == Some(text))
            &&& (wire_decisions(allowed_decisions(params)).len() > 0
                ==> approval.available_decisions.len() == wire_decisions(
                allowed_decisions(params),
            ).len() && forall|i: int|
                0 <= i < approval.available_decisions.len()
                    ==> #[trigger] approval.available_decisions[i] == wire_decisions(
                    allowed_decisions(params),
                )[i].0)
            &&& (wire_decisions(allowed_decisions(params)).len() == 0 && !(asks_user_input(method)
                && approval.questions.len() > 0) ==> approval.available_decisions.len() > 0)
        },
{
    let a = seq!["threadId"@, "thread_id"@];
    let b = seq!["turnId"@, "turn_id"@];
    let c = seq!["itemId"@, "item_id"@, "approvalId"@, "approval_id"@];
    let d = seq!["reason"@, "message"@, "prompt"@];
    let e = seq!["cwd"@, "workingDirectory"@, "working_directory"@];
    assert(a[0] == "threadId"@ && b[0] == "turnId"@ && c[0] == "itemId"@ && d[0] == "reason"@
        && e[0] == "cwd"@);
}

/// The usual decisions are to accept, to decline and to cancel; a command may be accepted for the
/// session, an answer of the user may not.
pub proof fn law_usual_decisions(method: Seq<char>)
    ensures
        default_decisions(method).contains(CodexApprovalDecision::Accept),
        default_decisions(method).contains(CodexApprovalDecision::Decline),
        default_decisions(method).contains(CodexApprovalDecision::Cancel),
        default_decisions(method).contains(CodexApprovalDecision::AcceptForSession)
            <==> !asks_user_input(method),
        default_decisions(method)[0] == CodexApprovalDecision::Accept,
        !default_decisions(method).contains(CodexApprovalDecision::AcceptForPrefix),
        default_decisions(method).no_duplicates(),
{
    let all = default_decisions(method);
    if asks_user_input(method) {
        assert(all[0] == CodexApprovalDecision::Accept && all[1] == CodexApprovalDecision::Decline
            && all[2] == CodexApprovalDecision::Cancel);
    } else {
        assert(all[0] == CodexApprovalDecision::Accept && all[1]
            == CodexApprovalDecision::AcceptForSession && all[2] == CodexApprovalDecision::Decline
            && all[3] == CodexApprovalDecision::Cancel);
    }
}

/// A method asks for approval where its name holds one of the words for that.
pub proof fn law_methods_that_ask(method: Seq<char>)
    ensures
        asks_approval(method) <==> contains_text(normalized_identifier(method), "requestapproval"@)
            || contains_text(normalized_identifier(method), "execapprovalrequest"@)
            || contains_text(normalized_identifier(method), "applypatchapprovalrequest"@)
            || contains_text(normalized_identifier(method), "requestpermissions"@)
            || asks_user_input(method),
        asks_user_input(method) <==> contains_text(
            normalized_identifier(method),
            "requestuserinput"@,
        ),
{
}

/// Where one question offers options, the card offers each of them, in order, as an answer to that
/// question; else it offers the decisions, in order.
pub proof fn law_controls_of_a_card(approval: ApprovalView, question: QuestionView)
    ensures
        approval.questions == seq![question] && question.options.len() > 0
            ==> approval.controls().len() == question.options.len() && forall|i: int|
            0 <= i < question.options.len() ==> #[trigger] approval.controls()[i] == (
            ControlView::Answer {
                question_id: question.id,
                label: question.options[i].label,
                description: question.options[i].description,
            }),
        approval.questions.len() == 0 && approval.available_decisions.len() > 0
            ==> approval.controls().len() == approval.available_decisions.len() && forall|i: int|
            0 <= i < approval.available_decisions.len() ==> #[trigger] approval.controls()[i]
                == ControlView::Decision(approval.available_decisions[i]),
{
    reveal(Seq::filter);
    let offers = |q: QuestionView| q.options.len() > 0;
    if approval.questions == seq![question] && question.options.len() > 0 {
        assert(approval.questions.drop_last() =~= Seq::empty());
        assert(approval.questions.drop_last().filter(offers) =~= Seq::empty());
        assert(approval.option_questions() =~= seq![question]);
    }
    if approval.questions.len() == 0 {
        assert(approval.option_questions() =~= Seq::empty());
    }
}

/// What the user decides is what is sent: the value that the request named for the decision, else
/// the decision's own name.
pub proof fn law_decision_is_sent(
    approval: ApprovalView,
    decision: CodexApprovalDecision,
    i: int,
)
    ensures
        approval.approval_result(decision).get("decision"@) == Some(approval.wire_value(decision)),
        !decides(approval.wire_values, decision) ==> approval.wire_value(decision)
            == JsonView::Text(decision_wire_name(decision)),
        0 <= i < approval.wire_values.len() && approval.wire_values[i].0 == decision && (forall|
            j: int,
        |
            0 <= j < i ==> (#[trigger] approval.wire_values[j]).0 != decision)
            ==> approval.wire_value(decision) == approval.wire_values[i].1,
{
    lemma_first_sent(approval.wire_values, decision, i);
}

proof fn lemma_first_sent(pairs: WireDecisions, decision: CodexApprovalDecision, i: int)
    ensures
        !decides(pairs, decision) ==> first_wire_value(pairs, decision) is None,
        0 <= i < pairs.len() && pairs[i].0 == decision && (forall|j: int|
            0 <= j < i ==> (#[trigger] pairs[j]).0 != decision) ==> first_wire_value(
            pairs,
            decision,
        ) == Some(pairs[i].1),
    decreases pairs.len(),
{
    if pairs.len() > 0 {
        let rest = pairs.skip(1);
        lemma_first_sent(rest, decision, i - 1);
        if !decides(pairs, decision) {
            assert(pairs[0].0 != decision);
            if decides(rest, decision) {
                let k = choose|k: int| 0 <= k < rest.len() && (#[trigger] rest[k]).0 == decision;
                assert(pairs[k + 1] == rest[k]);
            }
        }
        if 0 < i < pairs.len() {
            assert(pairs[i] == rest[i - 1]);
            assert(forall|j: int| 0 <= j < i - 1 ==> rest[j] == #[trigger] pairs[j + 1]);
            if forall|j: int| 0 <= j < i ==> (#[trigger] pairs[j]).0 != decision {
                assert forall|j: int| 0 <= j < i - 1 implies (#[trigger] rest[j]).0
                    != decision by {
                    assert(rest[j] == pairs[j + 1]);
                }
                assert(pairs[0].0 != decision);
            }
        }
    }
}

/// The answer of the user is sent under the question's name where it has one, else in the place of
/// the question, with no answers before it; a question that was not asked is not answered.
pub proof fn law_answer_is_sent(
    approval: ApprovalView,
    question: QuestionView,
    answer: Seq<char>,
)
    requires
        question_with_id(approval.questions, question.id) == Some(question),
    ensures
        question.answer_index is None ==> (approval.user_input_result(
            question.id,
            answer,
        ) matches Some(
            sent,
        ) && sent.get("answers"@) matches Some(answers) && answers.get(question.id) matches Some(
            record,
        ) && record.get("answers"@) == Some(JsonView::Array(seq![JsonView::Text(answer)]))),
        question.answer_index matches Some(index) ==> (approval.user_input_result(
            question.id,
            answer,
        ) matches Some(sent) && sent.get("answers"@) matches Some(JsonView::Array(records))
            && records.len() == index + 1 && records[index as int].get("answers"@) == Some(
            JsonView::Array(seq![JsonView::Text(answer)]),
        ) && forall|i: int|
            0 <= i < index ==> (#[trigger] records[i]).get("answers"@) == Some(
                JsonView::Array(Seq::empty()),
            )),
{
    let texts = seq![answer].map_values(|a: Seq<char>| JsonView::Text(a));
    assert(texts =~= seq![JsonView::Text(answer)]);
    let none = Seq::<Seq<char>>::empty().map_values(|a: Seq<char>| JsonView::Text(a));
    assert(none =~= Seq::empty());
}

/// A question is found by its name: the first that has it.
pub proof fn law_question_by_name(questions: Seq<QuestionView>, id: Seq<char>)
    ensures
        match question_with_id(questions, id) {
            Some(question) => exists|i: int|
                0 <= i < questions.len() && #[trigger] questions[i] == question && question.id == id
                    && forall|j: int| 0 <= j < i ==> (#[trigger] questions[j]).id != id,
            None => forall|i: int| 0 <= i < questions.len() ==> (#[trigger] questions[i]).id != id,
        },
    decreases questions.len(),
{
    if questions.len() > 0 {
        let rest = questions.skip(1);
        law_question_by_name(rest, id);
        if questions[0].id == id {
            assert(questions[0] == question_with_id(questions, id)->0);
        } else {
            match question_with_id(rest, id) {
                Some(question) => {
                    let i = choose|i: int|
                        0 <= i < rest.len() && #[trigger] rest[i] == question && question.id == id
                            && forall|j: int| 0 <= j < i ==> (#[trigger] rest[j]).id != id;
                    assert(questions[i + 1] == question);
                    assert forall|j: int| 0 <= j < i + 1 implies (#[trigger] questions[j]).id
                        != id by {
                        if j > 0 {
                            assert(rest[j - 1] == questions[j]);
                        }
                    }
                },
                None => {
                    assert forall|j: int| 0 <= j < questions.len() implies (
                    #[trigger] questions[j]).id != id by {
                        if j > 0 {
                            assert(rest[j - 1] == questions[j]);
                        }
                    }
                },
            }
        }
    }
}

/// A card says what the request says: the question where there is one, else the reason, which is
/// kept as it is unless it says nothing.
pub proof fn law_message_of_a_card(approval: ApprovalView, question: QuestionView)
    ensures
        approval.questions == seq![question] && !is_blank(question.question) && !is_generic_reason(
            question.question,
        ) ==> approval.message() == question.question,
        approval.questions.len() == 0 && !is_generic_reason(approval.reason) ==> approval.message()
            == approval.reason,
        approval.questions == seq![question] && !is_blank(question.header) ==> approval.title()
            == question.header,
        approval.questions.len() == 0 ==> approval.title() == "Codex needs approval"@,
{
}

/// A text holds a document exactly where it starts as an object or a list does and can be read,
/// and no text in the document is as long as the whole.
pub proof fn law_document_in_a_text(text: Seq<char>)
    ensures
        trim(text).len() == 0 ==> embedded_document(text) is None,
        trim(text).len() > 0 && trim(text)[0] != '{' && trim(text)[0] != '[' ==> embedded_document(
            text,
        ) is None,
        trim(text).len() > 0 && trim(text)[0] == '{' ==> (json_parse(trim(text)) matches Ok(value)
            ==> (
                longest_text(value) < trim(text).len() ==> embedded_document(text) == Some(value)
            )),
        trim(text).len() > 0 && trim(text)[0] == '[' ==> (json_parse(trim(text)) matches Ok(value)
            ==> (
                longest_text(value) < trim(text).len() ==> embedded_document(text) == Some(value)
            )),
        json_parse(trim(text)) is Err ==> embedded_document(text) is None,
{
}

} // verus!
