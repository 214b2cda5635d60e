//! What holds of Codex requests and transcripts as a whole.
use crate::codex_app_server::approval::{
    CodexApprovalDecision, QuestionView, asks, decision_of_name, decision_wire_name,
    distinct_questions, question_key,
};
use crate::codex_app_server::fields::{is_alphanumeric, normalized_identifier};
use crate::codex_app_server::request::{
    ApprovalView, WireDecisions, decides, decision_of_value, decisions_in, first_wire_value,
    wire_decisions,
};
use crate::codex_app_server::transcript::{
    agent_text, command_of_item, completed_command, is_completed_role, is_delta_role,
    is_output_role, is_user_role, squeezed, transcript,
};
use crate::codex_app_server::types::ItemView;
use crate::json::JsonView;
use crate::text::{is_blank, is_space, lower};
use vstd::prelude::*;

verus! {

/// An approval card is never dead: it always has a control.
pub proof fn law_card_has_controls(approval: ApprovalView)
    ensures
        approval.controls().len() > 0,
{
    let offers = |q: QuestionView| q.options.len() > 0;
    if approval.option_questions().len() == 1 {
        approval.questions.lemma_filter_pred(offers, 0);
    }
}

proof fn lemma_identifier_kept(s: Seq<char>)
    requires
        forall|i: int| 0 <= i < s.len() ==> is_alphanumeric(#[trigger] s[i]),
    ensures
        s.filter(|c: char| is_alphanumeric(c)) == s,
    decreases s.len(),
{
    reveal(Seq::filter);
    if s.len() > 0 {
        lemma_identifier_kept(s.drop_last());
        assert(s.drop_last().push(s.last()) =~= s);
    }
}

/// The name that is sent for a decision is read as that decision.
pub proof fn law_wire_name_reads_back(decision: CodexApprovalDecision)
    ensures
        decision_of_name(decision_wire_name(decision)) == Some(decision),
{
    reveal_strlit("accept");
    reveal_strlit("approve");
    reveal_strlit("allow");
    reveal_strlit("yes");
    reveal_strlit("acceptForSession");
    reveal_strlit("acceptforsession");
    reveal_strlit("approveforsession");
    reveal_strlit("allowforsession");
    reveal_strlit("applynetworkpolicyamendment");
    reveal_strlit("acceptForPrefix");
    reveal_strlit("acceptforprefix");
    reveal_strlit("approveforprefix");
    reveal_strlit("allowforprefix");
    reveal_strlit("acceptwithexecpolicyamendment");
    reveal_strlit("decline");
    reveal_strlit("deny");
    reveal_strlit("reject");
    reveal_strlit("no");
    reveal_strlit("cancel");
    reveal_strlit("abort");
    let name = decision_wire_name(decision);
    lemma_identifier_kept(name);
    let id = normalized_identifier(name);
    assert(id == lower(name));
    match decision {
        CodexApprovalDecision::Accept => {
            assert(id =~= "accept"@);
        },
        CodexApprovalDecision::AcceptForSession => {
            assert(id =~= "acceptforsession"@);
            assert(id.len() == 16);
        },
        CodexApprovalDecision::AcceptForPrefix => {
            assert(id =~= "acceptforprefix"@);
            assert(id.len() == 15);
            assert(id[1] != "allowforsession"@[1]);
        },
        CodexApprovalDecision::Decline => {
            assert(id =~= "decline"@);
            assert(id[0] != "approve"@[0]);
        },
        CodexApprovalDecision::Cancel => {
            assert(id =~= "cancel"@);
            assert(id[0] != "accept"@[0]);
            assert(id[0] != "reject"@[0]);
        },
    }
}

/// The controls never offer a decision twice because a request named it twice.
pub proof fn law_decisions_distinct(values: Seq<JsonView>)
    ensures
        decisions_in(wire_decisions(values)).no_duplicates(),
    decreases values.len(),
{
    if values.len() > 0 {
        let before = wire_decisions(values.drop_last());
        law_decisions_distinct(values.drop_last());
        let all = wire_decisions(values);
        if all.len() > before.len() {
            let decision = decision_of_value(values.last())->0;
            assert forall|i: int, j: int|
                0 <= i < decisions_in(all).len() && 0 <= j < decisions_in(all).len() && i
                    != j implies decisions_in(all)[i] != decisions_in(all)[j] by {
                if i < before.len() && j < before.len() {
                    assert(decisions_in(before)[i] == all[i].0);
                    assert(decisions_in(before)[j] == all[j].0);
                } else if i < before.len() {
                    assert(before[i].0 != decision);
                } else {
                    assert(before[j].0 != decision);
                }
            }
        }
    }
}

/// The value that is sent for a decision which the request names is one that the request named
/// for it.
pub proof fn law_reply_sends_named_value(values: Seq<JsonView>, decision: CodexApprovalDecision)
    ensures
        match first_wire_value(wire_decisions(values), decision) {
            Some(value) => values.contains(value) && decision_of_value(value) == Some(decision),
            None => forall|i: int|
                0 <= i < values.len() ==> decision_of_value(#[trigger] values[i]) != Some(decision),
        },
    decreases values.len(),
{
    if values.len() > 0 {
        let before = wire_decisions(values.drop_last());
        law_reply_sends_named_value(values.drop_last(), decision);
        lemma_first_wire_value(before, decision);
        if first_wire_value(before, decision) is Some {
            let value = first_wire_value(before, decision)->0;
            let i = choose|i: int|
                0 <= i < values.drop_last().len() && values.drop_last()[i] == value;
            assert(values[i] == value);
            assert(wire_decisions(values).len() > before.len() ==> wire_decisions(values) == before.push(
                (decision_of_value(values.last())->0, values.last()),
            ));
            lemma_first_wire_value_push(
                before,
                (decision_of_value(values.last())->0, values.last()),
                decision,
            );
        } else {
            if decision_of_value(values.last()) == Some(decision) {
                lemma_first_wire_value_push(before, (decision, values.last()), decision);
                assert(values[values.len() - 1] == values.last());
            } else {
                lemma_first_wire_value_push(
                    before,
                    (decision_of_value(values.last())->0, values.last()),
                    decision,
                );
                assert forall|i: int| 0 <= i < values.len() implies decision_of_value(
                    #[trigger] values[i],
                ) != Some(decision) by {
                    if i < values.len() - 1 {
                        assert(values.drop_last()[i] == values[i]);
                    }
                }
            }
        }
    }
}

proof fn lemma_first_wire_value(pairs: WireDecisions, decision: CodexApprovalDecision)
    ensures
        first_wire_value(pairs, decision) is Some <==> decides(pairs, decision),
    decreases pairs.len(),
{
    if pairs.len() > 0 {
        lemma_first_wire_value(pairs.skip(1), decision);
        if pairs[0].0 != decision {
            if decides(pairs, decision) {
                let i = choose|i: int| 0 <= i < pairs.len() && (#[trigger] pairs[i]).0 == decision;
                assert(pairs.skip(1)[i - 1].0 == decision);
            }
            if decides(pairs.skip(1), decision) {
                let i = choose|i: int|
                    0 <= i < pairs.skip(1).len() && (#[trigger] pairs.skip(1)[i]).0 == decision;
                assert(pairs[i + 1].0 == decision);
            }
        }
    }
}

proof fn lemma_first_wire_value_push(
    pairs: WireDecisions,
    pair: (CodexApprovalDecision, JsonView),
    decision: CodexApprovalDecision,
)
    ensures
        first_wire_value(pairs.push(pair), decision) == (match first_wire_value(pairs, decision) {
            Some(value) => Some(value),
            None => if pair.0 == decision {
                Some(pair.1)
            } else {
                None
            },
        }),
    decreases pairs.len(),
{
    reveal_with_fuel(first_wire_value, 2);
    if pairs.len() > 0 {
        lemma_first_wire_value_push(pairs.skip(1), pair, decision);
        assert(pairs.push(pair).skip(1) =~= pairs.skip(1).push(pair));
    } else {
        assert(pairs.push(pair).skip(1) =~= Seq::empty());
    }
}

/// A request never asks the same question twice.
pub proof fn law_questions_distinct(questions: Seq<QuestionView>)
    ensures
        forall|i: int, j: int|
            0 <= i < j < distinct_questions(questions).len() ==> question_key(
                #[trigger] distinct_questions(questions)[i],
            ) != question_key(#[trigger] distinct_questions(questions)[j]),
    decreases questions.len(),
{
    if questions.len() > 0 {
        law_questions_distinct(questions.drop_last());
        let before = distinct_questions(questions.drop_last());
        let all = distinct_questions(questions);
        assert forall|i: int, j: int| 0 <= i < j < all.len() implies question_key(
            #[trigger] all[i],
        ) != question_key(#[trigger] all[j]) by {
            if j < before.len() {
                assert(all[i] == before[i] && all[j] == before[j]);
            } else {
                assert(all[i] == before[i]);
                assert(!asks(before, question_key(questions.last())));
            }
        }
    }
}

/// Every question that a request states is asked, in itself or in one with the same key.
pub proof fn law_no_question_lost(questions: Seq<QuestionView>, i: int)
    requires
        0 <= i < questions.len(),
    ensures
        asks(distinct_questions(questions), question_key(questions[i])),
    decreases questions.len(),
{
    let before = distinct_questions(questions.drop_last());
    let all = distinct_questions(questions);
    let key = question_key(questions[i]);
    if i < questions.len() - 1 {
        law_no_question_lost(questions.drop_last(), i);
        let k = choose|k: int| 0 <= k < before.len() && question_key(#[trigger] before[k]) == key;
        assert(all[k] == before[k]);
    } else if !asks(before, key) {
        assert(all[all.len() - 1] == questions.last());
    }
}

/// What the user said, and blank items, leave no trace in the agent's text.
pub proof fn law_user_items_left_out(items: Seq<ItemView>)
    ensures
        agent_text(items) == agent_text(
            items.filter(|i: ItemView| !is_user_role(i.role) && !is_blank(i.text)),
        ),
{
    lemma_user_items_left_out(items);
}

proof fn lemma_user_items_left_out(items: Seq<ItemView>)
    ensures
        transcript(items) == transcript(
            items.filter(|i: ItemView| !is_user_role(i.role) && !is_blank(i.text)),
        ),
    decreases items.len(),
{
    reveal(Seq::filter);
    let speaks = |i: ItemView| !is_user_role(i.role) && !is_blank(i.text);
    if items.len() > 0 {
        lemma_user_items_left_out(items.drop_last());
        let kept = items.drop_last().filter(speaks);
        if speaks(items.last()) {
            assert(kept.push(items.last()).drop_last() =~= kept);
        }
    }
}

/// The texts of the items, one after the other.
pub open spec fn texts_joined(items: Seq<ItemView>) -> Seq<char>
    decreases items.len(),
{
    if items.len() == 0 {
        Seq::empty()
    } else {
        texts_joined(items.drop_last()) + items.last().text
    }
}

/// The item is a fragment of a message that says something.
pub open spec fn is_fragment(item: ItemView) -> bool {
    is_delta_role(item.role) && !is_user_role(item.role) && !is_blank(item.text)
}

proof fn lemma_fragments_gather(items: Seq<ItemView>)
    requires
        forall|i: int| 0 <= i < items.len() ==> is_fragment(#[trigger] items[i]),
    ensures
        transcript(items).parts.len() == 0,
        transcript(items).output.len() == 0,
        transcript(items).last is None,
        transcript(items).delta == texts_joined(items),
        items.len() > 0 ==> !is_blank(texts_joined(items)),
    decreases items.len(),
{
    if items.len() > 0 {
        assert forall|i: int| 0 <= i < items.drop_last().len() implies is_fragment(
            #[trigger] items.drop_last()[i],
        ) by {
            assert(items.drop_last()[i] == items[i]);
        }
        lemma_fragments_gather(items.drop_last());
        assert(is_fragment(items[items.len() - 1]));
        let text = items.last().text;
        let i = choose|i: int| 0 <= i < text.len() && !is_space(#[trigger] text[i]);
        let before = texts_joined(items.drop_last());
        assert(texts_joined(items)[before.len() + i] == text[i]);
    }
}

/// Streamed fragments are joined without anything between them.
pub proof fn law_fragments_joined(items: Seq<ItemView>)
    requires
        forall|i: int| 0 <= i < items.len() ==> is_fragment(#[trigger] items[i]),
    ensures
        agent_text(items) == texts_joined(items),
{
    lemma_fragments_gather(items);
    let last = transcript(items);
    assert(is_blank(last.output));
    if items.len() > 0 {
        assert(last.flush().parts =~= seq![texts_joined(items)]);
        assert(last.flush().parts.drop_last() =~= Seq::empty());
    } else {
        assert(is_blank(last.delta));
        assert(last.flush().parts =~= Seq::empty());
        assert(agent_text(items) =~= texts_joined(items));
    }
}

/// A completed message that repeats the fragments streamed before it is not shown again.
pub proof fn law_completed_duplicate_skipped(items: Seq<ItemView>, completed: ItemView)
    requires
        items.len() > 0,
        forall|i: int| 0 <= i < items.len() ==> is_fragment(#[trigger] items[i]),
        is_completed_role(completed.role),
        !is_delta_role(completed.role),
        !is_output_role(completed.role),
        completed_command(completed) is None,
        command_of_item(completed) is None,
        squeezed(completed.text) == squeezed(texts_joined(items)),
    ensures
        agent_text(items.push(completed)) == texts_joined(items),
{
    lemma_fragments_gather(items);
    law_fragments_joined(items);
    assert(items.push(completed).drop_last() =~= items);
    assert(transcript(items.push(completed)) == transcript(items));
}

/// A completed message that nothing was streamed of is shown as it is.
pub proof fn law_completed_alone_shown(completed: ItemView)
    requires
        is_completed_role(completed.role),
        !is_user_role(completed.role),
        !is_blank(completed.text),
        !is_delta_role(completed.role),
        !is_output_role(completed.role),
        completed_command(completed) is None,
        command_of_item(completed) is None,
    ensures
        agent_text(seq![completed]) == completed.text,
{
    let start = transcript(Seq::empty());
    assert(seq![completed].drop_last() =~= Seq::empty());
    assert(start.flush().parts =~= Seq::empty());
    let done = transcript(seq![completed]);
    assert(done == start.step(completed));
    assert(done.flush().parts =~= seq![completed.text]);
}

} // verus!
