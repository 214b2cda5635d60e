//! What holds of the conversation that mirrors an OpenCode session.
use crate::conversation::{AIConversationId, ExternalAgentConversationProvider};
use crate::opencode_server::history::{
    TurnView, answer_parts, answer_text, last_answer, prompt_answer, session_conversation,
    session_milliseconds, session_turns, session_updated, time_of_session,
};
use crate::opencode_server::types::{MessageView, SessionDetailView};
use crate::text::{is_blank, join};
use crate::time::Timestamp;
use vstd::prelude::*;

verus! {

/// The items that say something and are not the user's, in order.
pub open spec fn answering(items: Seq<MessageView>) -> Seq<MessageView> {
    items.filter(|i: MessageView| i.role != "user"@ && !is_blank(i.text))
}

/// The answer holds one paragraph for each item that is neither the user's nor blank, in order: the
/// assistant's text as it is, that of others behind their role.
pub proof fn law_answer_holds_every_item(items: Seq<MessageView>)
    ensures
        answer_parts(items).len() == answering(items).len(),
        forall|i: int|
            0 <= i < answering(items).len() ==> answer_parts(items)[i] == (if (
            #[trigger] answering(items)[i]).role == "assistant"@ {
                answering(items)[i].text
            } else {
                answering(items)[i].role + ": "@ + answering(items)[i].text
            }),
        answer_text(items) == join(answer_parts(items), "\n\n"@),
    decreases items.len(),
{
    reveal(Seq::filter);
    if items.len() > 0 {
        let front = items.drop_last();
        let item = items.last();
        law_answer_holds_every_item(front);
        let before = answering(front);
        let all = answering(items);
        if item.role != "user"@ && !is_blank(item.text) {
            assert(all =~= before.push(item));
        } else {
            assert(all == before);
        }
        assert forall|i: int| 0 <= i < all.len() implies answer_parts(items)[i] == (if (
        #[trigger] all[i]).role == "assistant"@ {
            all[i].text
        } else {
            all[i].role + ": "@ + all[i].text
        }) by {
            if i < before.len() {
                assert(before[i] == all[i]);
                assert(answer_parts(items)[i] == answer_parts(front)[i]);
            }
        }
    }
}

/// A question and the items behind it, up to the next question, are one turn.
pub proof fn law_question_opens_a_turn(
    before: Seq<MessageView>,
    question: MessageView,
    answers: Seq<MessageView>,
)
    requires
        question.role == "user"@,
        forall|i: int| 0 <= i < answers.len() ==> (#[trigger] answers[i]).role != "user"@,
    ensures
        session_turns(before.push(question) + answers) == session_turns(before).push(
            TurnView { query: Some(question.text), items: answers },
        ),
    decreases answers.len(),
{
    let asked = before.push(question);
    if answers.len() == 0 {
        assert(answers =~= Seq::empty());
        assert(asked + answers =~= asked);
        assert(asked.drop_last() =~= before);
        assert(session_turns(asked) =~= session_turns(before).push(
            TurnView { query: Some(question.text), items: answers },
        ));
    } else {
        let front = answers.drop_last();
        assert forall|i: int| 0 <= i < front.len() implies (#[trigger] front[i]).role
            != "user"@ by {
            assert(front[i] == answers[i]);
        }
        law_question_opens_a_turn(before, question, front);
        assert((asked + answers).drop_last() =~= asked + front);
        assert((asked + answers).last() == answers[answers.len() - 1]);
        assert(front.push(answers.last()) =~= answers);
        let turns = session_turns(asked + front);
        assert(turns.drop_last() =~= session_turns(before));
    }
}

/// Items before the first question are one turn without a question.
pub proof fn law_items_before_a_question(answers: Seq<MessageView>)
    requires
        answers.len() > 0,
        forall|i: int| 0 <= i < answers.len() ==> (#[trigger] answers[i]).role != "user"@,
    ensures
        session_turns(answers) == seq![TurnView { query: None, items: answers }],
    decreases answers.len(),
{
    reveal_with_fuel(session_turns, 2);
    let front = answers.drop_last();
    assert(answers[answers.len() - 1].role != "user"@);
    if front.len() == 0 {
        assert(front =~= Seq::empty());
        assert(seq![answers.last()] =~= answers);
    } else {
        assert forall|i: int| 0 <= i < front.len() implies (#[trigger] front[i]).role
            != "user"@ by {
            assert(front[i] == answers[i]);
        }
        law_items_before_a_question(front);
        assert(front.push(answers.last()) =~= answers);
        assert(session_turns(front).drop_last() =~= Seq::empty());
        assert(session_turns(answers) =~= seq![TurnView { query: None, items: answers }]);
    }
}

/// The answer to a question is that of the last turn that asks it.
pub proof fn law_last_answer(turns: Seq<TurnView>, question: Seq<char>)
    ensures
        match last_answer(turns, question) {
            Some(items) => exists|i: int|
                0 <= i < turns.len() && (#[trigger] turns[i]).query == Some(question)
                    && turns[i].items == items && forall|j: int|
                    i < j < turns.len() ==> (#[trigger] turns[j]).query != Some(question),
            None => forall|i: int|
                0 <= i < turns.len() ==> (#[trigger] turns[i]).query != Some(question),
        },
    decreases turns.len(),
{
    if turns.len() > 0 {
        let n = turns.len() - 1;
        if turns[n].query != Some(question) {
            let front = turns.drop_last();
            law_last_answer(front, question);
            if last_answer(front, question) is Some {
                let i = choose|i: int|
                    0 <= i < front.len() && (#[trigger] front[i]).query == Some(question)
                        && front[i].items == last_answer(front, question)->0 && forall|j: int|
                        i < j < front.len() ==> (#[trigger] front[j]).query != Some(question);
                assert(turns[i] == front[i]);
                assert forall|j: int| i < j < turns.len() implies (#[trigger] turns[j]).query
                    != Some(question) by {
                    if j < n {
                        assert(turns[j] == front[j]);
                    }
                }
            } else {
                assert forall|i: int| 0 <= i < turns.len() implies (#[trigger] turns[i]).query
                    != Some(question) by {
                    if i < n {
                        assert(turns[i] == front[i]);
                    }
                }
            }
        } else {
            assert(turns[n].items == last_answer(turns, question)->0);
        }
    }
}

/// The session's own answer to a prompt goes before what the server answered at once, where it says
/// anything.
pub proof fn law_prompt_answer(
    output_items: Seq<MessageView>,
    before: Seq<MessageView>,
    prompt: MessageView,
    answers: Seq<MessageView>,
    detail: SessionDetailView,
)
    requires
        prompt.role == "user"@,
        forall|i: int| 0 <= i < answers.len() ==> (#[trigger] answers[i]).role != "user"@,
        detail.items == before.push(prompt) + answers,
    ensures
        prompt_answer(output_items, Some(detail), prompt.text) == (if is_blank(
            answer_text(answers),
        ) {
            answer_text(output_items)
        } else {
            answer_text(answers)
        }),
        prompt_answer(output_items, None, prompt.text) == answer_text(output_items),
{
    law_question_opens_a_turn(before, prompt, answers);
}

/// The conversation mirrors the session: an exchange for each turn, in order, with the turn's
/// question and its answer, in the session's directory and at its time; one exchange that says so
/// where the session holds nothing.
pub proof fn law_conversation_mirrors_session(
    id: AIConversationId,
    detail: SessionDetailView,
    now: Timestamp,
    i: int,
)
    requires
        0 <= i < session_turns(detail.items).len(),
    ensures
        session_conversation(id, detail, now).id == id,
        session_conversation(id, detail, now).fallback_display_title == detail.summary.title,
        session_conversation(id, detail, now).exclude_from_navigation,
        session_conversation(id, detail, now).provider == Some(
            ExternalAgentConversationProvider::OpenCode,
        ),
        session_conversation(id, detail, now).exchanges.len() == session_turns(detail.items).len(),
        session_conversation(id, detail, now).exchanges[i].query == session_turns(
            detail.items,
        )[i].query,
        session_conversation(id, detail, now).exchanges[i].working_directory
            == detail.summary.directory,
        session_conversation(id, detail, now).exchanges[i].start_time == (match session_updated(
            detail.summary,
        ) {
            Some(time) => time,
            None => now,
        }),
        session_conversation(id, detail, now).exchanges[i].output == (if is_blank(
            answer_text(session_turns(detail.items)[i].items),
        ) {
            None
        } else {
            Some(answer_text(session_turns(detail.items)[i].items))
        }),
{
}

/// A session without items is shown with one exchange, which says that there is nothing.
pub proof fn law_empty_session(id: AIConversationId, detail: SessionDetailView, now: Timestamp)
    requires
        detail.items.len() == 0,
    ensures
        session_conversation(id, detail, now).exchanges.len() == 1,
        session_conversation(id, detail, now).exchanges[0].query is None,
        session_conversation(id, detail, now).exchanges[0].output == Some(
            "No messages were returned for this OpenCode conversation."@,
        ),
{
}

/// A time below ten thousand million counts seconds, any other milliseconds, and the point in time
/// is exactly as many of them from the start of 1970.
pub proof fn law_session_time(timestamp: i64)
    ensures
        time_of_session(timestamp) matches Some(time) ==> time.nanos < 1000000000 && time.seconds
            * 1000 + time.nanos / 1000000 == (if -10000000000 < timestamp < 10000000000 {
            timestamp * 1000
        } else {
            timestamp as int
        }) && time.nanos % 1000000 == 0,
        -8334601228 <= timestamp <= 8210266876 ==> time_of_session(timestamp) == Some(
            Timestamp { seconds: timestamp, nanos: 0 },
        ),
        10000000000 <= timestamp < 8210266876800000 ==> time_of_session(timestamp) is Some,
{
    let ms = session_milliseconds(timestamp);
    assert(ms == (ms / 1000) * 1000 + ms % 1000);
    if -10000000000 < timestamp < 10000000000 {
        assert((timestamp * 1000) / 1000 == timestamp);
        assert((timestamp * 1000) % 1000 == 0);
    }
}

} // verus!
