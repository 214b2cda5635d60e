//! What holds of the conversation that mirrors a Codex thread.
use crate::codex_app_server::history::{Turn, codex_time, conversation_of, turns_of, updated_time};
use crate::codex_app_server::transcript::{agent_text, is_user_role};
use crate::codex_app_server::types::{DetailView, ItemView};
use crate::conversation::AIConversationId;
use crate::text::{i64_of, is_blank};
use crate::time::{Timestamp, rfc3339_time};
use vstd::prelude::*;

verus! {

/// A question and the items behind it, up to the next question, are one turn.
pub proof fn law_question_opens_a_thread_turn(
    before: Seq<ItemView>,
    question: ItemView,
    answers: Seq<ItemView>,
)
    requires
        is_user_role(question.role),
        forall|i: int| 0 <= i < answers.len() ==> !is_user_role((#[trigger] answers[i]).role),
    ensures
        turns_of(before.push(question) + answers) == turns_of(before).push(
            Turn { query: Some(question.text), items: answers },
        ),
    decreases answers.len(),
{
    let asked = before.push(question);
    if answers.len() == 0 {
        assert(answers =~= Seq::empty());
        assert(asked + answers =~= asked);
        assert(asked.drop_last() =~= before);
        assert(turns_of(asked) =~= turns_of(before).push(
            Turn { query: Some(question.text), items: answers },
        ));
    } else {
        let front = answers.drop_last();
        assert forall|i: int| 0 <= i < front.len() implies !is_user_role(
            (#[trigger] front[i]).role
        ) by {
            assert(front[i] == answers[i]);
        }
        law_question_opens_a_thread_turn(before, question, front);
        assert((asked + answers).drop_last() =~= asked + front);
        assert((asked + answers).last() == answers[answers.len() - 1]);
        assert(!is_user_role(answers[answers.len() - 1].role));
        assert(front.push(answers.last()) =~= answers);
        let turns = turns_of(asked + front);
        assert(turns.drop_last() =~= turns_of(before));
    }
}

/// Items before the first question are one turn without a question.
pub proof fn law_thread_items_before_a_question(answers: Seq<ItemView>)
    requires
        answers.len() > 0,
        forall|i: int| 0 <= i < answers.len() ==> !is_user_role((#[trigger] answers[i]).role),
    ensures
        turns_of(answers) == seq![Turn { query: None, items: answers }],
    decreases answers.len(),
{
    reveal_with_fuel(turns_of, 2);
    let front = answers.drop_last();
    assert(!is_user_role(answers[answers.len() - 1].role));
    if front.len() == 0 {
        assert(front =~= Seq::empty());
        assert(seq![answers.last()] =~= answers);
    } else {
        assert forall|i: int| 0 <= i < front.len() implies !is_user_role(
            (#[trigger] front[i]).role
        ) by {
            assert(front[i] == answers[i]);
        }
        law_thread_items_before_a_question(front);
        assert(front.push(answers.last()) =~= answers);
        assert(turns_of(front).drop_last() =~= Seq::empty());
        assert(turns_of(answers) =~= seq![Turn { query: None, items: answers }]);
    }
}

/// The conversation mirrors the thread: an exchange for each turn, in order, with the turn's
/// question and its answer, in the thread's directory and at its time; one exchange that says so
/// where the thread holds nothing.
pub proof fn law_conversation_mirrors_thread(
    id: AIConversationId,
    detail: DetailView,
    now: Timestamp,
    i: int,
)
    requires
        0 <= i < turns_of(detail.items).len(),
    ensures
        conversation_of(id, detail, now).id == id,
        conversation_of(id, detail, now).fallback_display_title == detail.summary.title,
        conversation_of(id, detail, now).exclude_from_navigation,
        conversation_of(id, detail, now).exchanges.len() == turns_of(detail.items).len(),
        conversation_of(id, detail, now).exchanges[i].query == turns_of(
            detail.items,
        )[i].query,
        conversation_of(id, detail, now).exchanges[i].working_directory
            == detail.summary.cwd,
        conversation_of(id, detail, now).exchanges[i].start_time == (match updated_time(
            detail.summary,
        ) {
            Some(time) => time,
            None => now,
        }),
        conversation_of(id, detail, now).exchanges[i].output == (if is_blank(
            agent_text(turns_of(detail.items)[i].items),
        ) {
            None
        } else {
            Some(agent_text(turns_of(detail.items)[i].items))
        }),
{
}

/// A thread without items is shown with one exchange, which says that there is nothing.
pub proof fn law_empty_thread(id: AIConversationId, detail: DetailView, now: Timestamp)
    requires
        detail.items.len() == 0,
    ensures
        conversation_of(id, detail, now).exchanges.len() == 1,
        conversation_of(id, detail, now).exchanges[0].query is None,
        conversation_of(id, detail, now).exchanges[0].output == Some(
            "No messages were returned for this Codex conversation."@,
        ),
{
}

/// A time that is a whole number counts seconds from the start of 1970, as far as the calendar
/// goes; any other text is read in the form of RFC 3339.
pub proof fn law_thread_time(text: Seq<char>)
    ensures
        i64_of(text) matches Some(seconds) ==> (-8334601228800 <= seconds <= 8210266876799
            ==> codex_time(text) == Some(Timestamp { seconds, nanos: 0 })),
        i64_of(text) is None ==> codex_time(text) == rfc3339_time(text),
{
}

} // verus!
