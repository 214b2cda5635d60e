//! An OpenCode session as an agent conversation.
use crate::conversation::{
    AIConversation, AIConversationId, ConversationView, Exchange, ExchangeView,
    ExternalAgentConversationProvider, exchange_views,
};
use crate::modeled::{contents, opt_ref_content};
use crate::opencode_server::types::{
    MessageView, OpenCodeConversationItem, OpenCodeSessionDetail, OpenCodeSessionSummary,
    SessionDetailView, SessionView,
};
use crate::text::{blank, clone_option, concat3, is_blank, join, joined, opt_view, same, views};
use crate::time::{Timestamp, second_in_calendar, time_of_millis};
use vstd::prelude::*;

verus! {

/// The point in time that a session's number writes: seconds where it is small, else milliseconds,
/// since the start of 1970.
pub open spec fn session_milliseconds(timestamp: i64) -> int {
    if -10000000000 < timestamp < 10000000000 {
        timestamp * 1000
    } else {
        timestamp as int
    }
}

/// The point in time that a session's number writes, where the calendar reaches to it.
pub open spec fn time_of_session(timestamp: i64) -> Option<Timestamp> {
    let milliseconds = session_milliseconds(timestamp);
    if second_in_calendar(milliseconds / 1000) {
        Some(
            Timestamp {
                seconds: (milliseconds / 1000) as i64,
                nanos: ((milliseconds % 1000) * 1000000) as u32,
            },
        )
    } else {
        None
    }
}

/// The point in time that a session's number writes.
pub fn timestamp_to_utc(timestamp: i64) -> (r: Option<Timestamp>)
    ensures
        r == time_of_session(timestamp),
{
    let milliseconds: i64 = if -10000000000 < timestamp && timestamp < 10000000000 {
        timestamp * 1000
    } else {
        timestamp
    };
    time_of_millis(milliseconds)
}

/// The time of a session's last change.
pub open spec fn session_updated(session: SessionView) -> Option<Timestamp> {
    match session.updated_at {
        Some(timestamp) => time_of_session(timestamp),
        None => None,
    }
}

/// The time of a session's last change.
pub fn opencode_session_updated_at_utc(session: &OpenCodeSessionSummary) -> (r: Option<Timestamp>)
    ensures
        r == session_updated(session@),
{
    match session.updated_at {
        Some(timestamp) => timestamp_to_utc(timestamp),
        None => None,
    }
}

/// What an item adds to the answer: the assistant's text as it is, that of others with their name.
pub open spec fn answer_part(item: MessageView) -> Seq<char> {
    if item.role == "assistant"@ {
        item.text
    } else {
        item.role + ": "@ + item.text
    }
}

/// What the items add to the answer. The user's own and blank ones add nothing.
pub open spec fn answer_parts(items: Seq<MessageView>) -> Seq<Seq<char>>
    decreases items.len(),
{
    if items.len() == 0 {
        Seq::empty()
    } else {
        let before = answer_parts(items.drop_last());
        if items.last().role != "user"@ && !is_blank(items.last().text) {
            before.push(answer_part(items.last()))
        } else {
            before
        }
    }
}

/// The answer that the items make.
pub open spec fn answer_text(items: Seq<MessageView>) -> Seq<char> {
    join(answer_parts(items), "\n\n"@)
}

/// The answer that the items make.
pub fn opencode_items_to_agent_text(items: &Vec<OpenCodeConversationItem>) -> (r: String)
    ensures
        r@ == answer_text(contents(items@)),
{
    let ghost all = contents(items@);
    let mut parts: Vec<String> = Vec::new();
    let mut i: usize = 0;
    assert(views(parts@) =~= answer_parts(all.take(0)));
    while i < items.len()
        invariant
            i <= items@.len(),
            all == contents(items@),
            views(parts@) == answer_parts(all.take(i as int)),
        decreases items@.len() - i,
    {
        let ghost done = views(parts@);
        let item = &items[i];
        proof {
            assert(all.take(i as int + 1).drop_last() =~= all.take(i as int));
            assert(all.take(i as int + 1).last() == item@);
        }
        if !same(item.role.as_str(), "user") && !blank(item.text.as_str()) {
            let part = if same(item.role.as_str(), "assistant") {
                item.text.clone()
            } else {
                concat3(item.role.as_str(), ": ", item.text.as_str())
            };
            parts.push(part);
            assert(views(parts@) =~= done.push(part@));
        }
        i = i + 1;
    }
    assert(all.take(i as int) =~= all);
    joined(&parts, "\n\n")
}

/// A turn of a session: what the user asked, and the items up to the next question.
#[derive(Debug, PartialEq, Eq)]
pub struct OpenCodeTurn {
    pub query: Option<String>,
    pub items: Vec<OpenCodeConversationItem>,
}

/// The model of an `OpenCodeTurn`.
pub struct TurnView {
    pub query: Option<Seq<char>>,
    pub items: Seq<MessageView>,
}

impl OpenCodeTurn {
    pub open spec fn view(&self) -> TurnView {
        TurnView { query: opt_view(self.query), items: contents(self.items@) }
    }
}

/// The models of a list of turns.
pub open spec fn turn_views(turns: Seq<OpenCodeTurn>) -> Seq<TurnView> {
    turns.map_values(|t: OpenCodeTurn| t@)
}

/// The turns of a session. A user's item opens a turn; items before the first one make a turn
/// without a question.
pub open spec fn session_turns(items: Seq<MessageView>) -> Seq<TurnView>
    decreases items.len(),
{
    if items.len() == 0 {
        Seq::empty()
    } else {
        let before = session_turns(items.drop_last());
        let item = items.last();
        if item.role == "user"@ {
            before.push(TurnView { query: Some(item.text), items: Seq::empty() })
        } else if before.len() == 0 {
            seq![TurnView { query: None, items: seq![item] }]
        } else {
            before.drop_last().push(
                TurnView { query: before.last().query, items: before.last().items.push(item) },
            )
        }
    }
}

/// The turns of a session.
pub fn turns_of_session(items: &Vec<OpenCodeConversationItem>) -> (r: Vec<OpenCodeTurn>)
    ensures
        turn_views(r@) == session_turns(contents(items@)),
{
    let ghost all = contents(items@);
    let mut r: Vec<OpenCodeTurn> = Vec::new();
    let mut i: usize = 0;
    assert(turn_views(r@) =~= session_turns(all.take(0)));
    while i < items.len()
        invariant
            i <= items@.len(),
            all == contents(items@),
            turn_views(r@) == session_turns(all.take(i as int)),
        decreases items@.len() - i,
    {
        let ghost done = turn_views(r@);
        let item = &items[i];
        proof {
            assert(all.take(i as int + 1).drop_last() =~= all.take(i as int));
            assert(all.take(i as int + 1).last() == item@);
            assert(done.len() == r@.len());
        }
        if same(item.role.as_str(), "user") {
            let turn = OpenCodeTurn { query: Some(item.text.clone()), items: Vec::new() };
            assert(contents(turn.items@) =~= Seq::empty());
            r.push(turn);
            assert(turn_views(r@) =~= done.push(turn@));
        } else {
            match r.pop() {
                Some(last) => {
                    let mut turn = last;
                    assert(turn@ == done.last());
                    let ghost held = contents(turn.items@);
                    turn.items.push(item.clone());
                    assert(contents(turn.items@) =~= held.push(item@));
                    assert(turn_views(r@) =~= done.drop_last());
                    let ghost rest = turn_views(r@);
                    r.push(turn);
                    assert(turn_views(r@) =~= rest.push(turn@));
                },
                None => {
                    let mut first: Vec<OpenCodeConversationItem> = Vec::new();
                    first.push(item.clone());
                    assert(contents(first@) =~= seq![item@]);
                    let turn = OpenCodeTurn { query: None, items: first };
                    r.push(turn);
                    assert(turn_views(r@) =~= seq![turn@]);
                },
            }
        }
        i = i + 1;
    }
    assert(all.take(i as int) =~= all);
    r
}

/// The items of the last turn that answers the question.
pub open spec fn last_answer(turns: Seq<TurnView>, question: Seq<char>) -> Option<Seq<MessageView>>
    decreases turns.len(),
{
    if turns.len() == 0 {
        None
    } else if turns.last().query == Some(question) {
        Some(turns.last().items)
    } else {
        last_answer(turns.drop_last(), question)
    }
}

/// The answer to a prompt: what the session holds for the last turn with that prompt, else what the
/// server answered at once.
pub open spec fn prompt_answer(
    output_items: Seq<MessageView>,
    detail: Option<SessionDetailView>,
    prompt: Seq<char>,
) -> Seq<char> {
    let held = match detail {
        Some(detail) => match last_answer(session_turns(detail.items), prompt) {
            Some(items) => answer_text(items),
            None => Seq::empty(),
        },
        None => Seq::empty(),
    };
    if is_blank(held) {
        answer_text(output_items)
    } else {
        held
    }
}

fn find_last_answer<'a>(turns: &'a Vec<OpenCodeTurn>, question: &str) -> (r: Option<
    &'a Vec<OpenCodeConversationItem>,
>)
    ensures
        match r {
            Some(items) => last_answer(turn_views(turns@), question@) == Some(contents(items@)),
            None => last_answer(turn_views(turns@), question@) is None,
        },
{
    let ghost all = turn_views(turns@);
    let mut i: usize = turns.len();
    assert(all.take(i as int) =~= all);
    while i > 0
        invariant
            i <= turns@.len(),
            all == turn_views(turns@),
            last_answer(all, question@) == last_answer(all.take(i as int), question@),
        decreases i,
    {
        assert(all.take(i as int).drop_last() =~= all.take(i - 1));
        assert(all.take(i as int).last() == turns@[i - 1]@);
        let asked = match &turns[i - 1].query {
            Some(query) => same(query.as_str(), question),
            None => false,
        };
        if asked {
            return Some(&turns[i - 1].items);
        }
        i = i - 1;
    }
    None
}

/// The answer to a prompt.
pub fn opencode_prompt_result_output_text(
    output_items: &Vec<OpenCodeConversationItem>,
    detail: Option<&OpenCodeSessionDetail>,
    prompt: &str,
) -> (r: String)
    ensures
        r@ == prompt_answer(contents(output_items@), opt_ref_content(detail), prompt@),
{
    if let Some(detail) = detail {
        let turns = turns_of_session(&detail.items);
        if let Some(items) = find_last_answer(&turns, prompt) {
            let held = opencode_items_to_agent_text(items);
            if !blank(held.as_str()) {
                return held;
            }
        }
    }
    opencode_items_to_agent_text(output_items)
}

/// The exchange that a turn makes: an answer that is blank is none.
pub open spec fn turn_exchange(
    turn: TurnView,
    working_directory: Option<Seq<char>>,
    start_time: Timestamp,
) -> ExchangeView {
    ExchangeView {
        query: turn.query,
        output: if is_blank(answer_text(turn.items)) {
            None
        } else {
            Some(answer_text(turn.items))
        },
        working_directory,
        start_time,
    }
}

/// The exchanges that turns make.
pub open spec fn turn_exchanges(
    turns: Seq<TurnView>,
    working_directory: Option<Seq<char>>,
    start_time: Timestamp,
) -> Seq<ExchangeView> {
    turns.map_values(|t: TurnView| turn_exchange(t, working_directory, start_time))
}

/// The exchange shown for a session without items.
pub open spec fn no_message_exchange(start_time: Timestamp) -> ExchangeView {
    ExchangeView {
        query: None,
        output: Some("No messages were returned for this OpenCode conversation."@),
        working_directory: None,
        start_time,
    }
}

/// The conversation that mirrors a session. Its exchanges carry the time of the session's last
/// change, or the present where the session states none.
pub open spec fn session_conversation(
    id: AIConversationId,
    detail: SessionDetailView,
    now: Timestamp,
) -> ConversationView {
    let start_time = match session_updated(detail.summary) {
        Some(time) => time,
        None => now,
    };
    let turns = session_turns(detail.items);
    ConversationView {
        id,
        fallback_display_title: detail.summary.title,
        exclude_from_navigation: true,
        provider: Some(ExternalAgentConversationProvider::OpenCode),
        exchanges: if turns.len() == 0 {
            seq![no_message_exchange(start_time)]
        } else {
            turn_exchanges(turns, detail.summary.directory, start_time)
        },
    }
}

/// The conversation that mirrors a session.
pub fn opencode_session_detail_to_ai_conversation(
    conversation_id: AIConversationId,
    detail: &OpenCodeSessionDetail,
    now: Timestamp,
) -> (r: AIConversation)
    ensures
        r@ == session_conversation(conversation_id, detail@, now),
{
    let start_time = match opencode_session_updated_at_utc(&detail.summary) {
        Some(time) => time,
        None => now,
    };
    let turns = turns_of_session(&detail.items);
    let ghost all = session_turns(detail@.items);
    let ghost directory = detail@.summary.directory;
    let mut exchanges: Vec<Exchange> = Vec::new();
    assert(all.len() == turns@.len());
    if turns.len() == 0 {
        let exchange = Exchange {
            query: None,
            output: Some("No messages were returned for this OpenCode conversation.".to_owned()),
            working_directory: None,
            start_time,
        };
        exchanges.push(exchange);
        assert(exchange_views(exchanges@) =~= seq![no_message_exchange(start_time)]);
    } else {
        let mut i: usize = 0;
        while i < turns.len()
            invariant
                i <= turns@.len(),
                all == turn_views(turns@),
                directory == opt_view(detail.summary.directory),
                exchange_views(exchanges@) == turn_exchanges(all, directory, start_time).take(
                    i as int,
                ),
            decreases turns@.len() - i,
        {
            let ghost done = exchange_views(exchanges@);
            let text = opencode_items_to_agent_text(&turns[i].items);
            let output = if blank(text.as_str()) {
                None
            } else {
                Some(text)
            };
            let exchange = Exchange {
                query: clone_option(&turns[i].query),
                output,
                working_directory: clone_option(&detail.summary.directory),
                start_time,
            };
            exchanges.push(exchange);
            proof {
                assert(all[i as int] == turns@[i as int]@);
                assert(exchange_views(exchanges@) =~= done.push(exchange@));
                assert(turn_exchanges(all, directory, start_time).take(i as int + 1) =~= done.push(
                    turn_exchanges(all, directory, start_time)[i as int],
                ));
            }
            i = i + 1;
        }
        assert(turn_exchanges(all, directory, start_time).take(i as int) =~= turn_exchanges(
            all,
            directory,
            start_time,
        ));
    }
    AIConversation {
        id: conversation_id,
        fallback_display_title: detail.summary.title.clone(),
        exclude_from_navigation: true,
        provider: Some(ExternalAgentConversationProvider::OpenCode),
        exchanges,
    }
}

/// The questions of the turns, in order.
pub open spec fn questions_of_turns(turns: Seq<TurnView>) -> Seq<Seq<char>>
    decreases turns.len(),
{
    if turns.len() == 0 {
        Seq::empty()
    } else {
        match turns.last().query {
            Some(query) => questions_of_turns(turns.drop_last()).push(query),
            None => questions_of_turns(turns.drop_last()),
        }
    }
}

/// The items of the turns, one turn after the other.
pub open spec fn items_of_turns(turns: Seq<TurnView>) -> Seq<MessageView>
    decreases turns.len(),
{
    if turns.len() == 0 {
        Seq::empty()
    } else {
        items_of_turns(turns.drop_last()) + turns.last().items
    }
}

/// No question and no item of the agent is lost, none is made up, and their order is kept.
pub proof fn law_session_turns_keep_items(items: Seq<MessageView>)
    ensures
        questions_of_turns(session_turns(items)) == items.filter(
            |i: MessageView| i.role == "user"@,
        ).map_values(|i: MessageView| i.text),
        items_of_turns(session_turns(items)) == items.filter(
            |i: MessageView| i.role != "user"@,
        ),
    decreases items.len(),
{
    reveal(Seq::filter);
    let user = |i: MessageView| i.role == "user"@;
    let agent = |i: MessageView| i.role != "user"@;
    let text = |i: MessageView| i.text;
    if items.len() > 0 {
        let front = items.drop_last();
        law_session_turns_keep_items(front);
        let before = session_turns(front);
        let all = session_turns(items);
        if items.last().role == "user"@ {
            assert(all.drop_last() =~= before);
            assert(items_of_turns(all) =~= items_of_turns(before));
            assert(items.filter(user).map_values(text) =~= front.filter(user).map_values(text).push(
                items.last().text,
            ));
        } else if before.len() == 0 {
            assert(all.drop_last() =~= Seq::empty());
            assert(items_of_turns(all) =~= items_of_turns(before).push(items.last()));
        } else {
            assert(all.drop_last() =~= before.drop_last());
            assert(items_of_turns(all) =~= items_of_turns(before).push(items.last()));
        }
    } else {
        assert(items.filter(user).map_values(text) =~= Seq::empty());
        assert(items.filter(agent) =~= Seq::empty());
    }
}

/// A session that does not hold the prompt is not taken for its answer.
pub proof fn law_stale_session_is_not_the_answer(
    output_items: Seq<MessageView>,
    detail: SessionDetailView,
    prompt: Seq<char>,
)
    requires
        forall|i: int|
            0 <= i < detail.items.len() ==> !((#[trigger] detail.items[i]).role == "user"@
                && detail.items[i].text == prompt),
    ensures
        prompt_answer(output_items, Some(detail), prompt) == answer_text(output_items),
{
    lemma_unasked(detail.items, prompt);
}

proof fn lemma_unasked(items: Seq<MessageView>, prompt: Seq<char>)
    requires
        forall|i: int|
            0 <= i < items.len() ==> !((#[trigger] items[i]).role == "user"@ && items[i].text
                == prompt),
    ensures
        last_answer(session_turns(items), prompt) is None,
    decreases items.len(),
{
    if items.len() > 0 {
        let front = items.drop_last();
        assert forall|i: int| 0 <= i < front.len() implies !((#[trigger] front[i]).role == "user"@
            && front[i].text == prompt) by {
            assert(front[i] == items[i]);
        }
        lemma_unasked(front, prompt);
        let before = session_turns(front);
        let all = session_turns(items);
        let item = items[items.len() - 1];
        if item.role == "user"@ {
            assert(all.drop_last() =~= before);
        } else if before.len() == 0 {
            assert(all.drop_last() =~= Seq::empty());
        } else {
            assert(all.drop_last() =~= before.drop_last());
        }
    }
}

} // verus!
