//! A Codex thread as an agent conversation.
use crate::codex_app_server::fields::not_blank;
use crate::codex_app_server::transcript::{
    agent_text, codex_items_to_agent_text, is_codex_user_item, is_user_role,
};
use crate::codex_app_server::types::{
    CodexConversationItem, CodexThreadDetail, CodexThreadSummary, DetailView, ItemView, SummaryView,
    item_views,
};
use crate::conversation::{
    AIConversation, AIConversationId, ConversationView, Exchange, ExchangeView, exchange_views,
};
use crate::text::{blank, clone_option, i64_of, opt_view, parse_i64};
use crate::time::{Timestamp, parse_rfc3339, rfc3339_time, second_in_calendar, time_of_seconds};
use vstd::prelude::*;

verus! {

/// The point in time that a thread's text writes: seconds since the start of 1970, or a text in the
/// form of RFC 3339.
pub open spec fn codex_time(text: Seq<char>) -> Option<Timestamp> {
    match i64_of(text) {
        Some(seconds) => if second_in_calendar(seconds as int) {
            Some(Timestamp { seconds, nanos: 0 })
        } else {
            None
        },
        None => rfc3339_time(text),
    }
}

/// The time of a thread's last change.
pub open spec fn updated_time(summary: SummaryView) -> Option<Timestamp> {
    match summary.updated_at {
        Some(text) => codex_time(text),
        None => None,
    }
}

/// The point in time that a thread's text writes.
pub fn parse_codex_timestamp(value: &str) -> (r: Option<Timestamp>)
    ensures
        r == codex_time(value@),
{
    match parse_i64(value) {
        Some(seconds) => time_of_seconds(seconds),
        None => parse_rfc3339(value),
    }
}

/// The time of a thread's last change.
pub fn codex_thread_updated_at_utc(thread: &CodexThreadSummary) -> (r: Option<Timestamp>)
    ensures
        r == updated_time(thread@),
{
    match &thread.updated_at {
        Some(text) => parse_codex_timestamp(text.as_str()),
        None => None,
    }
}

/// A turn of a thread: what the user asked, and the items up to the next question.
pub struct Turn {
    pub query: Option<Seq<char>>,
    pub items: Seq<ItemView>,
}

/// The turns of a thread. A user's item opens a turn; items before the first one make a turn
/// without a question.
pub open spec fn turns_of(items: Seq<ItemView>) -> Seq<Turn>
    decreases items.len(),
{
    if items.len() == 0 {
        Seq::empty()
    } else {
        let before = turns_of(items.drop_last());
        let item = items.last();
        if is_user_role(item.role) {
            before.push(Turn { query: Some(item.text), items: Seq::empty() })
        } else if before.len() == 0 {
            seq![Turn { query: None, items: seq![item] }]
        } else {
            before.drop_last().push(
                Turn { query: before.last().query, items: before.last().items.push(item) },
            )
        }
    }
}

/// The exchange that a turn makes: an answer that is blank is none.
pub open spec fn exchange_of(
    turn: Turn,
    working_directory: Option<Seq<char>>,
    start_time: Timestamp,
) -> ExchangeView {
    ExchangeView {
        query: turn.query,
        output: not_blank(agent_text(turn.items)),
        working_directory,
        start_time,
    }
}

/// The exchanges that turns make.
pub open spec fn exchanges_of(
    turns: Seq<Turn>,
    working_directory: Option<Seq<char>>,
    start_time: Timestamp,
) -> Seq<ExchangeView> {
    turns.map_values(|t: Turn| exchange_of(t, working_directory, start_time))
}

/// The exchange shown for a thread without items.
pub open spec fn empty_exchange(start_time: Timestamp) -> ExchangeView {
    ExchangeView {
        query: None,
        output: Some("No messages were returned for this Codex conversation."@),
        working_directory: None,
        start_time,
    }
}

/// The conversation that mirrors a thread. Its exchanges carry the time of the thread's last
/// change, or the present where the thread states none.
pub open spec fn conversation_of(
    id: AIConversationId,
    detail: DetailView,
    now: Timestamp,
) -> ConversationView {
    let start_time = match updated_time(detail.summary) {
        Some(time) => time,
        None => now,
    };
    let turns = turns_of(detail.items);
    ConversationView {
        id,
        fallback_display_title: detail.summary.title,
        exclude_from_navigation: true,
        provider: None,
        exchanges: if turns.len() == 0 {
            seq![empty_exchange(start_time)]
        } else {
            exchanges_of(turns, detail.summary.cwd, start_time)
        },
    }
}

/// Adds the exchange of a turn.
fn push_exchange(
    exchanges: &mut Vec<Exchange>,
    query: Option<String>,
    items: &Vec<CodexConversationItem>,
    working_directory: &Option<String>,
    start_time: Timestamp,
)
    ensures
        exchange_views(final(exchanges)@) == exchange_views(old(exchanges)@).push(
            exchange_of(
                Turn { query: opt_view(query), items: item_views(items@) },
                opt_view(*working_directory),
                start_time,
            ),
        ),
{
    let ghost before = exchange_views(exchanges@);
    let text = codex_items_to_agent_text(items.as_slice());
    let output = if blank(text.as_str()) {
        None
    } else {
        Some(text)
    };
    let exchange = Exchange {
        query,
        output,
        working_directory: clone_option(working_directory),
        start_time,
    };
    exchanges.push(exchange);
    assert(exchange_views(exchanges@) =~= before.push(exchange@));
}

/// The turn that is still open after a list of items, where there is one.
pub open spec fn open_turn(turns: Seq<Turn>, query: Option<Seq<char>>, items: Seq<ItemView>) -> Seq<
    Turn,
> {
    if query is Some || items.len() > 0 {
        turns.push(Turn { query, items })
    } else {
        turns
    }
}

/// The conversation that mirrors a thread.
pub fn codex_thread_detail_to_ai_conversation(
    conversation_id: AIConversationId,
    detail: &CodexThreadDetail,
    now: Timestamp,
) -> (r: AIConversation)
    ensures
        r@ == conversation_of(conversation_id, detail@, now),
{
    let start_time = match codex_thread_updated_at_utc(&detail.summary) {
        Some(time) => time,
        None => now,
    };
    let ghost cwd = detail@.summary.cwd;
    let ghost all = detail@.items;
    let mut exchanges: Vec<Exchange> = Vec::new();
    let mut query: Option<String> = None;
    let mut items: Vec<CodexConversationItem> = Vec::new();
    let ghost mut closed: Seq<Turn> = Seq::empty();
    let mut i: usize = 0;
    proof {
        assert(exchange_views(exchanges@) =~= exchanges_of(closed, cwd, start_time));
        assert(turns_of(all.take(0)) =~= open_turn(closed, None, Seq::empty()));
        assert(item_views(items@) =~= Seq::empty());
    }
    while i < detail.items.len()
        invariant
            i <= detail.items@.len(),
            all == item_views(detail.items@),
            cwd == opt_view(detail.summary.cwd),
            exchange_views(exchanges@) == exchanges_of(closed, cwd, start_time),
            turns_of(all.take(i as int)) == open_turn(closed, opt_view(query), item_views(items@)),
            query is None && items@.len() == 0 ==> closed.len() == 0,
        decreases detail.items@.len() - i,
    {
        let item = &detail.items[i];
        let ghost before = turns_of(all.take(i as int));
        proof {
            assert(all.take(i as int + 1).drop_last() =~= all.take(i as int));
            assert(all.take(i as int + 1).last() == item@);
            assert(item_views(items@).len() == items@.len());
        }
        if is_codex_user_item(item.role.as_str()) {
            if query.is_some() || items.len() > 0 {
                let ghost turn = Turn { query: opt_view(query), items: item_views(items@) };
                push_exchange(&mut exchanges, query, &items, &detail.summary.cwd, start_time);
                items = Vec::new();
                proof {
                    assert(exchange_views(exchanges@) =~= exchanges_of(
                        closed.push(turn),
                        cwd,
                        start_time,
                    ));
                    closed = closed.push(turn);
                }
            }
            query = Some(item.text.clone());
            proof {
                assert(item_views(items@) =~= Seq::empty());
                assert(closed =~= before);
                assert(turns_of(all.take(i as int + 1)) =~= open_turn(
                    closed,
                    opt_view(query),
                    item_views(items@),
                ));
            }
        } else {
            let ghost held = item_views(items@);
            items.push(item.clone());
            proof {
                assert(item_views(items@) =~= held.push(item@));
                if before.len() > 0 {
                    assert(before.drop_last() =~= closed);
                    assert(before.last().items =~= held);
                } else {
                    assert(held.push(item@) =~= seq![item@]);
                }
                assert(turns_of(all.take(i as int + 1)) =~= open_turn(
                    closed,
                    opt_view(query),
                    item_views(items@),
                ));
            }
        }
        i = i + 1;
    }
    proof {
        assert(all.take(i as int) =~= all);
        assert(item_views(items@).len() == items@.len());
    }
    if query.is_some() || items.len() > 0 {
        let ghost turn = Turn { query: opt_view(query), items: item_views(items@) };
        push_exchange(&mut exchanges, query, &items, &detail.summary.cwd, start_time);
        assert(exchange_views(exchanges@) =~= exchanges_of(closed.push(turn), cwd, start_time));
    } else {
        let exchange = Exchange {
            query: None,
            output: Some("No messages were returned for this Codex conversation.".to_owned()),
            working_directory: None,
            start_time,
        };
        exchanges.push(exchange);
        assert(exchange_views(exchanges@) =~= seq![empty_exchange(start_time)]);
    }
    AIConversation {
        id: conversation_id,
        fallback_display_title: detail.summary.title.clone(),
        exclude_from_navigation: true,
        provider: None,
        exchanges,
    }
}

/// Every question of the user has a turn of its own, in order.
pub open spec fn questions_in(items: Seq<ItemView>) -> Seq<Seq<char>>
    decreases items.len(),
{
    if items.len() == 0 {
        Seq::empty()
    } else if is_user_role(items.last().role) {
        questions_in(items.drop_last()).push(items.last().text)
    } else {
        questions_in(items.drop_last())
    }
}

/// The questions of the turns.
pub open spec fn turn_questions(turns: Seq<Turn>) -> Seq<Seq<char>>
    decreases turns.len(),
{
    if turns.len() == 0 {
        Seq::empty()
    } else {
        match turns.last().query {
            Some(query) => turn_questions(turns.drop_last()).push(query),
            None => turn_questions(turns.drop_last()),
        }
    }
}

/// No question of the user is lost, none is made up, and their order is kept.
pub proof fn law_turns_keep_questions(items: Seq<ItemView>)
    ensures
        turn_questions(turns_of(items)) == questions_in(items),
    decreases items.len(),
{
    if items.len() > 0 {
        law_turns_keep_questions(items.drop_last());
        let before = turns_of(items.drop_last());
        let all = turns_of(items);
        if is_user_role(items.last().role) {
            assert(all.drop_last() =~= before);
        } else if before.len() == 0 {
            assert(all.drop_last() =~= Seq::empty());
        } else {
            assert(all.drop_last() =~= before.drop_last());
        }
    }
}

/// The items of the turns, one turn after the other.
pub open spec fn turn_items(turns: Seq<Turn>) -> Seq<ItemView>
    decreases turns.len(),
{
    if turns.len() == 0 {
        Seq::empty()
    } else {
        turn_items(turns.drop_last()) + turns.last().items
    }
}

/// No item of the agent is lost, none is made up, and their order is kept.
pub proof fn law_turns_keep_items(items: Seq<ItemView>)
    ensures
        turn_items(turns_of(items)) == items.filter(|i: ItemView| !is_user_role(i.role)),
    decreases items.len(),
{
    reveal(Seq::filter);
    if items.len() > 0 {
        law_turns_keep_items(items.drop_last());
        let before = turns_of(items.drop_last());
        let all = turns_of(items);
        if is_user_role(items.last().role) {
            assert(all.drop_last() =~= before);
            assert(turn_items(all) =~= turn_items(before));
        } else if before.len() == 0 {
            assert(all.drop_last() =~= Seq::empty());
            assert(turn_items(all) =~= turn_items(before).push(items.last()));
        } else {
            assert(all.drop_last() =~= before.drop_last());
            assert(turn_items(all) =~= turn_items(before).push(items.last()));
        }
    }
}

} // verus!
