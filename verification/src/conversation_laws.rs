//! What holds of conversations, of the lists of them, and of the actions that they take.
use crate::agent_action::{
    AIAgentActionResult, RunningActionPhase, earlier_place, in_place_order, joining, joins,
    place_of, placed, startable,
};
use crate::conversation::{ExchangeView, first_directory, latest_query, map_of, pairs_without};
use crate::conversation_list::{is_listed, marked_id, row_title_of};
use crate::ordered::{law_sorting_keeps_items, sorted_by};
use crate::reconnect::pause_before;
use crate::text::{contains_text, is_blank, lemma_trim_empty, lower, trim};
use crate::text_laws::law_lower;
use vstd::prelude::*;

verus! {

/// The latest question is the last that says something, without the blanks around it.
pub proof fn law_latest_question(exchanges: Seq<ExchangeView>)
    ensures
        match latest_query(exchanges) {
            Some(query) => exists|i: int|
                #![trigger exchanges[i]]
                0 <= i < exchanges.len() && exchanges[i].query is Some && !is_blank(
                    exchanges[i].query->0,
                ) && query == trim(exchanges[i].query->0) && forall|j: int|
                    i < j < exchanges.len() ==> (#[trigger] exchanges[j]).query is None || is_blank(
                        exchanges[j].query->0,
                    ),
            None => forall|i: int|
                0 <= i < exchanges.len() ==> (#[trigger] exchanges[i]).query is None || is_blank(
                    exchanges[i].query->0,
                ),
        },
    decreases exchanges.len(),
{
    if exchanges.len() > 0 {
        let front = exchanges.drop_last();
        let n = exchanges.len() - 1;
        law_latest_question(front);
        assert(exchanges[n] == exchanges.last());
        assert(forall|i: int| 0 <= i < n ==> front[i] == #[trigger] exchanges[i]);
        if exchanges.last().query is None || is_blank(exchanges.last().query->0) {
            match latest_query(front) {
                Some(query) => {
                    let i = choose|i: int|
                        #![trigger front[i]]
                        0 <= i < front.len() && front[i].query is Some && !is_blank(
                            front[i].query->0,
                        ) && query == trim(front[i].query->0) && forall|j: int|
                            i < j < front.len() ==> (#[trigger] front[j]).query is None || is_blank(
                                front[j].query->0,
                            );
                    assert(exchanges[i] == front[i]);
                    assert forall|j: int| i < j < exchanges.len() implies (
                    #[trigger] exchanges[j]).query is None || is_blank(exchanges[j].query->0) by {
                        if j < n {
                            assert(front[j] == exchanges[j]);
                        }
                    }
                },
                None => {
                    assert forall|i: int| 0 <= i < exchanges.len() implies (
                    #[trigger] exchanges[i]).query is None || is_blank(exchanges[i].query->0) by {
                        if i < n {
                            assert(front[i] == exchanges[i]);
                        }
                    }
                },
            }
        }
    }
}

/// The directory of a conversation is the first that it names.
pub proof fn law_first_directory(exchanges: Seq<ExchangeView>)
    ensures
        match first_directory(exchanges) {
            Some(directory) => exists|i: int|
                #![trigger exchanges[i]]
                0 <= i < exchanges.len() && exchanges[i].working_directory == Some(directory)
                    && forall|j: int|
                    0 <= j < i ==> (#[trigger] exchanges[j]).working_directory is None,
            None => forall|i: int|
                0 <= i < exchanges.len() ==> (#[trigger] exchanges[i]).working_directory is None,
        },
    decreases exchanges.len(),
{
    if exchanges.len() > 0 {
        let rest = exchanges.skip(1);
        law_first_directory(rest);
        assert(exchanges[0] == exchanges[0]);
        if exchanges[0].working_directory is None {
            match first_directory(rest) {
                Some(directory) => {
                    let i = choose|i: int|
                        #![trigger rest[i]]
                        0 <= i < rest.len() && rest[i].working_directory == Some(directory)
                            && forall|j: int|
                            0 <= j < i ==> (#[trigger] rest[j]).working_directory is None;
                    assert(exchanges[i + 1] == rest[i]);
                    assert forall|j: int| 0 <= j < i + 1 implies (
                    #[trigger] exchanges[j]).working_directory is None by {
                        if j > 0 {
                            assert(rest[j - 1] == exchanges[j]);
                        }
                    }
                },
                None => {
                    assert forall|i: int| 0 <= i < exchanges.len() implies (
                    #[trigger] exchanges[i]).working_directory is None by {
                        if i > 0 {
                            assert(rest[i - 1] == exchanges[i]);
                        }
                    }
                },
            }
        }
    }
}

/// Under a key stands what the first pair with it says, and nothing where no pair has it.
pub proof fn law_map_of_pairs<K, V>(pairs: Seq<(K, V)>, key: K)
    ensures
        map_of(pairs).contains_key(key) <==> exists|i: int|
            0 <= i < pairs.len() && (#[trigger] pairs[i]).0 == key,
        pairs.len() > 0 ==> map_of(pairs).contains_pair(pairs[0].0, pairs[0].1),
    decreases pairs.len(),
{
    if pairs.len() > 0 {
        let rest = pairs.skip(1);
        law_map_of_pairs(rest, key);
        assert(forall|i: int| 0 <= i < rest.len() ==> rest[i] == #[trigger] pairs[i + 1]);
        if map_of(pairs).contains_key(key) && pairs[0].0 != key {
            let i = choose|i: int| 0 <= i < rest.len() && (#[trigger] rest[i]).0 == key;
            assert(pairs[i + 1].0 == key);
        }
        if exists|i: int| 0 <= i < pairs.len() && (#[trigger] pairs[i]).0 == key {
            let i = choose|i: int| 0 <= i < pairs.len() && (#[trigger] pairs[i]).0 == key;
            if i > 0 {
                assert(rest[i - 1].0 == key);
            }
        }
    }
}

/// The pairs of a key are taken out alone, in order.
pub proof fn law_other_pairs_stay<K, V>(pairs: Seq<(K, V)>, key: K)
    ensures
        pairs_without(pairs, key) == pairs.filter(|p: (K, V)| p.0 != key),
    decreases pairs.len(),
{
    reveal(Seq::filter);
    let keep = |p: (K, V)| p.0 != key;
    if pairs.len() > 0 {
        law_other_pairs_stay(pairs.drop_last(), key);
        assert(pairs.filter(keep) =~= pairs_without(pairs, key));
    } else {
        assert(pairs.filter(keep) =~= Seq::empty());
    }
}

/// A row is titled by its title, else by its identifier; it is listed where its title, identifier or
/// directory holds the text that is looked for, without regard to case.
pub proof fn law_rows(title: Seq<char>, id: Seq<char>, directory: Seq<char>, query: Seq<char>)
    ensures
        is_blank(title) ==> row_title_of(title, id) == id,
        !is_blank(title) ==> row_title_of(title, id) == title,
        is_blank(query) ==> is_listed(title, id, None, query),
        contains_text(lower(title), lower(trim(query))) ==> is_listed(title, id, None, query),
        contains_text(lower(id), lower(trim(query))) ==> is_listed(title, id, None, query),
        contains_text(lower(directory), lower(trim(query))) ==> is_listed(
            title,
            id,
            Some(directory),
            query,
        ),
        is_listed(title, id, Some(directory), query) && lower(trim(query)).len() > 0
            ==> contains_text(lower(title), lower(trim(query))) || contains_text(
            lower(id),
            lower(trim(query)),
        ) || contains_text(lower(directory), lower(trim(query))),
        marked_id(Some(id), Some(title)) == Some(id),
        marked_id(None, Some(title)) == Some(title),
        marked_id(None, None) is None,
{
    lemma_trim_empty(query);
    law_lower(trim(query));
}

/// The actions that start together are the first and all behind it that run side by side with it by
/// themselves, up to the first that does not.
pub proof fn law_actions_that_start(actions: Seq<(RunningActionPhase, bool)>)
    ensures
        actions.len() == 0 ==> startable(actions) == 0,
        actions.len() > 0 ==> 1 <= startable(actions) <= actions.len(),
        forall|i: int|
            0 < i < startable(actions) ==> (#[trigger] actions[i]).1 && actions[i].0 == actions[0].0
                && actions[0].0 is Parallel,
        0 < startable(actions) < actions.len() ==> !(actions[0].0 is Parallel
            && actions[startable(actions) as int].0 == actions[0].0
            && actions[startable(actions) as int].1),
{
    if actions.len() > 0 {
        let rest = actions.skip(1);
        lemma_joining(actions[0].0, rest);
        assert forall|i: int| 0 < i < startable(actions) implies (#[trigger] actions[i]).1
            && actions[i].0 == actions[0].0 && actions[0].0 is Parallel by {
            assert(rest[i - 1] == actions[i]);
        }
        if startable(actions) < actions.len() {
            assert(rest[startable(actions) - 1] == actions[startable(actions) as int]);
        }
    }
}

proof fn lemma_joining(current: RunningActionPhase, actions: Seq<(RunningActionPhase, bool)>)
    ensures
        joining(current, actions) <= actions.len(),
        forall|i: int|
            0 <= i < joining(current, actions) ==> (#[trigger] actions[i]).1 && actions[i].0
                == current && current is Parallel,
        joining(current, actions) < actions.len() ==> !(current is Parallel && actions[joining(
            current,
            actions,
        ) as int].0 == current && actions[joining(current, actions) as int].1),
    decreases actions.len(),
{
    if actions.len() > 0 && joins(current, actions[0].0, actions[0].1) {
        let rest = actions.skip(1);
        lemma_joining(actions[0].0, rest);
        assert forall|i: int| 0 <= i < joining(current, actions) implies (#[trigger] actions[i]).1
            && actions[i].0 == current && current is Parallel by {
            if i > 0 {
                assert(rest[i - 1] == actions[i]);
            }
        }
        if joining(current, actions) < actions.len() {
            assert(rest[joining(current, actions) - 1] == actions[joining(
                current,
                actions,
            ) as int]);
        }
    }
}

/// The place of an action is the first that is noted for it, and behind all where none is.
pub proof fn law_place_of_an_action(places: Seq<(Seq<char>, usize)>, id: Seq<char>)
    ensures
        (exists|i: int|
            #![trigger places[i]]
            0 <= i < places.len() && places[i].0 == id && places[i].1 == place_of(places, id)) || (
        place_of(places, id) == usize::MAX && forall|i: int|
            0 <= i < places.len() ==> (#[trigger] places[i]).0 != id),
    decreases places.len(),
{
    if places.len() > 0 {
        let rest = places.skip(1);
        law_place_of_an_action(rest, id);
        assert(places[0] == places[0]);
        if places[0].0 != id {
            if forall|i: int| 0 <= i < rest.len() ==> (#[trigger] rest[i]).0 != id {
                assert forall|i: int| 0 <= i < places.len() implies (#[trigger] places[i]).0
                    != id by {
                    if i > 0 {
                        assert(rest[i - 1] == places[i]);
                    }
                }
            }
            if exists|i: int|
                #![trigger rest[i]]
                0 <= i < rest.len() && rest[i].0 == id && rest[i].1 == place_of(rest, id) {
                let i = choose|i: int|
                    #![trigger rest[i]]
                    0 <= i < rest.len() && rest[i].0 == id && rest[i].1 == place_of(rest, id);
                assert(places[i + 1] == rest[i]);
            }
        }
    }
}

/// Of the results none is lost in ordering them.
pub proof fn law_no_result_is_lost(
    results: Seq<AIAgentActionResult>,
    places: Seq<(Seq<char>, usize)>,
)
    ensures
        in_place_order(results, places).len() == results.len(),
{
    let order = |a: (usize, AIAgentActionResult), b: (usize, AIAgentActionResult)|
        earlier_place(a, b);
    law_sorting_keeps_items(placed(results, places), order);
    sorted_by(placed(results, places), order).to_multiset_ensures();
    placed(results, places).to_multiset_ensures();
}

/// A connection is tried again at once, then after half a second, then after a second each time.
pub proof fn law_pauses(attempt: int)
    ensures
        attempt <= 0 ==> pause_before(attempt) == 0,
        pause_before(1) == 500,
        attempt >= 2 ==> pause_before(attempt) == 1000,
        pause_before(attempt) <= pause_before(attempt + 1),
{
}

} // verus!
