//! Agent conversations that mirror a server's threads, and the identifiers that link the two.
use crate::text::{blank, is_blank, opt_str_view, opt_view, same, trim, trimmed};
use crate::time::Timestamp;
use vstd::prelude::*;

verus! {

/// The identifier of a conversation.
#[derive(Debug, Clone, Copy, PartialEq, Eq, Hash, Structural)]
pub struct AIConversationId {
    pub value: u128,
}

/// The identifier of an exchange of a conversation.
#[derive(Debug, Clone, Copy, PartialEq, Eq, Hash, Structural)]
pub struct AIAgentExchangeId {
    pub value: u128,
}

/// The identifier of a view.
#[derive(Debug, Clone, Copy, PartialEq, Eq, Hash, Structural)]
pub struct EntityId {
    pub value: u64,
}

/// One exchange: what the user asked, and what the agent answered.
#[derive(Debug, PartialEq, Eq)]
pub struct Exchange {
    pub query: Option<String>,
    pub output: Option<String>,
    pub working_directory: Option<String>,
    pub start_time: Timestamp,
}

/// The model of an `Exchange`.
pub struct ExchangeView {
    pub query: Option<Seq<char>>,
    pub output: Option<Seq<char>>,
    pub working_directory: Option<Seq<char>>,
    pub start_time: Timestamp,
}

impl Exchange {
    pub open spec fn view(&self) -> ExchangeView {
        ExchangeView {
            query: opt_view(self.query),
            output: opt_view(self.output),
            working_directory: opt_view(self.working_directory),
            start_time: self.start_time,
        }
    }
}

/// The models of a list of exchanges.
pub open spec fn exchange_views(exchanges: Seq<Exchange>) -> Seq<ExchangeView> {
    exchanges.map_values(|e: Exchange| e@)
}

/// Whose conversations a conversation is one of.
#[derive(Debug, Clone, Copy, PartialEq, Eq, Structural)]
pub enum ExternalAgentConversationProvider {
    OpenCode,
}

/// A conversation that mirrors a server's thread. It has no place of its own in the navigation.
#[derive(Debug, PartialEq, Eq)]
pub struct AIConversation {
    pub id: AIConversationId,
    pub fallback_display_title: String,
    pub exclude_from_navigation: bool,
    pub provider: Option<ExternalAgentConversationProvider>,
    pub exchanges: Vec<Exchange>,
}

/// The model of an `AIConversation`.
pub struct ConversationView {
    pub id: AIConversationId,
    pub fallback_display_title: Seq<char>,
    pub exclude_from_navigation: bool,
    pub provider: Option<ExternalAgentConversationProvider>,
    pub exchanges: Seq<ExchangeView>,
}

impl AIConversation {
    pub open spec fn view(&self) -> ConversationView {
        ConversationView {
            id: self.id,
            fallback_display_title: self.fallback_display_title@,
            exclude_from_navigation: self.exclude_from_navigation,
            provider: self.provider,
            exchanges: exchange_views(self.exchanges@),
        }
    }

    /// The identifier.
    pub fn id(&self) -> (r: AIConversationId)
        ensures
            r == self@.id,
    {
        self.id
    }

    /// Whose conversations it is one of.
    pub fn external_agent_provider(&self) -> (r: Option<ExternalAgentConversationProvider>)
        ensures
            r == self@.provider,
    {
        self.provider
    }

    /// It has no place of its own in the navigation.
    pub fn should_exclude_from_navigation(&self) -> (r: bool)
        ensures
            r == self@.exclude_from_navigation,
    {
        self.exclude_from_navigation
    }

    /// What the user asked last, without surrounding space; blank questions do not count.
    pub fn latest_user_query(&self) -> (r: Option<String>)
        ensures
            opt_view(r) == latest_query(self@.exchanges),
    {
        let ghost all = self@.exchanges;
        let mut i: usize = self.exchanges.len();
        assert(all.take(i as int) =~= all);
        while i > 0
            invariant
                i <= self.exchanges@.len(),
                all == exchange_views(self.exchanges@),
                latest_query(self@.exchanges) == latest_query(all.take(i as int)),
            decreases i,
        {
            assert(all.take(i as int).drop_last() =~= all.take(i - 1));
            assert(all.take(i as int).last() == self.exchanges@[i - 1]@);
            if let Some(query) = &self.exchanges[i - 1].query {
                if !blank(query.as_str()) {
                    return Some(trimmed(query.as_str()).to_owned());
                }
            }
            i = i - 1;
        }
        None
    }

    /// The directory of the first exchange that has one.
    pub fn initial_working_directory(&self) -> (r: Option<String>)
        ensures
            opt_view(r) == first_directory(self@.exchanges),
    {
        let ghost all = self@.exchanges;
        let mut i: usize = 0;
        assert(all.skip(0) =~= all);
        while i < self.exchanges.len()
            invariant
                i <= self.exchanges@.len(),
                all == exchange_views(self.exchanges@),
                first_directory(self@.exchanges) == first_directory(all.skip(i as int)),
            decreases self.exchanges@.len() - i,
        {
            assert(all.skip(i as int)[0] == self.exchanges@[i as int]@);
            assert(all.skip(i as int).skip(1) =~= all.skip(i as int + 1));
            if let Some(directory) = &self.exchanges[i].working_directory {
                return Some(directory.clone());
            }
            i = i + 1;
        }
        None
    }
}

/// What the user asked last, without surrounding space; blank questions do not count.
pub open spec fn latest_query(exchanges: Seq<ExchangeView>) -> Option<Seq<char>>
    decreases exchanges.len(),
{
    if exchanges.len() == 0 {
        None
    } else {
        match exchanges.last().query {
            Some(query) => if is_blank(query) {
                latest_query(exchanges.drop_last())
            } else {
                Some(trim(query))
            },
            None => latest_query(exchanges.drop_last()),
        }
    }
}

/// The directory of the first exchange that has one.
pub open spec fn first_directory(exchanges: Seq<ExchangeView>) -> Option<Seq<char>>
    decreases exchanges.len(),
{
    if exchanges.len() == 0 {
        None
    } else {
        match exchanges[0].working_directory {
            Some(directory) => Some(directory),
            None => first_directory(exchanges.skip(1)),
        }
    }
}

/// The map that a list of pairs stands for: the first pair for a key counts.
pub open spec fn map_of<K, V>(pairs: Seq<(K, V)>) -> Map<K, V>
    decreases pairs.len(),
{
    if pairs.len() == 0 {
        Map::empty()
    } else {
        map_of(pairs.skip(1)).insert(pairs[0].0, pairs[0].1)
    }
}

/// The pairs whose key is not `key`.
pub open spec fn pairs_without<K, V>(pairs: Seq<(K, V)>, key: K) -> Seq<(K, V)>
    decreases pairs.len(),
{
    if pairs.len() == 0 {
        Seq::empty()
    } else if pairs.last().0 == key {
        pairs_without(pairs.drop_last(), key)
    } else {
        pairs_without(pairs.drop_last(), key).push(pairs.last())
    }
}

proof fn lemma_map_of_first<K, V>(pairs: Seq<(K, V)>, i: int)
    requires
        0 <= i < pairs.len(),
        forall|j: int| 0 <= j < i ==> (#[trigger] pairs[j]).0 != pairs[i].0,
    ensures
        map_of(pairs).contains_key(pairs[i].0),
        map_of(pairs)[pairs[i].0] == pairs[i].1,
    decreases pairs.len(),
{
    if i > 0 {
        let rest = pairs.skip(1);
        assert(rest[i - 1] == pairs[i]);
        assert forall|j: int| 0 <= j < i - 1 implies (#[trigger] rest[j]).0 != rest[i - 1].0 by {
            assert(rest[j] == pairs[j + 1]);
        }
        lemma_map_of_first(rest, i - 1);
        assert(pairs[0].0 != pairs[i].0);
    }
}

proof fn lemma_map_of_absent<K, V>(pairs: Seq<(K, V)>, key: K)
    requires
        forall|j: int| 0 <= j < pairs.len() ==> (#[trigger] pairs[j]).0 != key,
    ensures
        !map_of(pairs).contains_key(key),
    decreases pairs.len(),
{
    if pairs.len() > 0 {
        let rest = pairs.skip(1);
        assert forall|j: int| 0 <= j < rest.len() implies (#[trigger] rest[j]).0 != key by {
            assert(rest[j] == pairs[j + 1]);
        }
        lemma_map_of_absent(rest, key);
        assert(pairs[0].0 != key);
    }
}

proof fn lemma_map_of_push<K, V>(pairs: Seq<(K, V)>, pair: (K, V))
    requires
        !map_of(pairs).contains_key(pair.0),
    ensures
        map_of(pairs.push(pair)) == map_of(pairs).insert(pair.0, pair.1),
    decreases pairs.len(),
{
    let all = pairs.push(pair);
    if pairs.len() == 0 {
        assert(all.skip(1) =~= Seq::empty());
        assert(map_of(all.skip(1)) == Map::<K, V>::empty());
    } else {
        let rest = pairs.skip(1);
        assert(all.skip(1) =~= rest.push(pair));
        lemma_map_of_push(rest, pair);
        assert(map_of(all) =~= map_of(pairs).insert(pair.0, pair.1));
    }
}

proof fn lemma_map_of_update<K, V>(pairs: Seq<(K, V)>, i: int, value: V)
    requires
        0 <= i < pairs.len(),
        forall|j: int| 0 <= j < i ==> (#[trigger] pairs[j]).0 != pairs[i].0,
    ensures
        map_of(pairs.update(i, (pairs[i].0, value))) == map_of(pairs).insert(pairs[i].0, value),
    decreases pairs.len(),
{
    let all = pairs.update(i, (pairs[i].0, value));
    let rest = pairs.skip(1);
    if i == 0 {
        assert(all.skip(1) =~= rest);
        assert(map_of(all) =~= map_of(pairs).insert(pairs[0].0, value));
    } else {
        assert(rest[i - 1] == pairs[i]);
        assert forall|j: int| 0 <= j < i - 1 implies (#[trigger] rest[j]).0 != rest[i - 1].0 by {
            assert(rest[j] == pairs[j + 1]);
        }
        lemma_map_of_update(rest, i - 1, value);
        assert(all.skip(1) =~= rest.update(i - 1, (rest[i - 1].0, value)));
        assert(pairs[0].0 != pairs[i].0);
        assert(map_of(all) =~= map_of(pairs).insert(pairs[i].0, value));
    }
}

proof fn lemma_pairs_without<K, V>(pairs: Seq<(K, V)>, key: K)
    ensures
        map_of(pairs_without(pairs, key)) == map_of(pairs).remove(key),
    decreases pairs.len(),
{
    if pairs.len() > 0 {
        lemma_pairs_without_front(pairs, key);
        lemma_pairs_without(pairs.skip(1), key);
        if pairs[0].0 == key {
            assert(map_of(pairs).remove(key) =~= map_of(pairs.skip(1)).remove(key));
        } else {
            let rest = pairs_without(pairs.skip(1), key);
            assert((seq![pairs[0]] + rest).skip(1) =~= rest);
            assert(map_of(seq![pairs[0]] + rest) =~= map_of(pairs).remove(key));
        }
    } else {
        assert(map_of(pairs).remove(key) =~= map_of(pairs));
    }
}

proof fn lemma_pairs_without_front<K, V>(pairs: Seq<(K, V)>, key: K)
    requires
        pairs.len() > 0,
    ensures
        pairs_without(pairs, key) == (if pairs[0].0 == key {
            pairs_without(pairs.skip(1), key)
        } else {
            seq![pairs[0]] + pairs_without(pairs.skip(1), key)
        }),
    decreases pairs.len(),
{
    if pairs.len() == 1 {
        assert(pairs.drop_last() =~= Seq::empty());
        assert(pairs.skip(1) =~= Seq::empty());
        assert(pairs_without(pairs.drop_last(), key) =~= Seq::empty());
        assert(pairs_without(pairs.skip(1), key) =~= Seq::empty());
        assert(pairs_without(pairs, key) =~= if pairs[0].0 == key {
            Seq::empty()
        } else {
            seq![pairs[0]]
        });
        assert(seq![pairs[0]] + Seq::empty() =~= seq![pairs[0]]);
    } else {
        let front = pairs.drop_last();
        lemma_pairs_without_front(front, key);
        assert(front.skip(1) =~= pairs.skip(1).drop_last());
        assert(pairs.skip(1).last() == pairs.last());
        let tail = pairs_without(front.skip(1), key);
        if pairs.last().0 != key && pairs[0].0 != key {
            assert((seq![pairs[0]] + tail).push(pairs.last()) =~= seq![pairs[0]] + tail.push(
                pairs.last(),
            ));
        }
    }
}

/// Conversations by the identifier of the server's thread.
#[derive(Debug)]
pub struct ConversationIndex {
    pairs: Vec<(String, AIConversationId)>,
}

/// The models of the pairs of an index.
pub closed spec fn index_pairs(pairs: Seq<(String, AIConversationId)>) -> Seq<
    (Seq<char>, AIConversationId),
> {
    pairs.map_values(|p: (String, AIConversationId)| (p.0@, p.1))
}

impl ConversationIndex {
    pub closed spec fn view(&self) -> Map<Seq<char>, AIConversationId> {
        map_of(index_pairs(self.pairs@))
    }

    /// An empty index.
    pub fn new() -> (r: Self)
        ensures
            r@ == Map::<Seq<char>, AIConversationId>::empty(),
    {
        ConversationIndex { pairs: Vec::new() }
    }

    fn position(&self, key: &str) -> (r: Option<usize>)
        ensures
            match r {
                Some(i) => i < self.pairs@.len() && self.pairs@[i as int].0@ == key@
                    && forall|j: int| 0 <= j < i ==> (#[trigger] index_pairs(self.pairs@)[j]).0
                    != key@,
                None => forall|j: int|
                    0 <= j < self.pairs@.len() ==> (#[trigger] index_pairs(self.pairs@)[j]).0
                        != key@,
            },
    {
        let mut i: usize = 0;
        while i < self.pairs.len()
            invariant
                i <= self.pairs@.len(),
                forall|j: int| 0 <= j < i ==> (#[trigger] index_pairs(self.pairs@)[j]).0 != key@,
            decreases self.pairs@.len() - i,
        {
            if same(self.pairs[i].0.as_str(), key) {
                return Some(i);
            }
            i = i + 1;
        }
        None
    }

    /// The conversation of a thread.
    pub fn get(&self, key: &str) -> (r: Option<AIConversationId>)
        ensures
            r == self@.get(key@),
    {
        match self.position(key) {
            Some(i) => {
                proof {
                    lemma_map_of_first(index_pairs(self.pairs@), i as int);
                }
                Some(self.pairs[i].1)
            },
            None => {
                proof {
                    lemma_map_of_absent(index_pairs(self.pairs@), key@);
                }
                None
            },
        }
    }

    /// Links a thread to a conversation.
    pub fn insert(&mut self, key: &str, id: AIConversationId)
        ensures
            final(self)@ == old(self)@.insert(key@, id),
    {
        let ghost before = index_pairs(self.pairs@);
        match self.position(key) {
            Some(i) => {
                proof {
                    lemma_map_of_update(before, i as int, id);
                }
                self.pairs.set(i, (key.to_owned(), id));
                assert(index_pairs(self.pairs@) =~= before.update(i as int, (key@, id)));
            },
            None => {
                proof {
                    lemma_map_of_absent(before, key@);
                    lemma_map_of_push(before, (key@, id));
                }
                self.pairs.push((key.to_owned(), id));
                assert(index_pairs(self.pairs@) =~= before.push((key@, id)));
            },
        }
    }

    /// Forgets a thread.
    pub fn remove(&mut self, key: &str)
        ensures
            final(self)@ == old(self)@.remove(key@),
    {
        let ghost all = index_pairs(self.pairs@);
        let mut kept: Vec<(String, AIConversationId)> = Vec::new();
        let mut i: usize = 0;
        assert(index_pairs(kept@) =~= pairs_without(all.take(0), key@));
        while i < self.pairs.len()
            invariant
                i <= self.pairs@.len(),
                all == index_pairs(self.pairs@),
                index_pairs(kept@) == pairs_without(all.take(i as int), key@),
            decreases self.pairs@.len() - i,
        {
            let ghost done = index_pairs(kept@);
            proof {
                assert(all.take(i as int + 1).drop_last() =~= all.take(i as int));
                assert(all.take(i as int + 1).last() == all[i as int]);
            }
            if !same(self.pairs[i].0.as_str(), key) {
                kept.push((self.pairs[i].0.clone(), self.pairs[i].1));
                assert(index_pairs(kept@) =~= done.push(all[i as int]));
            }
            i = i + 1;
        }
        proof {
            assert(all.take(i as int) =~= all);
            lemma_pairs_without(all, key@);
        }
        self.pairs = kept;
    }
}

/// Server threads by the identifier of the conversation.
#[derive(Debug)]
pub struct ThreadIndex {
    pairs: Vec<(AIConversationId, String)>,
}

/// The models of the pairs of an index.
pub closed spec fn thread_pairs(pairs: Seq<(AIConversationId, String)>) -> Seq<
    (AIConversationId, Seq<char>),
> {
    pairs.map_values(|p: (AIConversationId, String)| (p.0, p.1@))
}

impl ThreadIndex {
    pub closed spec fn view(&self) -> Map<AIConversationId, Seq<char>> {
        map_of(thread_pairs(self.pairs@))
    }

    /// An empty index.
    pub fn new() -> (r: Self)
        ensures
            r@ == Map::<AIConversationId, Seq<char>>::empty(),
    {
        ThreadIndex { pairs: Vec::new() }
    }

    fn position(&self, key: AIConversationId) -> (r: Option<usize>)
        ensures
            match r {
                Some(i) => i < self.pairs@.len() && self.pairs@[i as int].0 == key && forall|j: int|
                    0 <= j < i ==> (#[trigger] thread_pairs(self.pairs@)[j]).0 != key,
                None => forall|j: int|
                    0 <= j < self.pairs@.len() ==> (#[trigger] thread_pairs(self.pairs@)[j]).0
                        != key,
            },
    {
        let mut i: usize = 0;
        while i < self.pairs.len()
            invariant
                i <= self.pairs@.len(),
                forall|j: int| 0 <= j < i ==> (#[trigger] thread_pairs(self.pairs@)[j]).0 != key,
            decreases self.pairs@.len() - i,
        {
            if self.pairs[i].0 == key {
                return Some(i);
            }
            i = i + 1;
        }
        None
    }

    /// The thread of a conversation.
    pub fn get(&self, key: AIConversationId) -> (r: Option<&str>)
        ensures
            opt_str_view(r) == self@.get(key),
    {
        match self.position(key) {
            Some(i) => {
                proof {
                    lemma_map_of_first(thread_pairs(self.pairs@), i as int);
                }
                Some(self.pairs[i].1.as_str())
            },
            None => {
                proof {
                    lemma_map_of_absent(thread_pairs(self.pairs@), key);
                }
                None
            },
        }
    }

    /// Links a conversation to a thread.
    pub fn insert(&mut self, key: AIConversationId, thread_id: &str)
        ensures
            final(self)@ == old(self)@.insert(key, thread_id@),
    {
        let ghost before = thread_pairs(self.pairs@);
        match self.position(key) {
            Some(i) => {
                proof {
                    lemma_map_of_update(before, i as int, thread_id@);
                }
                self.pairs.set(i, (key, thread_id.to_owned()));
                assert(thread_pairs(self.pairs@) =~= before.update(i as int, (key, thread_id@)));
            },
            None => {
                proof {
                    lemma_map_of_absent(before, key);
                    lemma_map_of_push(before, (key, thread_id@));
                }
                self.pairs.push((key, thread_id.to_owned()));
                assert(thread_pairs(self.pairs@) =~= before.push((key, thread_id@)));
            },
        }
    }

    /// Forgets a conversation.
    pub fn remove(&mut self, key: AIConversationId)
        ensures
            final(self)@ == old(self)@.remove(key),
    {
        let ghost all = thread_pairs(self.pairs@);
        let mut kept: Vec<(AIConversationId, String)> = Vec::new();
        let mut i: usize = 0;
        assert(thread_pairs(kept@) =~= pairs_without(all.take(0), key));
        while i < self.pairs.len()
            invariant
                i <= self.pairs@.len(),
                all == thread_pairs(self.pairs@),
                thread_pairs(kept@) == pairs_without(all.take(i as int), key),
            decreases self.pairs@.len() - i,
        {
            let ghost done = thread_pairs(kept@);
            proof {
                assert(all.take(i as int + 1).drop_last() =~= all.take(i as int));
                assert(all.take(i as int + 1).last() == all[i as int]);
            }
            if self.pairs[i].0 != key {
                kept.push((self.pairs[i].0, self.pairs[i].1.clone()));
                assert(thread_pairs(kept@) =~= done.push(all[i as int]));
            }
            i = i + 1;
        }
        proof {
            assert(all.take(i as int) =~= all);
            lemma_pairs_without(all, key);
        }
        self.pairs = kept;
    }
}

} // verus!
