//! Texts by keys.
use crate::json::{JsonValue, JsonView, entry_views};
use crate::ordered::{Keyed, entries, insert_by_key, insert_keyed};
use crate::text::{opt_str_view, opt_view, same, text_lt};
use vstd::prelude::*;

verus! {

/// The models of pairs of a key and a value.
pub open spec fn pair_views(pairs: Seq<(String, String)>) -> Seq<(Seq<char>, Seq<char>)> {
    pairs.map_values(|p: (String, String)| (p.0@, p.1@))
}

/// The value under a key: the first one that is listed.
pub open spec fn value_under(pairs: Seq<(Seq<char>, Seq<char>)>, key: Seq<char>) -> Option<
    Seq<char>,
>
    decreases pairs.len(),
{
    if pairs.len() == 0 {
        None
    } else if pairs[0].0 == key {
        Some(pairs[0].1)
    } else {
        value_under(pairs.skip(1), key)
    }
}

/// The value under a key.
pub fn find_value(pairs: &Vec<(String, String)>, key: &str) -> (r: Option<String>)
    ensures
        opt_view(r) == value_under(pair_views(pairs@), key@),
{
    let ghost all = pair_views(pairs@);
    let mut i: usize = 0;
    assert(all.skip(0) =~= all);
    while i < pairs.len()
        invariant
            i <= pairs@.len(),
            all == pair_views(pairs@),
            value_under(all, key@) == value_under(all.skip(i as int), key@),
        decreases pairs@.len() - i,
    {
        assert(all.skip(i as int)[0] == (pairs@[i as int].0@, pairs@[i as int].1@));
        assert(all.skip(i as int).skip(1) =~= all.skip(i as int + 1));
        if same(pairs[i].0.as_str(), key) {
            return Some(pairs[i].1.clone());
        }
        i = i + 1;
    }
    None
}

/// An entry of a map.
#[derive(Debug, PartialEq, Eq)]
pub struct TextEntry {
    pub key: String,
    pub value: String,
}

impl TextEntry {
    pub open spec fn view(&self) -> (Seq<char>, Seq<char>) {
        (self.key@, self.value@)
    }
}

impl Keyed for TextEntry {
    type Model = (Seq<char>, Seq<char>);

    open spec fn entry(&self) -> (Seq<char>, Seq<char>) {
        self@
    }

    open spec fn key_of(m: (Seq<char>, Seq<char>)) -> Seq<char> {
        m.0
    }

    fn key(&self) -> (r: &str) {
        self.key.as_str()
    }
}

/// The models of a list of entries.
pub open spec fn text_entry_views(entries: Seq<TextEntry>) -> Seq<(Seq<char>, Seq<char>)> {
    entries.map_values(|e: TextEntry| e@)
}

/// The entries with one more, in the order of keys; an entry with the same key gives way.
pub open spec fn with_entry(
    entries: Seq<(Seq<char>, Seq<char>)>,
    key: Seq<char>,
    value: Seq<char>,
) -> Seq<(Seq<char>, Seq<char>)> {
    insert_keyed(entries, (key, value), |e: (Seq<char>, Seq<char>)| e.0)
}

/// What was put under a key is found there, and nothing else changes.
pub proof fn law_entry_is_found(
    entries: Seq<(Seq<char>, Seq<char>)>,
    key: Seq<char>,
    value: Seq<char>,
    other: Seq<char>,
)
    ensures
        value_under(with_entry(entries, key, value), other) == (if other == key {
            Some(value)
        } else {
            value_under(entries, other)
        }),
    decreases entries.len(),
{
    reveal_with_fuel(value_under, 2);
    let all = with_entry(entries, key, value);
    let e = (key, value);
    if entries.len() == 0 {
        assert(all =~= seq![e]);
        assert(all.skip(1) =~= Seq::empty());
    } else if entries[0].0 == key {
        assert(all.skip(1) =~= entries.skip(1));
    } else if text_lt(key, entries[0].0) {
        assert(all.skip(1) =~= entries);
    } else {
        law_entry_is_found(entries.skip(1), key, value, other);
        assert(all.skip(1) =~= with_entry(entries.skip(1), key, value));
        assert(all[0] == entries[0]);
    }
}

/// Texts by keys, in the order of the keys.
#[derive(Debug, PartialEq, Eq)]
pub struct TextMap {
    entries: Vec<TextEntry>,
}

impl TextMap {
    /// The entries, in the order of their keys.
    pub closed spec fn view(&self) -> Seq<(Seq<char>, Seq<char>)> {
        text_entry_views(self.entries@)
    }

    /// An empty map.
    pub fn new() -> (r: Self)
        ensures
            r@ == Seq::<(Seq<char>, Seq<char>)>::empty(),
    {
        let r = TextMap { entries: Vec::new() };
        assert(r@ =~= Seq::empty());
        r
    }

    /// Puts a value under a key.
    pub fn insert(&mut self, key: String, value: String)
        ensures
            final(self)@ == with_entry(old(self)@, key@, value@),
            forall|other: Seq<char>| #[trigger]
                value_under(final(self)@, other) == (if other == key@ {
                    Some(value@)
                } else {
                    value_under(old(self)@, other)
                }),
    {
        let ghost before = entries(self.entries@);
        let ghost put = (key@, value@);
        assert(before =~= text_entry_views(self.entries@));
        insert_by_key(&mut self.entries, TextEntry { key, value });
        proof {
            assert(entries(self.entries@) =~= text_entry_views(self.entries@));
            assert((|m: (Seq<char>, Seq<char>)| TextEntry::key_of(m)) =~= (|
                e: (Seq<char>, Seq<char>),
            | e.0));
            assert forall|other: Seq<char>| #[trigger]
                value_under(self@, other) == (if other == put.0 {
                    Some(put.1)
                } else {
                    value_under(before, other)
                }) by {
                law_entry_is_found(before, put.0, put.1, other);
            }
        }
    }

    /// The value under a key.
    pub fn get(&self, key: &str) -> (r: Option<&str>)
        ensures
            opt_str_view(r) == value_under(self@, key@),
    {
        let ghost all = self@;
        let mut i: usize = 0;
        assert(all.skip(0) =~= all);
        while i < self.entries.len()
            invariant
                i <= self.entries@.len(),
                all == text_entry_views(self.entries@),
                value_under(self@, key@) == value_under(all.skip(i as int), key@),
            decreases self.entries@.len() - i,
        {
            assert(all.skip(i as int)[0] == self.entries@[i as int]@);
            assert(all.skip(i as int).skip(1) =~= all.skip(i as int + 1));
            if same(self.entries[i].key.as_str(), key) {
                return Some(self.entries[i].value.as_str());
            }
            i = i + 1;
        }
        None
    }

    /// The entries, in the order of their keys.
    pub fn entries(&self) -> (r: &Vec<TextEntry>)
        ensures
            text_entry_views(r@) == self@,
    {
        &self.entries
    }

    /// The map as a JSON object.
    pub fn to_json(&self) -> (r: JsonValue)
        ensures
            r@ == text_object(self@),
    {
        broadcast use JsonValue::lemma_object_view;

        let ghost all = self@;
        let mut members: Vec<(String, JsonValue)> = Vec::new();
        let mut i: usize = 0;
        while i < self.entries.len()
            invariant
                i <= self.entries@.len(),
                all == text_entry_views(self.entries@),
                members@.len() == i,
                forall|j: int|
                    0 <= j < i ==> (#[trigger] entry_views(members@)[j]) == (
                        all[j].0,
                        JsonView::Text(all[j].1),
                    ),
            decreases self.entries@.len() - i,
        {
            let ghost done = entry_views(members@);
            members.push(
                (self.entries[i].key.clone(), JsonValue::Text(self.entries[i].value.clone())),
            );
            assert(entry_views(members@) =~= done.push((all[i as int].0, JsonView::Text(all[i as int].1))));
            i = i + 1;
        }
        let r = JsonValue::Object(members);
        assert(r@->Object_0 =~= text_object(all)->Object_0);
        r
    }
}

/// A map of texts as a JSON object.
pub open spec fn text_object(entries: Seq<(Seq<char>, Seq<char>)>) -> JsonView {
    JsonView::Object(
        entries.map_values(|e: (Seq<char>, Seq<char>)| (e.0, JsonView::Text(e.1))),
    )
}

} // verus!
