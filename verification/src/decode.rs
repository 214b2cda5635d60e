//! Reading the members of JSON objects whose shape is fixed.
//!
//! Each reader gives `None` where the member does not have the shape that it must have.
use crate::json::{JsonValue, JsonView, json_views, opt_json_view};
use crate::text::{opt_view, views};
use vstd::prelude::*;

verus! {

/// An optional text: absent where the member is absent or null.
pub open spec fn optional_text(value: JsonView, key: Seq<char>) -> Option<Option<Seq<char>>> {
    match value.get(key) {
        None | Some(JsonView::Null) => Some(None),
        Some(JsonView::Text(s)) => Some(Some(s)),
        _ => None,
    }
}

/// A text that may be left out.
pub open spec fn default_text(value: JsonView, key: Seq<char>) -> Option<Seq<char>> {
    match value.get(key) {
        None => Some(Seq::empty()),
        Some(JsonView::Text(s)) => Some(s),
        _ => None,
    }
}

/// A truth value that may be left out.
pub open spec fn default_flag(value: JsonView, key: Seq<char>) -> Option<bool> {
    match value.get(key) {
        None => Some(false),
        Some(JsonView::Bool(b)) => Some(b),
        _ => None,
    }
}

/// The member, where it is there and not null.
pub open spec fn present(value: JsonView, key: Seq<char>) -> Option<JsonView> {
    match value.get(key) {
        None | Some(JsonView::Null) => None,
        Some(member) => Some(member),
    }
}

/// The texts of an array of texts.
pub open spec fn texts_of(items: Seq<JsonView>) -> Option<Seq<Seq<char>>>
    decreases items.len(),
{
    if items.len() == 0 {
        Some(Seq::empty())
    } else {
        match (texts_of(items.drop_last()), items.last()) {
            (Some(before), JsonView::Text(s)) => Some(before.push(s)),
            _ => None,
        }
    }
}

/// A list of texts.
pub open spec fn text_list(value: JsonView, key: Seq<char>) -> Option<Seq<Seq<char>>> {
    match value.get(key) {
        Some(JsonView::Array(items)) => texts_of(items),
        _ => None,
    }
}

/// A list of texts that may be left out.
pub open spec fn default_text_list(value: JsonView, key: Seq<char>) -> Option<Seq<Seq<char>>> {
    match value.get(key) {
        None => Some(Seq::empty()),
        _ => text_list(value, key),
    }
}

/// A list of documents that may be left out.
pub open spec fn default_list(value: JsonView, key: Seq<char>) -> Option<Seq<JsonView>> {
    match value.get(key) {
        None => Some(Seq::empty()),
        Some(JsonView::Array(items)) => Some(items),
        _ => None,
    }
}

/// The model of an optional text that was read.
pub open spec fn read_text_view(r: Option<Option<String>>) -> Option<Option<Seq<char>>> {
    match r {
        Some(text) => Some(opt_view(text)),
        None => None,
    }
}

/// The model of a list of texts that was read.
pub open spec fn read_texts_view(r: Option<Vec<String>>) -> Option<Seq<Seq<char>>> {
    match r {
        Some(texts) => Some(views(texts@)),
        None => None,
    }
}

/// A text.
pub fn read_text(value: &JsonValue, key: &str) -> (r: Option<String>)
    ensures
        opt_view(r) == value@.get_text(key@),
{
    match value.get_str(key) {
        Some(text) => Some(text.to_owned()),
        None => None,
    }
}

/// An optional text.
pub fn read_optional_text(value: &JsonValue, key: &str) -> (r: Option<Option<String>>)
    ensures
        read_text_view(r) == optional_text(value@, key@),
{
    match value.get(key) {
        None => Some(None),
        Some(JsonValue::Null) => Some(None),
        Some(JsonValue::Text(s)) => Some(Some(s.clone())),
        Some(_) => None,
    }
}

/// A text that may be left out.
pub fn read_default_text(value: &JsonValue, key: &str) -> (r: Option<String>)
    ensures
        opt_view(r) == default_text(value@, key@),
{
    match value.get(key) {
        None => {
            let r = String::new();
            assert(r@ =~= Seq::empty());
            Some(r)
        },
        Some(JsonValue::Text(s)) => Some(s.clone()),
        Some(_) => None,
    }
}

/// A truth value that may be left out.
pub fn read_default_flag(value: &JsonValue, key: &str) -> (r: Option<bool>)
    ensures
        r == default_flag(value@, key@),
{
    match value.get(key) {
        None => Some(false),
        Some(JsonValue::Bool(b)) => Some(*b),
        Some(_) => None,
    }
}

/// The member, where it is there and not null.
pub fn read_present<'a>(value: &'a JsonValue, key: &str) -> (r: Option<&'a JsonValue>)
    ensures
        opt_json_view(r) == present(value@, key@),
{
    match value.get(key) {
        None => None,
        Some(JsonValue::Null) => None,
        Some(member) => Some(member),
    }
}

/// The texts of an array of texts.
pub fn read_texts(items: &Vec<JsonValue>) -> (r: Option<Vec<String>>)
    ensures
        read_texts_view(r) == texts_of(json_views(items@)),
{
    let ghost all = json_views(items@);
    let mut r: Vec<String> = Vec::new();
    let mut i: usize = 0;
    assert(views(r@) =~= Seq::empty());
    assert(texts_of(all.take(0)) == Some(views(r@)));
    while i < items.len()
        invariant
            i <= items@.len(),
            all == json_views(items@),
            texts_of(all.take(i as int)) == Some(views(r@)),
        decreases items@.len() - i,
    {
        let ghost done = views(r@);
        proof {
            assert(all.take(i as int + 1).drop_last() =~= all.take(i as int));
            assert(all.take(i as int + 1).last() == items@[i as int]@);
        }
        match &items[i] {
            JsonValue::Text(s) => {
                r.push(s.clone());
                assert(views(r@) =~= done.push(s@));
            },
            _ => {
                proof {
                    assert(texts_of(all.take(i as int + 1)) is None);
                    lemma_texts_prefix(all, i as int + 1);
                }
                return None;
            },
        }
        i = i + 1;
    }
    assert(all.take(i as int) =~= all);
    Some(r)
}

proof fn lemma_texts_prefix(items: Seq<JsonView>, n: int)
    requires
        0 <= n <= items.len(),
        texts_of(items.take(n)) is None,
    ensures
        texts_of(items) is None,
    decreases items.len(),
{
    if n == items.len() {
        assert(items.take(n) =~= items);
    } else {
        assert(items.drop_last().take(n) =~= items.take(n));
        lemma_texts_prefix(items.drop_last(), n);
    }
}

/// A list of texts.
pub fn read_text_list(value: &JsonValue, key: &str) -> (r: Option<Vec<String>>)
    ensures
        read_texts_view(r) == text_list(value@, key@),
{
    broadcast use JsonValue::lemma_array_view;

    match value.get(key) {
        Some(JsonValue::Array(items)) => read_texts(items),
        _ => None,
    }
}

/// A list of texts that may be left out.
pub fn read_default_text_list(value: &JsonValue, key: &str) -> (r: Option<Vec<String>>)
    ensures
        read_texts_view(r) == default_text_list(value@, key@),
{
    match value.get(key) {
        None => {
            let r: Vec<String> = Vec::new();
            assert(views(r@) =~= Seq::empty());
            Some(r)
        },
        Some(_) => read_text_list(value, key),
    }
}

/// A member that has to be a whole number of 16 bits.
pub open spec fn small_number(value: JsonView, key: Seq<char>) -> Option<u16> {
    match value.get(key) {
        Some(JsonView::Number(n)) => match n.unsigned {
            Some(n) => if n <= u16::MAX {
                Some(n as u16)
            } else {
                None
            },
            None => None,
        },
        _ => None,
    }
}

/// A member that has to be a flag.
pub open spec fn flag(value: JsonView, key: Seq<char>) -> Option<bool> {
    match value.get(key) {
        Some(JsonView::Bool(b)) => Some(b),
        _ => None,
    }
}

/// Reads a member that has to be a whole number of 16 bits.
pub fn read_small_number(value: &JsonValue, key: &str) -> (r: Option<u16>)
    ensures
        r == small_number(value@, key@),
{
    match value.get(key) {
        Some(member) => match member.as_number() {
            Some(parts) => match parts.unsigned {
                Some(n) => {
                    if n <= u16::MAX as u64 {
                        Some(n as u16)
                    } else {
                        None
                    }
                },
                None => None,
            },
            None => None,
        },
        None => None,
    }
}

/// Reads a member that has to be a flag.
pub fn read_flag(value: &JsonValue, key: &str) -> (r: Option<bool>)
    ensures
        r == flag(value@, key@),
{
    match value.get(key) {
        Some(JsonValue::Bool(b)) => Some(*b),
        _ => None,
    }
}

} // verus!
