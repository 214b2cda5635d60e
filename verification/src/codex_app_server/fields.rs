//! Reading the fields of the JSON messages that a Codex app server sends.
//!
//! The server's messages are loosely shaped: one datum may stand under several keys. Each
//! function here names the keys that it looks under, in their order.
use crate::json::{JsonValue, JsonView, json_views, lookup};
use crate::text::{blank, chars_of, is_blank, join, joined, lower, lowered, opt_view, same, views};
use vstd::prelude::*;

verus! {

/// The texts of a list of keys.
pub open spec fn key_views(keys: Seq<&str>) -> Seq<Seq<char>> {
    keys.map_values(|k: &str| k@)
}

/// What a field says: the text of a string that is not blank, or the numeral of a number.
pub open spec fn scalar(value: Option<JsonView>) -> Option<Seq<char>> {
    match value {
        Some(JsonView::Text(s)) => if is_blank(s) {
            None
        } else {
            Some(s)
        },
        Some(JsonView::Number(n)) => Some(n.text),
        _ => None,
    }
}

/// What the first of the keys says that says anything.
pub open spec fn string_field_of(value: JsonView, keys: Seq<Seq<char>>) -> Option<Seq<char>>
    decreases keys.len(),
{
    if keys.len() == 0 {
        None
    } else {
        match scalar(value.get(keys[0])) {
            Some(text) => Some(text),
            None => string_field_of(value, keys.skip(1)),
        }
    }
}

/// The truth value of a field: a boolean, or one of the texts `true` and `false`.
pub open spec fn truth(value: Option<JsonView>) -> Option<bool> {
    match value {
        Some(JsonView::Bool(b)) => Some(b),
        Some(JsonView::Text(s)) => if s == "true"@ {
            Some(true)
        } else if s == "false"@ {
            Some(false)
        } else {
            None
        },
        _ => None,
    }
}

/// The truth value under the first of the keys that has one; false where none has.
pub open spec fn bool_field_of(value: JsonView, keys: Seq<Seq<char>>) -> bool
    decreases keys.len(),
{
    if keys.len() == 0 {
        false
    } else {
        match truth(value.get(keys[0])) {
            Some(b) => b,
            None => bool_field_of(value, keys.skip(1)),
        }
    }
}

/// One of the keys is there.
pub open spec fn has_any_field(value: JsonView, keys: Seq<Seq<char>>) -> bool {
    exists|i: int| 0 <= i < keys.len() && (#[trigger] value.get(keys[i])) is Some
}

/// There is an array under one of the keys.
pub open spec fn has_array_field(value: JsonView, keys: Seq<Seq<char>>) -> bool {
    exists|i: int| 0 <= i < keys.len() && (#[trigger] value.get_items(keys[i])) is Some
}

/// The member of an object is smaller than the object.
pub proof fn lemma_get_smaller(value: JsonView, key: Seq<char>)
    ensures
        value.get(key) matches Some(child) ==> decreases_to!(value => child),
{
    if value is Object {
        lemma_lookup_index(value->Object_0, key);
        if value.get(key) is Some {
            let i = choose|i: int|
                0 <= i < value->Object_0.len() && value.get(key) == Some(
                    #[trigger] value->Object_0[i].1,
                );
            assert(decreases_to!(value => value->Object_0[i].1));
        }
    }
}

/// What is looked up stands among the entries.
pub proof fn lemma_lookup_index(entries: Seq<(Seq<char>, JsonView)>, key: Seq<char>)
    ensures
        lookup(entries, key) is Some ==> exists|i: int|
            0 <= i < entries.len() && lookup(entries, key) == Some(#[trigger] entries[i].1),
    decreases entries.len(),
{
    if entries.len() > 0 && entries[0].0 != key {
        lemma_lookup_index(entries.skip(1), key);
        if lookup(entries, key) is Some {
            let i = choose|i: int|
                0 <= i < entries.skip(1).len() && lookup(entries, key) == Some(
                    #[trigger] entries.skip(1)[i].1,
                );
            assert(entries[i + 1].1 == entries.skip(1)[i].1);
        }
    } else if entries.len() > 0 {
        assert(lookup(entries, key) == Some(entries[0].1));
    }
}

/// The keys under which a message holds its text.
pub open spec fn text_keys() -> Seq<Seq<char>> {
    seq![
        "text"@,
        "delta"@,
        "message"@,
        "output"@,
        "body"@,
        "content"@,
        "plan"@,
        "command"@,
        "error"@,
    ]
}

/// The text of a message: its own, else that of its `item`, else that of its `event`.
pub open spec fn text_of(value: JsonView) -> Option<Seq<char>>
    decreases value,
{
    match string_field_of(value, text_keys()) {
        Some(text) => Some(text),
        None => {
            proof {
                lemma_get_smaller(value, "item"@);
                lemma_get_smaller(value, "event"@);
            }
            let from_item = match value.get("item"@) {
                Some(item) => text_of(item),
                None => None,
            };
            match from_item {
                Some(text) => Some(text),
                None => match value.get("event"@) {
                    Some(event) => text_of(event),
                    None => None,
                },
            }
        },
    }
}

/// The ASCII letters and digits.
pub open spec fn is_alphanumeric(c: char) -> bool {
    ('a' <= c <= 'z') || ('A' <= c <= 'Z') || ('0' <= c <= '9')
}

/// An identifier without punctuation and case: its letters and digits, in small letters.
pub open spec fn normalized_identifier(s: Seq<char>) -> Seq<char> {
    lower(s.filter(|c: char| is_alphanumeric(c)))
}

/// The texts among the items of an array: its strings, and the numerals of its numbers.
pub open spec fn word_parts(items: Seq<JsonView>) -> Seq<Seq<char>>
    decreases items.len(),
{
    if items.len() == 0 {
        Seq::empty()
    } else {
        let before = word_parts(items.drop_last());
        match items.last() {
            JsonView::Text(s) => before.push(s),
            JsonView::Number(n) => before.push(n.text),
            _ => before,
        }
    }
}

/// `text`, where it is not blank.
pub open spec fn not_blank(text: Seq<char>) -> Option<Seq<char>> {
    if is_blank(text) {
        None
    } else {
        Some(text)
    }
}

/// The list of the word, where there is one.
pub open spec fn opt_word(word: Option<Seq<char>>) -> Seq<Seq<char>> {
    match word {
        Some(word) => seq![word],
        None => Seq::empty(),
    }
}

/// The command line of an `execve` record: its program, then its arguments.
pub open spec fn execve_command(execve: JsonView) -> Seq<char> {
    let program = string_field_of(execve, seq!["program"@]);
    let argv = match execve.get_items("argv"@) {
        Some(items) => word_parts(items),
        None => Seq::empty(),
    };
    join(opt_word(program) + argv, " "@)
}

/// The command that a message is about: the one of its `execve` record, else its `command`, which
/// is a text or a list of words.
pub open spec fn command_of(value: JsonView) -> Option<Seq<char>> {
    let executed = match value.get("execve"@) {
        Some(execve) => not_blank(execve_command(execve)),
        None => None,
    };
    match executed {
        Some(command) => Some(command),
        None => match value.get("command"@) {
            Some(JsonView::Array(parts)) => not_blank(join(word_parts(parts), " "@)),
            _ => string_field_of(value, seq!["command"@]),
        },
    }
}

/// What a field says.
fn scalar_field(value: &JsonValue, key: &str) -> (r: Option<String>)
    ensures
        opt_view(r) == scalar(value@.get(key@)),
{
    match value.get(key) {
        Some(JsonValue::Text(s)) => {
            if blank(s.as_str()) {
                None
            } else {
                Some(s.clone())
            }
        },
        Some(field) => match field.as_number() {
            Some(parts) => Some(parts.text),
            None => None,
        },
        None => None,
    }
}

/// What the first of the keys says that says anything.
pub fn string_field(value: &JsonValue, keys: &[&str]) -> (r: Option<String>)
    ensures
        opt_view(r) == string_field_of(value@, key_views(keys@)),
{
    let mut i: usize = 0;
    let ghost all = key_views(keys@);
    assert(all.skip(0) =~= all);
    while i < keys.len()
        invariant
            i <= keys@.len(),
            all == key_views(keys@),
            string_field_of(value@, all) == string_field_of(value@, all.skip(i as int)),
        decreases keys@.len() - i,
    {
        assert(all.skip(i as int)[0] == keys@[i as int]@);
        assert(all.skip(i as int).skip(1) =~= all.skip(i as int + 1));
        let found = scalar_field(value, keys[i]);
        if found.is_some() {
            return found;
        }
        i = i + 1;
    }
    None
}

/// The truth value under the first of the keys that has one.
pub fn bool_field(value: &JsonValue, keys: &[&str]) -> (r: bool)
    ensures
        r == bool_field_of(value@, key_views(keys@)),
{
    let mut i: usize = 0;
    let ghost all = key_views(keys@);
    assert(all.skip(0) =~= all);
    while i < keys.len()
        invariant
            i <= keys@.len(),
            all == key_views(keys@),
            bool_field_of(value@, all) == bool_field_of(value@, all.skip(i as int)),
        decreases keys@.len() - i,
    {
        assert(all.skip(i as int)[0] == keys@[i as int]@);
        assert(all.skip(i as int).skip(1) =~= all.skip(i as int + 1));
        match value.get(keys[i]) {
            Some(JsonValue::Bool(b)) => {
                return *b;
            },
            Some(JsonValue::Text(s)) => {
                proof {
                    reveal_strlit("true");
                    reveal_strlit("false");
                }
                if same(s.as_str(), "true") {
                    return true;
                }
                if same(s.as_str(), "false") {
                    return false;
                }
            },
            _ => {},
        }
        i = i + 1;
    }
    false
}

/// One of the keys is there.
pub fn value_has_any_field(value: &JsonValue, keys: &[&str]) -> (r: bool)
    ensures
        r == has_any_field(value@, key_views(keys@)),
{
    let mut i: usize = 0;
    let ghost all = key_views(keys@);
    while i < keys.len()
        invariant
            i <= keys@.len(),
            all == key_views(keys@),
            forall|j: int| 0 <= j < i ==> (#[trigger] value@.get(all[j])) is None,
        decreases keys@.len() - i,
    {
        assert(all[i as int] == keys@[i as int]@);
        if value.get(keys[i]).is_some() {
            assert(value@.get(all[i as int]) is Some);
            return true;
        }
        i = i + 1;
    }
    false
}

/// There is an array under one of the keys.
pub fn value_has_array_field(value: &JsonValue, keys: &[&str]) -> (r: bool)
    ensures
        r == has_array_field(value@, key_views(keys@)),
{
    let mut i: usize = 0;
    let ghost all = key_views(keys@);
    while i < keys.len()
        invariant
            i <= keys@.len(),
            all == key_views(keys@),
            forall|j: int| 0 <= j < i ==> (#[trigger] value@.get_items(all[j])) is None,
        decreases keys@.len() - i,
    {
        assert(all[i as int] == keys@[i as int]@);
        if let Some(field) = value.get(keys[i]) {
            if field.as_array().is_some() {
                assert(value@.get_items(all[i as int]) is Some);
                return true;
            }
        }
        assert(value@.get_items(all[i as int]) is None);
        i = i + 1;
    }
    false
}

/// The text of a message.
pub fn text_from_value(value: &JsonValue) -> (r: Option<String>)
    ensures
        opt_view(r) == text_of(value@),
    decreases value,
{
    let keys: [&str; 9] = [
        "text",
        "delta",
        "message",
        "output",
        "body",
        "content",
        "plan",
        "command",
        "error",
    ];
    assert(key_views(keys@) =~= text_keys());
    let own = string_field(value, &keys);
    if own.is_some() {
        return own;
    }
    if let Some(item) = value.get("item") {
        let text = text_from_value(item);
        if text.is_some() {
            return text;
        }
    }
    match value.get("event") {
        Some(event) => text_from_value(event),
        None => None,
    }
}

/// The ASCII letters and digits.
fn alphanumeric(c: char) -> (r: bool)
    ensures
        r == is_alphanumeric(c),
{
    ('a' <= c && c <= 'z') || ('A' <= c && c <= 'Z') || ('0' <= c && c <= '9')
}

/// An identifier without punctuation and case.
pub fn normalize_identifier(value: &str) -> (r: String)
    ensures
        r@ == normalized_identifier(value@),
{
    let v = chars_of(value);
    let ghost keep = |c: char| is_alphanumeric(c);
    let mut kept = String::new();
    let mut i: usize = 0;
    while i < v.len()
        invariant
            v@ == value@,
            i <= v@.len(),
            keep == (|c: char| is_alphanumeric(c)),
            kept@ == v@.take(i as int).filter(keep),
        decreases v@.len() - i,
    {
        proof {
            reveal(Seq::filter);
            assert(v@.take(i as int + 1).drop_last() =~= v@.take(i as int));
        }
        if alphanumeric(v[i]) {
            kept.push(v[i]);
        }
        i = i + 1;
    }
    assert(v@.take(i as int) =~= v@);
    lowered(kept.as_str())
}

/// The texts among the items of an array.
fn words_of_items(items: &Vec<JsonValue>, program: Option<String>) -> (r: Vec<String>)
    ensures
        views(r@) == opt_word(opt_view(program)) + word_parts(json_views(items@)),
{
    let mut r: Vec<String> = Vec::new();
    let ghost first = opt_word(opt_view(program));
    if let Some(program) = program {
        r.push(program);
    }
    let ghost all = json_views(items@);
    let mut i: usize = 0;
    assert(views(r@) =~= first + word_parts(all.take(0)));
    while i < items.len()
        invariant
            i <= items@.len(),
            all == json_views(items@),
            views(r@) == first + word_parts(all.take(i as int)),
        decreases items@.len() - i,
    {
        let ghost done = views(r@);
        proof {
            assert(all.take(i as int + 1).drop_last() =~= all.take(i as int));
            assert(all.take(i as int + 1).last() == items@[i as int]@);
        }
        match &items[i] {
            JsonValue::Text(s) => {
                r.push(s.clone());
                assert(views(r@) =~= done.push(s@));
            },
            item => {
                if let Some(parts) = item.as_number() {
                    r.push(parts.text);
                    assert(views(r@) =~= done.push(parts.text@));
                }
            },
        }
        assert(views(r@) =~= first + word_parts(all.take(i as int + 1)));
        i = i + 1;
    }
    assert(all.take(i as int) =~= all);
    r
}

/// `text`, where it is not blank.
fn keep_not_blank(text: String) -> (r: Option<String>)
    ensures
        opt_view(r) == not_blank(text@),
{
    if blank(text.as_str()) {
        None
    } else {
        Some(text)
    }
}

/// The command line of an `execve` record.
fn execve_line(execve: &JsonValue) -> (r: String)
    ensures
        r@ == execve_command(execve@),
{
    let keys: [&str; 1] = ["program"];
    assert(key_views(keys@) =~= seq!["program"@]);
    let program = string_field(execve, &keys);
    let none: Vec<JsonValue> = Vec::new();
    let argv: &Vec<JsonValue> = match execve.get("argv") {
        Some(argv) => match argv.as_array() {
            Some(items) => items,
            None => &none,
        },
        None => &none,
    };
    let words = words_of_items(argv, program);
    assert(execve@.get_items("argv"@) is None ==> json_views(argv@) =~= Seq::empty());
    joined(&words, " ")
}

/// The command that a message is about.
pub fn command_field(value: &JsonValue) -> (r: Option<String>)
    ensures
        opt_view(r) == command_of(value@),
{
    broadcast use JsonValue::lemma_array_view;

    if let Some(execve) = value.get("execve") {
        let command = keep_not_blank(execve_line(execve));
        if command.is_some() {
            return command;
        }
    }
    match value.get("command") {
        Some(JsonValue::Array(parts)) => {
            let words = words_of_items(parts, None);
            assert(views(words@) =~= word_parts(json_views(parts@)));
            keep_not_blank(joined(&words, " "))
        },
        _ => {
            let keys: [&str; 1] = ["command"];
            assert(key_views(keys@) =~= seq!["command"@]);
            string_field(value, &keys)
        },
    }
}

} // verus!
