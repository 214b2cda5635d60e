//! Documents with every member that their text states.
//!
//! The map of a `serde_json` document holds one value under each name. A text may state a name more
//! than once, and a document of a fixed shape must not. So the strings of the text are numbered
//! before it is read, which keeps the members of an object apart and in the order of the text, and
//! the numbers are taken off what was read.
use crate::decode::{present, read_present};
use crate::json::{
    JsonValue, JsonView, canonical, canonical_items, entry_views, json_parse, json_views,
    parse_view,
};
use crate::text::{chars_of, decimal, decimal_of, same};
use vstd::prelude::*;

verus! {

/// The number of a string: twenty digits.
pub open spec fn mark(n: nat) -> Seq<char> {
    let digits = decimal(n);
    if digits.len() < 20 {
        Seq::new((20 - digits.len()) as nat, |i: int| '0') + digits
    } else {
        digits
    }
}

/// A text of which the strings are numbered, and where in it the last character stands.
pub struct Numbering {
    pub text: Seq<char>,
    pub count: nat,
    pub inside: bool,
    pub escaped: bool,
}

/// The numbering with one more character. The number of a string stands behind its first quote.
pub open spec fn numbered_on(before: Numbering, c: char) -> Numbering {
    if before.inside {
        Numbering {
            text: before.text.push(c),
            inside: before.escaped || c != '"',
            escaped: !before.escaped && c == '\\',
            ..before
        }
    } else if c == '"' {
        Numbering {
            text: before.text.push(c) + mark(before.count),
            count: before.count + 1,
            inside: true,
            escaped: false,
        }
    } else {
        Numbering { text: before.text.push(c), ..before }
    }
}

/// The text with its strings numbered.
pub open spec fn numbered(text: Seq<char>) -> Numbering
    decreases text.len(),
{
    if text.len() == 0 {
        Numbering { text: Seq::empty(), count: 0, inside: false, escaped: false }
    } else {
        numbered_on(numbered(text.drop_last()), text.last())
    }
}

/// The string without its number.
pub open spec fn unmarked(text: Seq<char>) -> Seq<char> {
    if text.len() >= 20 {
        text.skip(20)
    } else {
        text
    }
}

/// The document without the numbers of its strings.
pub open spec fn unnumbered(value: JsonView) -> JsonView
    decreases value,
{
    match value {
        JsonView::Text(text) => JsonView::Text(unmarked(text)),
        JsonView::Array(items) => JsonView::Array(unnumbered_items(items)),
        JsonView::Object(entries) => JsonView::Object(unnumbered_entries(entries)),
        _ => value,
    }
}

/// The items without the numbers of their strings.
pub open spec fn unnumbered_items(items: Seq<JsonView>) -> Seq<JsonView>
    decreases items,
{
    if items.len() == 0 {
        Seq::empty()
    } else {
        unnumbered_items(items.take(items.len() - 1)).push(unnumbered(items[items.len() - 1]))
    }
}

/// The entries without the numbers of their strings.
pub open spec fn unnumbered_entries(entries: Seq<(Seq<char>, JsonView)>) -> Seq<
    (Seq<char>, JsonView),
>
    decreases entries,
{
    if entries.len() == 0 {
        Seq::empty()
    } else {
        unnumbered_entries(entries.take(entries.len() - 1)).push(
            (
                unmarked(entries[entries.len() - 1].0),
                unnumbered(entries[entries.len() - 1].1),
            ),
        )
    }
}

/// The document that a text states, with every member of its objects in the order of the text; or
/// what is said of the error.
pub open spec fn members_parse(text: Seq<char>) -> Result<JsonView, Seq<char>> {
    match json_parse(text) {
        Err(error) => Err(error),
        Ok(_) => match json_parse(numbered(text).text) {
            Err(error) => Err(error),
            Ok(value) => Ok(unnumbered(value)),
        },
    }
}

fn mark_of(n: usize) -> (r: String)
    ensures
        r@ == mark(n as nat),
{
    let digits = decimal_of(n as u128);
    let ghost all = decimal(n as nat);
    let len: usize = digits.as_str().unicode_len();
    let mut r = String::new();
    let mut k: usize = len;
    assert(r@ =~= Seq::empty());
    while k < 20
        invariant
            len <= k,
            k <= 20 || k == len,
            r@.len() == k - len,
            forall|i: int| 0 <= i < r@.len() ==> r@[i] == '0',
        decreases 20 - k,
    {
        r.push('0');
        k = k + 1;
    }
    r.append(digits.as_str());
    assert(r@ =~= mark(n as nat));
    r
}

fn number_strings(text: &str) -> (r: String)
    ensures
        r@ == numbered(text@).text,
{
    let chars = chars_of(text);
    let mut r = String::new();
    let mut count: usize = 0;
    let mut inside = false;
    let mut escaped = false;
    let mut i: usize = 0;
    assert(r@ =~= Seq::empty());
    assert(text@.take(0) =~= Seq::empty());
    while i < chars.len()
        invariant
            i <= chars@.len(),
            chars@ == text@,
            count <= i,
            numbered(text@.take(i as int)) == (Numbering {
                text: r@,
                count: count as nat,
                inside,
                escaped,
            }),
        decreases chars@.len() - i,
    {
        let c = chars[i];
        let ghost done = r@;
        proof {
            assert(text@.take(i as int + 1).drop_last() =~= text@.take(i as int));
            assert(text@.take(i as int + 1).last() == c);
        }
        r.push(c);
        if inside {
            inside = escaped || c != '"';
            escaped = !escaped && c == '\\';
        } else if c == '"' {
            let number = mark_of(count);
            r.append(number.as_str());
            assert(r@ =~= done.push(c) + mark(count as nat));
            count = count + 1;
            inside = true;
            escaped = false;
        }
        i = i + 1;
    }
    assert(text@.take(i as int) =~= text@);
    r
}

fn without_mark(text: &str) -> (r: String)
    ensures
        r@ == unmarked(text@),
{
    let n: usize = text.unicode_len();
    if n >= 20 {
        let rest = text.substring_char(20, n);
        assert(rest@ =~= text@.skip(20));
        rest.to_owned()
    } else {
        text.to_owned()
    }
}

fn without_numbers(value: &JsonValue) -> (r: JsonValue)
    ensures
        r@ == unnumbered(value@),
    decreases value,
{
    broadcast use {JsonValue::lemma_array_view, JsonValue::lemma_object_view};

    match value {
        JsonValue::Null => JsonValue::Null,
        JsonValue::Bool(b) => JsonValue::Bool(*b),
        JsonValue::Number(n) => JsonValue::Number(n.clone()),
        JsonValue::Text(text) => JsonValue::Text(without_mark(text.as_str())),
        JsonValue::Array(items) => {
            let ghost source = json_views(items@);
            let mut out: Vec<JsonValue> = Vec::new();
            let mut i: usize = 0;
            assert(json_views(out@) =~= unnumbered_items(source.take(0)));
            while i < items.len()
                invariant
                    i <= items@.len(),
                    *value == JsonValue::Array(*items),
                    source == json_views(items@),
                    json_views(out@) == unnumbered_items(source.take(i as int)),
                decreases items@.len() - i,
            {
                let ghost done = json_views(out@);
                assert(decreases_to!(value => value->Array_0@[i as int]));
                let item = without_numbers(&items[i]);
                out.push(item);
                proof {
                    let more = source.take(i as int + 1);
                    assert(more.take(more.len() - 1) =~= source.take(i as int));
                    assert(json_views(out@) =~= done.push(unnumbered(source[i as int])));
                }
                i = i + 1;
            }
            assert(source.take(i as int) =~= source);
            JsonValue::Array(out)
        },
        JsonValue::Object(entries) => {
            let ghost source = entry_views(entries@);
            let mut out: Vec<(String, JsonValue)> = Vec::new();
            let mut i: usize = 0;
            assert(entry_views(out@) =~= unnumbered_entries(source.take(0)));
            while i < entries.len()
                invariant
                    i <= entries@.len(),
                    *value == JsonValue::Object(*entries),
                    source == entry_views(entries@),
                    entry_views(out@) == unnumbered_entries(source.take(i as int)),
                decreases entries@.len() - i,
            {
                let ghost done = entry_views(out@);
                assert(decreases_to!(value => value->Object_0@[i as int].1));
                let key = without_mark(entries[i].0.as_str());
                let member = without_numbers(&entries[i].1);
                out.push((key, member));
                proof {
                    let more = source.take(i as int + 1);
                    assert(more.take(more.len() - 1) =~= source.take(i as int));
                    assert(entry_views(out@) =~= done.push(
                        (unmarked(source[i as int].0), unnumbered(source[i as int].1)),
                    ));
                }
                i = i + 1;
            }
            assert(source.take(i as int) =~= source);
            JsonValue::Object(out)
        },
    }
}

impl JsonValue {
    /// Reads a text as JSON, with every member that it states; an error is given as its message.
    pub fn parse_members(text: &str) -> (r: Result<JsonValue, String>)
        ensures
            parse_view(r) == members_parse(text@),
    {
        if let Err(error) = JsonValue::parse(text) {
            return Err(error);
        }
        match JsonValue::parse(number_strings(text).as_str()) {
            Ok(value) => Ok(without_numbers(&value)),
            Err(error) => Err(error),
        }
    }

    /// The document as a `serde_json` value holds it: of the members with one name the last.
    pub fn settled(&self) -> (r: JsonValue)
        ensures
            r@ == canonical(self@),
    {
        JsonValue::from_serde(self.to_serde())
    }
}

/// The documents as `serde_json` values hold them.
pub fn settled_documents(items: &Vec<JsonValue>) -> (r: Vec<JsonValue>)
    ensures
        json_views(r@) == canonical_items(json_views(items@)),
{
    let ghost all = json_views(items@);
    let mut r: Vec<JsonValue> = Vec::new();
    let mut i: usize = 0;
    assert(json_views(r@) =~= canonical_items(all.take(0)));
    while i < items.len()
        invariant
            i <= items@.len(),
            all == json_views(items@),
            json_views(r@) == canonical_items(all.take(i as int)),
        decreases items@.len() - i,
    {
        let ghost done = json_views(r@);
        r.push(items[i].settled());
        proof {
            let more = all.take(i as int + 1);
            assert(more.take(more.len() - 1) =~= all.take(i as int));
            assert(json_views(r@) =~= done.push(canonical(all[i as int])));
        }
        i = i + 1;
    }
    assert(all.take(i as int) =~= all);
    r
}

/// The names of members.
pub open spec fn names_of(names: Seq<&str>) -> Seq<Seq<char>> {
    names.map_values(|name: &str| name@)
}

/// More than one of the entries has the name.
pub open spec fn is_repeated(entries: Seq<(Seq<char>, JsonView)>, name: Seq<char>) -> bool {
    exists|i: int, j: int|
        0 <= i < j < entries.len() && (#[trigger] entries[i]).0 == name && (
        #[trigger] entries[j]).0 == name
}

/// More than one of the entries has one of the names.
pub open spec fn repeats_any(
    entries: Seq<(Seq<char>, JsonView)>,
    names: Seq<Seq<char>>,
) -> bool {
    exists|k: int| 0 <= k < names.len() && is_repeated(entries, #[trigger] names[k])
}

/// The items as members with the names, in their order.
pub open spec fn listed_members(names: Seq<Seq<char>>, items: Seq<JsonView>) -> JsonView {
    JsonView::Object(Seq::new(items.len(), |i: int| (names[i], items[i])))
}

/// The document is an object that states a member twice.
pub open spec fn states_twice(value: JsonView, name: Seq<char>) -> bool {
    match value {
        JsonView::Object(entries) => is_repeated(entries, name),
        _ => false,
    }
}

/// What a document states of a fixed shape, as an object: it is an object that states no member of
/// the shape twice, or an array of the members in their order, of which those behind the needed
/// ones may be left out.
pub open spec fn stated(value: JsonView, names: Seq<Seq<char>>, needed: nat) -> Option<JsonView> {
    match value {
        JsonView::Object(entries) => if repeats_any(entries, names) {
            None
        } else {
            Some(value)
        },
        JsonView::Array(items) => if needed <= items.len() <= names.len() {
            Some(listed_members(names, items))
        } else {
            None
        },
        _ => None,
    }
}

/// The model of an optional document.
pub open spec fn opt_stated(value: Option<JsonValue>) -> Option<JsonView> {
    match value {
        Some(value) => Some(value@),
        None => None,
    }
}

fn repeated(entries: &Vec<(String, JsonValue)>, name: &str) -> (r: bool)
    ensures
        r == is_repeated(entry_views(entries@), name@),
{
    let ghost all = entry_views(entries@);
    let mut found = false;
    let mut i: usize = 0;
    while i < entries.len()
        invariant
            i <= entries@.len(),
            all == entry_views(entries@),
            found == exists|k: int| 0 <= k < i && (#[trigger] all[k]).0 == name@,
            !is_repeated(all.take(i as int), name@),
        decreases entries@.len() - i,
    {
        assert(all[i as int].0 == entries@[i as int].0@);
        let ghost more = all.take(i as int + 1);
        if same(entries[i].0.as_str(), name) {
            if found {
                return true;
            }
            found = true;
        }
        proof {
            if is_repeated(more, name@) {
                let (a, b) = choose|a: int, b: int|
                    0 <= a < b < more.len() && (#[trigger] more[a]).0 == name@ && (
                    #[trigger] more[b]).0 == name@;
                assert(more[a] == all[a] && more[b] == all[b]);
                assert(all.take(i as int)[a] == all[a]);
                if b < i {
                    assert(all.take(i as int)[b] == all[b]);
                }
                assert(false);
            }
        }
        i = i + 1;
    }
    assert(all.take(i as int) =~= all);
    false
}

fn repeats_one_of(entries: &Vec<(String, JsonValue)>, names: &[&str]) -> (r: bool)
    ensures
        r == repeats_any(entry_views(entries@), names_of(names@)),
{
    let ghost wanted = names_of(names@);
    let mut i: usize = 0;
    while i < names.len()
        invariant
            i <= names@.len(),
            wanted == names_of(names@),
            forall|k: int|
                0 <= k < i ==> !is_repeated(entry_views(entries@), #[trigger] wanted[k]),
        decreases names@.len() - i,
    {
        let name: &str = names[i];
        assert(wanted[i as int] == name@);
        if repeated(entries, name) {
            return true;
        }
        i = i + 1;
    }
    false
}

/// The document is an object that states a member twice.
pub fn twice_stated(value: &JsonValue, name: &str) -> (r: bool)
    ensures
        r == states_twice(value@, name@),
{
    broadcast use {JsonValue::lemma_array_view, JsonValue::lemma_object_view};

    match value {
        JsonValue::Object(entries) => repeated(entries, name),
        _ => false,
    }
}

/// What a document states of a fixed shape, as an object.
pub fn read_stated(value: &JsonValue, names: &[&str], needed: usize) -> (r: Option<JsonValue>)
    ensures
        opt_stated(r) == stated(value@, names_of(names@), needed as nat),
{
    broadcast use {JsonValue::lemma_array_view, JsonValue::lemma_object_view};

    match value {
        JsonValue::Object(entries) => {
            if repeats_one_of(entries, names) {
                None
            } else {
                Some(value.clone())
            }
        },
        JsonValue::Array(items) => {
            if items.len() < needed || items.len() > names.len() {
                return None;
            }
            let ghost wanted = names_of(names@);
            let ghost all = json_views(items@);
            let mut out: Vec<(String, JsonValue)> = Vec::new();
            let mut i: usize = 0;
            while i < items.len()
                invariant
                    i <= items@.len() <= names@.len(),
                    wanted == names_of(names@),
                    all == json_views(items@),
                    out@.len() == i,
                    forall|k: int|
                        0 <= k < i ==> (#[trigger] out@[k]).0@ == wanted[k] && out@[k].1@
                            == all[k],
                decreases items@.len() - i,
            {
                let name: &str = names[i];
                assert(wanted[i as int] == name@);
                out.push((name.to_owned(), items[i].clone()));
                i = i + 1;
            }
            assert(entry_views(out@) =~= listed_members(wanted, all)->Object_0);
            Some(JsonValue::Object(out))
        },
        _ => None,
    }
}

/// The member as a document of its own, where it is there and not null.
pub open spec fn present_document(value: JsonView, key: Seq<char>) -> Option<JsonView> {
    match present(value, key) {
        Some(member) => Some(canonical(member)),
        None => None,
    }
}

/// The member as a document of its own, where it is there and not null.
pub fn settled_present(value: &JsonValue, key: &str) -> (r: Option<JsonValue>)
    ensures
        opt_stated(r) == present_document(value@, key@),
{
    match read_present(value, key) {
        Some(member) => Some(member.settled()),
        None => None,
    }
}

} // verus!
