//! What is wrong with a document that has not the shape that it must have.
use crate::decode::texts_of;
use crate::json::{JsonValue, JsonView, entry_views, json_views, lookup};
use crate::members::{is_repeated, listed_members, names_of, repeats_any, stated};
use crate::text::{concat2, concat3, decimal, decimal_of, opt_view, same};
use vstd::prelude::*;

verus! {

/// The shape of a document: an object with certain members, or an array of them in their order.
pub trait Shape {
    /// What is expected.
    spec fn title() -> Seq<char>;

    /// The names of the members, in their order.
    spec fn names() -> Seq<Seq<char>>;

    /// How many of the members an array has to hold.
    spec fn needed() -> nat;

    /// An object may lack the member.
    spec fn may_lack(name: Seq<char>) -> bool;

    /// What is wrong with the member that has the name.
    spec fn fault(name: Seq<char>, member: JsonView) -> Option<Seq<char>>;

    /// No name stands twice, and what an array may leave out an object may lack.
    proof fn names_are_sound()
        ensures
            Self::names().no_duplicates(),
            Self::needed() <= Self::names().len(),
            forall|k: int|
                Self::needed() <= k < Self::names().len() ==> Self::may_lack(
                    #[trigger] Self::names()[k],
                ),
    ;

    /// What is expected.
    fn expected() -> (r: &'static str)
        ensures
            r@ == Self::title(),
    ;

    /// The names of the members, in their order.
    fn member_names() -> (r: Vec<&'static str>)
        ensures
            names_of(r@) == Self::names(),
    ;

    /// How many of the members an array has to hold.
    fn needed_count() -> (r: usize)
        ensures
            r == Self::needed(),
    ;

    /// An object may lack the member.
    fn can_lack(name: &str) -> (r: bool)
        ensures
            r == Self::may_lack(name@),
    ;

    /// What is wrong with the member that has the name.
    fn find_fault(name: &str, member: &JsonValue) -> (r: Option<String>)
        ensures
            opt_view(r) == Self::fault(name@, member@),
    ;
}

/// What a document is called where another kind is expected.
pub open spec fn kind_name(value: JsonView) -> Seq<char> {
    match value {
        JsonView::Null => "null"@,
        JsonView::Bool(_) => "boolean"@,
        JsonView::Number(n) => if n.unsigned is Some || n.signed is Some {
            "integer"@
        } else {
            "floating point"@
        },
        JsonView::Text(_) => "string"@,
        JsonView::Array(_) => "sequence"@,
        JsonView::Object(_) => "map"@,
    }
}

/// What is said of a document of another kind than the expected one.
pub open spec fn wrong_kind(value: JsonView, expected: Seq<char>) -> Seq<char> {
    "invalid type: "@ + kind_name(value) + ", expected "@ + expected
}

/// What is said of a member of another kind than the expected one.
pub open spec fn wrong_member(name: Seq<char>, value: JsonView, expected: Seq<char>) -> Seq<char> {
    wrong_kind(value, expected) + " in field `"@ + name + "`"@
}

/// What is said of a member that stands a second time.
pub open spec fn duplicate_field(name: Seq<char>) -> Seq<char> {
    "duplicate field `"@ + name + "`"@
}

/// What is said of a member that is not there.
pub open spec fn missing_field(name: Seq<char>) -> Seq<char> {
    "missing field `"@ + name + "`"@
}

/// What is said of an array that holds too few members.
pub open spec fn invalid_length<S: Shape>(len: nat) -> Seq<char> {
    "invalid length "@ + decimal(len) + ", expected "@ + S::title() + " with "@ + decimal(
        S::names().len(),
    ) + (if S::names().len() == 1 {
        " element"@
    } else {
        " elements"@
    })
}

/// One of the first entries has the name.
pub open spec fn named_before(
    entries: Seq<(Seq<char>, JsonView)>,
    n: int,
    name: Seq<char>,
) -> bool {
    exists|j: int| 0 <= j < n && (#[trigger] entries[j]).0 == name
}

/// What is wrong with an entry of an object. Members that are not of the shape do not count.
pub open spec fn entry_fault<S: Shape>(entries: Seq<(Seq<char>, JsonView)>, i: int) -> Option<
    Seq<char>,
> {
    if !S::names().contains(entries[i].0) {
        None
    } else if named_before(entries, i, entries[i].0) {
        Some(duplicate_field(entries[i].0))
    } else {
        S::fault(entries[i].0, entries[i].1)
    }
}

/// The first fault among the entries from the given one on.
pub open spec fn entries_fault<S: Shape>(entries: Seq<(Seq<char>, JsonView)>, i: int) -> Option<
    Seq<char>,
>
    decreases entries.len() - i,
{
    if i >= entries.len() {
        None
    } else {
        match entry_fault::<S>(entries, i) {
            Some(fault) => Some(fault),
            None => entries_fault::<S>(entries, i + 1),
        }
    }
}

/// The first of the members from the given one on that an object lacks and may not lack.
pub open spec fn missing_fault<S: Shape>(entries: Seq<(Seq<char>, JsonView)>, k: int) -> Option<
    Seq<char>,
>
    decreases S::names().len() - k,
{
    if k >= S::names().len() {
        None
    } else if !S::may_lack(S::names()[k]) && !named_before(
        entries,
        entries.len() as int,
        S::names()[k],
    ) {
        Some(missing_field(S::names()[k]))
    } else {
        missing_fault::<S>(entries, k + 1)
    }
}

/// The first fault among the members that an array holds, from the given one on.
pub open spec fn items_fault<S: Shape>(items: Seq<JsonView>, i: int) -> Option<Seq<char>>
    decreases items.len() - i,
{
    if i >= items.len() || i >= S::names().len() {
        None
    } else {
        match S::fault(S::names()[i], items[i]) {
            Some(fault) => Some(fault),
            None => items_fault::<S>(items, i + 1),
        }
    }
}

/// What is wrong with a document, where something is: the first fault in the order of the text.
pub open spec fn shape_fault<S: Shape>(value: JsonView) -> Option<Seq<char>> {
    match value {
        JsonView::Object(entries) => match entries_fault::<S>(entries, 0) {
            Some(fault) => Some(fault),
            None => missing_fault::<S>(entries, 0),
        },
        JsonView::Array(items) => match items_fault::<S>(items, 0) {
            Some(fault) => Some(fault),
            None => if items.len() < S::needed() {
                Some(invalid_length::<S>(items.len()))
            } else if items.len() > S::names().len() {
                Some("trailing characters"@)
            } else {
                None
            },
        },
        _ => Some(wrong_kind(value, S::title())),
    }
}

/// What is said of a document that has not the shape.
pub open spec fn shape_error<S: Shape>(value: JsonView) -> Seq<char> {
    shape_fault::<S>(value)->0
}

/// The member is as the shape asks.
pub open spec fn member_fits<S: Shape>(object: JsonView, name: Seq<char>) -> bool {
    match object.get(name) {
        Some(member) => S::fault(name, member) is None,
        None => S::may_lack(name),
    }
}

/// The document has the shape.
pub open spec fn has_shape<S: Shape>(value: JsonView) -> bool {
    match stated(value, S::names(), S::needed()) {
        Some(object) => forall|k: int|
            0 <= k < S::names().len() ==> member_fits::<S>(object, #[trigger] S::names()[k]),
        None => false,
    }
}

proof fn lemma_entries_fault<S: Shape>(entries: Seq<(Seq<char>, JsonView)>, i: int)
    requires
        0 <= i,
    ensures
        entries_fault::<S>(entries, i) is None <==> forall|j: int|
            i <= j < entries.len() ==> #[trigger] entry_fault::<S>(entries, j) is None,
    decreases entries.len() - i,
{
    if i < entries.len() {
        lemma_entries_fault::<S>(entries, i + 1);
        assert(entry_fault::<S>(entries, i) is None || entry_fault::<S>(entries, i) is Some);
    }
}

spec fn is_missing<S: Shape>(entries: Seq<(Seq<char>, JsonView)>, name: Seq<char>) -> bool {
    !S::may_lack(name) && !named_before(entries, entries.len() as int, name)
}

proof fn lemma_missing_fault<S: Shape>(entries: Seq<(Seq<char>, JsonView)>, k: int)
    requires
        0 <= k,
    ensures
        missing_fault::<S>(entries, k) is None <==> forall|j: int|
            k <= j < S::names().len() ==> !is_missing::<S>(entries, #[trigger] S::names()[j]),
    decreases S::names().len() - k,
{
    if k < S::names().len() {
        lemma_missing_fault::<S>(entries, k + 1);
        assert(is_missing::<S>(entries, S::names()[k]) || !is_missing::<S>(
            entries,
            S::names()[k],
        ));
    }
}

spec fn item_fits<S: Shape>(items: Seq<JsonView>, i: int) -> bool {
    S::fault(S::names()[i], items[i]) is None
}

proof fn lemma_items_fault<S: Shape>(items: Seq<JsonView>, i: int)
    requires
        0 <= i,
    ensures
        items_fault::<S>(items, i) is None <==> forall|j: int|
            i <= j < items.len() && j < S::names().len() ==> #[trigger] item_fits::<S>(items, j),
    decreases items.len() - i,
{
    if i < items.len() && i < S::names().len() {
        lemma_items_fault::<S>(items, i + 1);
        let rest = items_fault::<S>(items, i + 1);
        if item_fits::<S>(items, i) {
            assert(items_fault::<S>(items, i) == rest);
        } else {
            assert(items_fault::<S>(items, i) is Some);
        }
    }
}

proof fn lemma_lookup(entries: Seq<(Seq<char>, JsonView)>, key: Seq<char>)
    ensures
        match lookup(entries, key) {
            Some(member) => exists|i: int|
                0 <= i < entries.len() && #[trigger] entries[i] == (key, member) && !named_before(
                    entries,
                    i,
                    key,
                ),
            None => !named_before(entries, entries.len() as int, key),
        },
    decreases entries.len(),
{
    if entries.len() > 0 && entries[0].0 == key {
        assert(entries[0] == (key, entries[0].1));
        assert(!named_before(entries, 0, key));
    } else if entries.len() > 0 {
        let rest = entries.skip(1);
        lemma_lookup(rest, key);
        match lookup(rest, key) {
            Some(member) => {
                let i = choose|i: int|
                    0 <= i < rest.len() && #[trigger] rest[i] == (key, member) && !named_before(
                        rest,
                        i,
                        key,
                    );
                assert(entries[i + 1] == rest[i]);
                assert forall|j: int| 0 <= j < i + 1 implies (#[trigger] entries[j]).0 != key by {
                    if j > 0 {
                        assert(rest[j - 1] == entries[j]);
                    }
                }
            },
            None => {
                assert forall|j: int| 0 <= j < entries.len() implies (#[trigger] entries[j]).0
                    != key by {
                    if j > 0 {
                        assert(rest[j - 1] == entries[j]);
                    }
                }
            },
        }
    }
}

proof fn lemma_object_fault<S: Shape>(entries: Seq<(Seq<char>, JsonView)>)
    ensures
        shape_fault::<S>(JsonView::Object(entries)) is None <==> has_shape::<S>(
            JsonView::Object(entries),
        ),
{
    let value = JsonView::Object(entries);
    let names = S::names();
    S::names_are_sound();
    lemma_entries_fault::<S>(entries, 0);
    lemma_missing_fault::<S>(entries, 0);
    if shape_fault::<S>(value) is None {
        if repeats_any(entries, names) {
            let k = choose|k: int|
                0 <= k < names.len() && is_repeated(entries, #[trigger] names[k]);
            let (i, j) = choose|i: int, j: int|
                0 <= i < j < entries.len() && (#[trigger] entries[i]).0 == names[k] && (
                #[trigger] entries[j]).0 == names[k];
            assert(named_before(entries, j, entries[j].0));
            assert(names.contains(entries[j].0));
            assert(entry_fault::<S>(entries, j) is Some);
        }
        assert forall|k: int| 0 <= k < names.len() implies member_fits::<S>(
            value,
            #[trigger] names[k],
        ) by {
            lemma_lookup(entries, names[k]);
            match lookup(entries, names[k]) {
                Some(member) => {
                    let i = choose|i: int|
                        0 <= i < entries.len() && #[trigger] entries[i] == (names[k], member)
                            && !named_before(entries, i, names[k]);
                    assert(names.contains(entries[i].0));
                    assert(entry_fault::<S>(entries, i) is None);
                },
                None => {
                    assert(!is_missing::<S>(entries, names[k]));
                },
            }
        }
    } else if has_shape::<S>(value) {
        assert forall|i: int| 0 <= i < entries.len() implies #[trigger] entry_fault::<S>(
            entries,
            i,
        ) is None by {
            let name = entries[i].0;
            if names.contains(name) {
                let k = choose|k: int| 0 <= k < names.len() && names[k] == name;
                assert(!is_repeated(entries, names[k]));
                assert(!named_before(entries, i, name));
                lemma_lookup(entries, name);
                assert(named_before(entries, entries.len() as int, name));
                let member = lookup(entries, name)->0;
                let j = choose|j: int|
                    0 <= j < entries.len() && #[trigger] entries[j] == (name, member)
                        && !named_before(entries, j, name);
                assert(j == i);
                assert(member_fits::<S>(value, names[k]));
            }
        }
        assert forall|k: int| 0 <= k < names.len() implies !is_missing::<S>(
            entries,
            #[trigger] names[k],
        ) by {
            lemma_lookup(entries, names[k]);
            assert(member_fits::<S>(value, names[k]));
        }
        assert(false);
    }
}

proof fn lemma_array_fault<S: Shape>(items: Seq<JsonView>)
    ensures
        shape_fault::<S>(JsonView::Array(items)) is None <==> has_shape::<S>(
            JsonView::Array(items),
        ),
{
    let value = JsonView::Array(items);
    let names = S::names();
    S::names_are_sound();
    lemma_items_fault::<S>(items, 0);
    if S::needed() <= items.len() <= names.len() {
        let object = listed_members(names, items);
        let entries = object->Object_0;
        assert forall|k: int| 0 <= k < names.len() implies member_fits::<S>(
            object,
            #[trigger] names[k],
        ) == (k >= items.len() || item_fits::<S>(items, k)) by {
            lemma_lookup(entries, names[k]);
            if k < items.len() {
                assert(entries[k] == (names[k], items[k]));
                assert(named_before(entries, entries.len() as int, names[k]));
                let member = lookup(entries, names[k])->0;
                let j = choose|j: int|
                    0 <= j < entries.len() && #[trigger] entries[j] == (names[k], member)
                        && !named_before(entries, j, names[k]);
                assert(names[j] == names[k]);
                assert(j == k);
            } else {
                assert(!named_before(entries, entries.len() as int, names[k]));
            }
        }
        assert(stated(value, names, S::needed()) == Some(object));
        if shape_fault::<S>(value) is None {
            assert forall|k: int| 0 <= k < names.len() implies member_fits::<S>(
                object,
                #[trigger] names[k],
            ) by {
                if k < items.len() {
                    assert(item_fits::<S>(items, k));
                }
            }
        } else if has_shape::<S>(value) {
            assert forall|j: int|
                0 <= j < items.len() && j < names.len() implies #[trigger] item_fits::<S>(
                items,
                j,
            ) by {
                assert(member_fits::<S>(object, names[j]));
            }
        }
    }
}

/// A fault is named exactly where a document has not the shape.
pub proof fn law_faults<S: Shape>(value: JsonView)
    ensures
        shape_fault::<S>(value) is None <==> has_shape::<S>(value),
{
    match value {
        JsonView::Object(entries) => lemma_object_fault::<S>(entries),
        JsonView::Array(items) => lemma_array_fault::<S>(items),
        _ => {},
    }
}

/// What is wrong with a member that has to be a truth value.
pub open spec fn flag_fault(name: Seq<char>, member: JsonView) -> Option<Seq<char>> {
    match member {
        JsonView::Bool(_) => None,
        _ => Some(wrong_member(name, member, "a boolean"@)),
    }
}

/// What is wrong with a member that has to be a text.
pub open spec fn text_fault(name: Seq<char>, member: JsonView) -> Option<Seq<char>> {
    match member {
        JsonView::Text(_) => None,
        _ => Some(wrong_member(name, member, "a string"@)),
    }
}

/// What is wrong with a member that has to be a text or null.
pub open spec fn optional_text_fault(name: Seq<char>, member: JsonView) -> Option<Seq<char>> {
    match member {
        JsonView::Null => None,
        _ => text_fault(name, member),
    }
}

/// What is wrong with a member that has to be an array.
pub open spec fn list_fault(name: Seq<char>, member: JsonView) -> Option<Seq<char>> {
    match member {
        JsonView::Array(_) => None,
        _ => Some(wrong_member(name, member, "a sequence"@)),
    }
}

/// What is wrong with a member that has to be a signed whole number of 64 bits.
pub open spec fn signed_fault(name: Seq<char>, member: JsonView) -> Option<Seq<char>> {
    match member {
        JsonView::Number(n) => if n.signed is Some {
            None
        } else {
            Some(wrong_member(name, member, "i64"@))
        },
        _ => Some(wrong_member(name, member, "i64"@)),
    }
}

/// What is wrong with a member that has to be null or of another shape.
pub open spec fn optional_part_fault<S: Shape>(member: JsonView) -> Option<Seq<char>> {
    match member {
        JsonView::Null => None,
        _ => shape_fault::<S>(member),
    }
}

/// What is wrong with a member that has to be a path.
pub open spec fn path_fault(name: Seq<char>, member: JsonView) -> Option<Seq<char>> {
    match member {
        JsonView::Text(_) => None,
        _ => Some(wrong_member(name, member, "path string"@)),
    }
}

/// What is wrong with a member that has to be a path or null.
pub open spec fn optional_path_fault(name: Seq<char>, member: JsonView) -> Option<Seq<char>> {
    match member {
        JsonView::Null => None,
        _ => path_fault(name, member),
    }
}

/// The first fault among items that have to be texts, from the given one on.
pub open spec fn texts_fault(name: Seq<char>, items: Seq<JsonView>, i: int) -> Option<Seq<char>>
    decreases items.len() - i,
{
    if i >= items.len() {
        None
    } else {
        match text_fault(name, items[i]) {
            Some(fault) => Some(fault),
            None => texts_fault(name, items, i + 1),
        }
    }
}

/// What is wrong with a member that has to be a list of texts.
pub open spec fn text_list_fault(name: Seq<char>, member: JsonView) -> Option<Seq<char>> {
    match member {
        JsonView::Array(items) => texts_fault(name, items, 0),
        _ => list_fault(name, member),
    }
}

/// The first fault among items that have to be of a shape, from the given one on.
pub open spec fn parts_fault<S: Shape>(items: Seq<JsonView>, i: int) -> Option<Seq<char>>
    decreases items.len() - i,
{
    if i >= items.len() {
        None
    } else {
        match shape_fault::<S>(items[i]) {
            Some(fault) => Some(fault),
            None => parts_fault::<S>(items, i + 1),
        }
    }
}

/// What is wrong with a member that has to be a list of documents of a shape.
pub open spec fn part_list_fault<S: Shape>(name: Seq<char>, member: JsonView) -> Option<Seq<char>> {
    match member {
        JsonView::Array(items) => parts_fault::<S>(items, 0),
        _ => list_fault(name, member),
    }
}

/// What is wrong with a document that has to be a list of documents of a shape.
pub open spec fn listing_fault<S: Shape>(value: JsonView) -> Option<Seq<char>> {
    match value {
        JsonView::Array(items) => parts_fault::<S>(items, 0),
        _ => Some(wrong_kind(value, "a sequence"@)),
    }
}

/// No fault is found among texts exactly where all of the items are texts.
pub proof fn lemma_texts_fault(name: Seq<char>, items: Seq<JsonView>, i: int)
    requires
        0 <= i,
    ensures
        texts_fault(name, items, i) is None <==> forall|j: int|
            i <= j < items.len() ==> (#[trigger] items[j]) is Text,
    decreases items.len() - i,
{
    if i < items.len() {
        lemma_texts_fault(name, items, i + 1);
        assert(items[i] is Text || !(items[i] is Text));
    }
}

/// Texts cannot be read exactly where a fault is found among them.
pub proof fn lemma_texts_read(name: Seq<char>, items: Seq<JsonView>)
    ensures
        texts_of(items) is None <==> texts_fault(name, items, 0) is Some,
    decreases items.len(),
{
    lemma_texts_fault(name, items, 0);
    if items.len() > 0 {
        let before = items.drop_last();
        lemma_texts_read(name, before);
        lemma_texts_fault(name, before, 0);
        assert(forall|j: int| 0 <= j < before.len() ==> before[j] == #[trigger] items[j]);
        if texts_of(items) is Some {
            assert forall|j: int| 0 <= j < items.len() implies (#[trigger] items[j]) is Text by {
                if j < before.len() {
                    assert(before[j] is Text);
                }
            }
        } else if texts_fault(name, items, 0) is None {
            assert forall|j: int| 0 <= j < before.len() implies (#[trigger] before[j]) is Text by {
                assert(items[j] is Text);
            }
            assert(items.last() is Text);
        }
    }
}

/// No fault is found among parts exactly where all of the items have the shape.
pub proof fn lemma_parts_fault<S: Shape>(items: Seq<JsonView>, i: int)
    requires
        0 <= i,
    ensures
        parts_fault::<S>(items, i) is None <==> forall|j: int|
            i <= j < items.len() ==> has_shape::<S>(#[trigger] items[j]),
    decreases items.len() - i,
{
    if i < items.len() {
        lemma_parts_fault::<S>(items, i + 1);
        law_faults::<S>(items[i]);
        assert(has_shape::<S>(items[i]) || !has_shape::<S>(items[i]));
    }
}

fn name_kind(value: &JsonValue) -> (r: &'static str)
    ensures
        r@ == kind_name(value@),
{
    broadcast use {JsonValue::lemma_array_view, JsonValue::lemma_object_view};

    match value {
        JsonValue::Null => "null",
        JsonValue::Bool(_) => "boolean",
        JsonValue::Text(_) => "string",
        JsonValue::Array(_) => "sequence",
        JsonValue::Object(_) => "map",
        JsonValue::Number(_) => match value.as_number() {
            Some(parts) => {
                if parts.unsigned.is_some() || parts.signed.is_some() {
                    "integer"
                } else {
                    "floating point"
                }
            },
            None => "integer",
        },
    }
}

/// What is said of a document of another kind than the expected one.
pub(crate) fn say_wrong_kind(value: &JsonValue, expected: &str) -> (r: String)
    ensures
        r@ == wrong_kind(value@, expected@),
{
    let mut r = concat3("invalid type: ", name_kind(value), ", expected ");
    r.append(expected);
    r
}

/// What is said of a member of another kind than the expected one.
pub fn say_wrong_member(name: &str, value: &JsonValue, expected: &str) -> (r: String)
    ensures
        r@ == wrong_member(name@, value@, expected@),
{
    let mut r = say_wrong_kind(value, expected);
    r.append(" in field `");
    r.append(name);
    r.append("`");
    r
}

/// What is wrong with a member that has to be a truth value.
pub fn find_flag_fault(name: &str, member: &JsonValue) -> (r: Option<String>)
    ensures
        opt_view(r) == flag_fault(name@, member@),
{
    match member {
        JsonValue::Bool(_) => None,
        _ => Some(say_wrong_member(name, member, "a boolean")),
    }
}

/// What is wrong with a member that has to be a text.
pub fn find_text_fault(name: &str, member: &JsonValue) -> (r: Option<String>)
    ensures
        opt_view(r) == text_fault(name@, member@),
{
    match member {
        JsonValue::Text(_) => None,
        _ => Some(say_wrong_member(name, member, "a string")),
    }
}

/// What is wrong with a member that has to be a text or null.
pub fn find_optional_text_fault(name: &str, member: &JsonValue) -> (r: Option<String>)
    ensures
        opt_view(r) == optional_text_fault(name@, member@),
{
    match member {
        JsonValue::Null => None,
        _ => find_text_fault(name, member),
    }
}

/// What is wrong with a member that has to be an array.
pub fn find_list_fault(name: &str, member: &JsonValue) -> (r: Option<String>)
    ensures
        opt_view(r) == list_fault(name@, member@),
{
    broadcast use JsonValue::lemma_array_view;

    match member {
        JsonValue::Array(_) => None,
        _ => Some(say_wrong_member(name, member, "a sequence")),
    }
}

/// What is wrong with a member that has to be a signed whole number of 64 bits.
pub fn find_signed_fault(name: &str, member: &JsonValue) -> (r: Option<String>)
    ensures
        opt_view(r) == signed_fault(name@, member@),
{
    if let Some(parts) = member.as_number() {
        if parts.signed.is_some() {
            return None;
        }
    }
    Some(say_wrong_member(name, member, "i64"))
}

/// What is wrong with a member that has to be null or of another shape.
pub fn find_optional_part_fault<S: Shape>(member: &JsonValue) -> (r: Option<String>)
    ensures
        opt_view(r) == optional_part_fault::<S>(member@),
{
    match member {
        JsonValue::Null => None,
        _ => find_shape_fault::<S>(member),
    }
}

fn is_named(names: &Vec<&'static str>, name: &str) -> (r: bool)
    ensures
        r == names_of(names@).contains(name@),
{
    let ghost all = names_of(names@);
    let mut k: usize = 0;
    while k < names.len()
        invariant
            k <= names@.len(),
            all == names_of(names@),
            forall|j: int| 0 <= j < k ==> #[trigger] all[j] != name@,
        decreases names@.len() - k,
    {
        assert(all[k as int] == names@[k as int]@);
        if same(names[k], name) {
            return true;
        }
        k = k + 1;
    }
    false
}

fn stands_before(entries: &Vec<(String, JsonValue)>, n: usize, name: &str) -> (r: bool)
    requires
        n <= entries@.len(),
    ensures
        r == named_before(entry_views(entries@), n as int, name@),
{
    let ghost all = entry_views(entries@);
    let mut j: usize = 0;
    while j < n
        invariant
            j <= n <= entries@.len(),
            all == entry_views(entries@),
            forall|i: int| 0 <= i < j ==> (#[trigger] all[i]).0 != name@,
        decreases n - j,
    {
        assert(all[j as int].0 == entries@[j as int].0@);
        if same(entries[j].0.as_str(), name) {
            return true;
        }
        j = j + 1;
    }
    false
}

fn find_object_fault<S: Shape>(entries: &Vec<(String, JsonValue)>) -> (r: Option<String>)
    ensures
        opt_view(r) == shape_fault::<S>(JsonView::Object(entry_views(entries@))),
{
    let names = S::member_names();
    let ghost all = entry_views(entries@);
    let mut i: usize = 0;
    while i < entries.len()
        invariant
            i <= entries@.len(),
            all == entry_views(entries@),
            names_of(names@) == S::names(),
            entries_fault::<S>(all, 0) == entries_fault::<S>(all, i as int),
        decreases entries@.len() - i,
    {
        let name = entries[i].0.as_str();
        assert(all[i as int] == (entries@[i as int].0@, entries@[i as int].1@));
        if is_named(&names, name) {
            if stands_before(entries, i, name) {
                return Some(concat3("duplicate field `", name, "`"));
            }
            if let Some(fault) = S::find_fault(name, &entries[i].1) {
                return Some(fault);
            }
        }
        i = i + 1;
    }
    let mut k: usize = 0;
    while k < names.len()
        invariant
            k <= names@.len(),
            all == entry_views(entries@),
            names_of(names@) == S::names(),
            entries_fault::<S>(all, 0) is None,
            missing_fault::<S>(all, 0) == missing_fault::<S>(all, k as int),
        decreases names@.len() - k,
    {
        let name: &str = names[k];
        assert(S::names()[k as int] == name@);
        if !S::can_lack(name) && !stands_before(entries, entries.len(), name) {
            return Some(concat3("missing field `", name, "`"));
        }
        k = k + 1;
    }
    None
}

fn say_invalid_length<S: Shape>(len: usize) -> (r: String)
    ensures
        r@ == invalid_length::<S>(len as nat),
{
    let count: usize = S::member_names().len();
    assert(count == S::names().len());
    let mut r = concat3("invalid length ", decimal_of(len as u128).as_str(), ", expected ");
    r.append(S::expected());
    r.append(" with ");
    r.append(decimal_of(count as u128).as_str());
    r.append(
        if count == 1 {
            " element"
        } else {
            " elements"
        },
    );
    r
}

fn find_array_fault<S: Shape>(items: &Vec<JsonValue>) -> (r: Option<String>)
    ensures
        opt_view(r) == shape_fault::<S>(JsonView::Array(json_views(items@))),
{
    let names = S::member_names();
    let ghost all = json_views(items@);
    let mut i: usize = 0;
    while i < items.len() && i < names.len()
        invariant
            i <= items@.len(),
            all == json_views(items@),
            names_of(names@) == S::names(),
            items_fault::<S>(all, 0) == items_fault::<S>(all, i as int),
        decreases items@.len() - i,
    {
        let name: &str = names[i];
        assert(S::names()[i as int] == name@);
        assert(all[i as int] == items@[i as int]@);
        if let Some(fault) = S::find_fault(name, &items[i]) {
            return Some(fault);
        }
        i = i + 1;
    }
    if items.len() < S::needed_count() {
        Some(say_invalid_length::<S>(items.len()))
    } else if items.len() > names.len() {
        Some("trailing characters".to_owned())
    } else {
        None
    }
}

/// What is wrong with a document, where something is.
pub fn find_shape_fault<S: Shape>(value: &JsonValue) -> (r: Option<String>)
    ensures
        opt_view(r) == shape_fault::<S>(value@),
{
    broadcast use {JsonValue::lemma_array_view, JsonValue::lemma_object_view};

    match value {
        JsonValue::Object(entries) => find_object_fault::<S>(entries),
        JsonValue::Array(items) => find_array_fault::<S>(items),
        _ => Some(say_wrong_kind(value, S::expected())),
    }
}

/// What is said of a document that has not the shape.
pub(crate) fn shape_fault_of<S: Shape>(value: &JsonValue) -> (r: String)
    requires
        !has_shape::<S>(value@),
    ensures
        r@ == shape_error::<S>(value@),
        shape_fault::<S>(value@) is Some,
{
    proof {
        law_faults::<S>(value@);
    }
    match find_shape_fault::<S>(value) {
        Some(fault) => fault,
        None => String::new(),
    }
}

/// What is wrong with a member that has to be a path.
pub fn find_path_fault(name: &str, member: &JsonValue) -> (r: Option<String>)
    ensures
        opt_view(r) == path_fault(name@, member@),
{
    match member {
        JsonValue::Text(_) => None,
        _ => Some(say_wrong_member(name, member, "path string")),
    }
}

/// What is wrong with a member that has to be a path or null.
pub fn find_optional_path_fault(name: &str, member: &JsonValue) -> (r: Option<String>)
    ensures
        opt_view(r) == optional_path_fault(name@, member@),
{
    match member {
        JsonValue::Null => None,
        _ => find_path_fault(name, member),
    }
}

/// What is wrong with a member that has to be a list of texts.
pub fn find_text_list_fault(name: &str, member: &JsonValue) -> (r: Option<String>)
    ensures
        opt_view(r) == text_list_fault(name@, member@),
{
    broadcast use JsonValue::lemma_array_view;

    match member {
        JsonValue::Array(items) => {
            let ghost all = json_views(items@);
            let mut i: usize = 0;
            while i < items.len()
                invariant
                    i <= items@.len(),
                    all == json_views(items@),
                    member@ == JsonView::Array(all),
                    texts_fault(name@, all, 0) == texts_fault(name@, all, i as int),
                decreases items@.len() - i,
            {
                assert(all[i as int] == items@[i as int]@);
                if let Some(fault) = find_text_fault(name, &items[i]) {
                    return Some(fault);
                }
                i = i + 1;
            }
            None
        },
        _ => find_list_fault(name, member),
    }
}

fn find_parts_fault<S: Shape>(items: &Vec<JsonValue>) -> (r: Option<String>)
    ensures
        opt_view(r) == parts_fault::<S>(json_views(items@), 0),
{
    let ghost all = json_views(items@);
    let mut i: usize = 0;
    while i < items.len()
        invariant
            i <= items@.len(),
            all == json_views(items@),
            parts_fault::<S>(all, 0) == parts_fault::<S>(all, i as int),
        decreases items@.len() - i,
    {
        assert(all[i as int] == items@[i as int]@);
        if let Some(fault) = find_shape_fault::<S>(&items[i]) {
            return Some(fault);
        }
        i = i + 1;
    }
    None
}

/// What is wrong with a member that has to be a list of documents of a shape.
pub fn find_part_list_fault<S: Shape>(name: &str, member: &JsonValue) -> (r: Option<String>)
    ensures
        opt_view(r) == part_list_fault::<S>(name@, member@),
{
    broadcast use JsonValue::lemma_array_view;

    match member {
        JsonValue::Array(items) => find_parts_fault::<S>(items),
        _ => find_list_fault(name, member),
    }
}

/// What is wrong with a document that has to be a list of documents of a shape.
pub fn find_listing_fault<S: Shape>(value: &JsonValue) -> (r: Option<String>)
    ensures
        opt_view(r) == listing_fault::<S>(value@),
{
    broadcast use JsonValue::lemma_array_view;

    match value {
        JsonValue::Array(items) => find_parts_fault::<S>(items),
        _ => Some(say_wrong_kind(value, "a sequence")),
    }
}

/// What is said of an answer that cannot be decoded.
pub open spec fn undecodable(fault: Seq<char>) -> Seq<char> {
    "error decoding response body: "@ + fault
}

/// What is said of an answer that cannot be decoded.
pub(crate) fn say_undecodable(fault: &str) -> (r: String)
    ensures
        r@ == undecodable(fault@),
{
    concat2("error decoding response body: ", fault)
}

} // verus!
