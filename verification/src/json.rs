//! JSON values.
//!
//! `JsonValue` holds a JSON document as plain data; `JsonView` is its mathematical model.
//! Reading and writing JSON text is left to `serde_json`, behind the trusted functions at the
//! top of this file.
use crate::text::{decimal, opt_str_view, same, signed_decimal, text_lt, views};
use vstd::prelude::*;

verus! {

/// What the rest of the library reads off a JSON number.
pub struct NumberView {
    pub unsigned: Option<u64>,
    pub signed: Option<i64>,
    pub truncated: Option<i64>,
    pub text: Seq<char>,
}

/// The model of a JSON document. The entries of an object stand in the order of the document's map.
pub enum JsonView {
    Null,
    Bool(bool),
    Number(NumberView),
    Text(Seq<char>),
    Array(Seq<JsonView>),
    Object(Seq<(Seq<char>, JsonView)>),
}

/// The JSON number type of `serde_json`.
#[verifier::external_type_specification]
#[verifier::external_body]
pub struct ExSerdeNumber(serde_json::Number);

/// The JSON document type of `serde_json`.
#[verifier::external_type_specification]
#[verifier::external_body]
pub struct ExSerdeValue(serde_json::Value);

/// What a number holds.
pub uninterp spec fn number_view(number: serde_json::Number) -> NumberView;

/// The number that `serde_json` makes of a whole number.
pub uninterp spec fn whole_number(n: u64) -> NumberView;

/// The number that `serde_json` makes of a signed whole number.
pub uninterp spec fn signed_number(n: i64) -> NumberView;

/// What a document holds.
pub uninterp spec fn value_view(value: serde_json::Value) -> JsonView;

/// The result of reading a text as JSON: the document, or what is said of the error.
pub uninterp spec fn json_parse(text: Seq<char>) -> Result<JsonView, Seq<char>>;

/// The compact JSON text of a document.
pub uninterp spec fn compact_text(value: JsonView) -> Seq<char>;

/// The indented JSON text of a document.
pub uninterp spec fn pretty_text(value: JsonView) -> Seq<char>;

/// A JSON document.
#[derive(Debug, PartialEq)]
pub enum JsonValue {
    Null,
    Bool(bool),
    Number(serde_json::Number),
    Text(String),
    Array(Vec<JsonValue>),
    Object(Vec<(String, JsonValue)>),
}

/// One level of a `serde_json` document.
pub enum JsonShape {
    Null,
    Bool(bool),
    Number(serde_json::Number),
    Text(String),
    Array(Vec<serde_json::Value>),
    Object(Vec<(String, serde_json::Value)>),
}

/// What the rest of the library reads off a JSON number, as plain values.
pub struct NumberParts {
    pub unsigned: Option<u64>,
    pub signed: Option<i64>,
    pub truncated: Option<i64>,
    pub text: String,
}

impl NumberParts {
    pub open spec fn view(&self) -> NumberView {
        NumberView {
            unsigned: self.unsigned,
            signed: self.signed,
            truncated: self.truncated,
            text: self.text@,
        }
    }
}

impl JsonShape {
    pub open spec fn view(&self) -> JsonView {
        match self {
            JsonShape::Null => JsonView::Null,
            JsonShape::Bool(b) => JsonView::Bool(*b),
            JsonShape::Number(n) => JsonView::Number(number_view(*n)),
            JsonShape::Text(s) => JsonView::Text(s@),
            JsonShape::Array(items) => JsonView::Array(
                items@.map_values(|v: serde_json::Value| value_view(v)),
            ),
            JsonShape::Object(entries) => JsonView::Object(
                entries@.map_values(|e: (String, serde_json::Value)| (e.0@, value_view(e.1))),
            ),
        }
    }
}

/// Reads a number with `Number::as_u64`, `Number::as_i64`, `Number::as_f64` (cut to an integer)
/// and `Number::to_string`. Together these are what the number holds.
#[verifier::external_body]
fn number_parts(number: &serde_json::Number) -> (r: NumberParts)
    ensures
        r@ == number_view(*number),
{
    NumberParts {
        unsigned: number.as_u64(),
        signed: number.as_i64(),
        truncated: number.as_f64().map(|n| n as i64),
        text: number.to_string(),
    }
}

/// `n` as a signed number, where it fits.
pub open spec fn signed_of(n: u64) -> Option<i64> {
    if n <= i64::MAX {
        Some(n as i64)
    } else {
        None
    }
}

/// `serde_json::Number::from::<u64>` gives the number `n`: it reads as `n` unsigned, as `n` signed
/// where that fits, and prints as the decimal numeral of `n`.
#[verifier::external_body]
fn number_from(n: u64) -> (r: serde_json::Number)
    ensures
        number_view(r) == whole_number(n),
        number_view(r).unsigned == Some(n),
        number_view(r).signed == signed_of(n),
        number_view(r).text == decimal(n as nat),
{
    serde_json::Number::from(n)
}

/// `serde_json::Number::from::<i64>` gives the number `n`: it reads as `n` signed, and prints as the
/// decimal numeral of `n`.
#[verifier::external_body]
fn number_from_signed(n: i64) -> (r: serde_json::Number)
    ensures
        number_view(r) == signed_number(n),
        number_view(r).signed == Some(n),
        number_view(r).text == signed_decimal(n as int),
{
    serde_json::Number::from(n)
}

/// `serde_json::Number::clone` copies the number.
pub assume_specification[ <serde_json::Number as Clone>::clone ](
    number: &serde_json::Number,
) -> (r: serde_json::Number)
    ensures
        number_view(r) == number_view(*number),
;

/// Opens one level of a document. The entries of an object come in the order of
/// `serde_json::Map::into_iter`.
#[verifier::external_body]
fn shape_of(value: serde_json::Value) -> (r: JsonShape)
    ensures
        r@ == value_view(value),
{
    match value {
        serde_json::Value::Null => JsonShape::Null,
        serde_json::Value::Bool(b) => JsonShape::Bool(b),
        serde_json::Value::Number(n) => JsonShape::Number(n),
        serde_json::Value::String(s) => JsonShape::Text(s),
        serde_json::Value::Array(items) => JsonShape::Array(items),
        serde_json::Value::Object(map) => JsonShape::Object(map.into_iter().collect()),
    }
}

/// `serde_json::Value::Null`.
#[verifier::external_body]
fn serde_null() -> (r: serde_json::Value)
    ensures
        value_view(r) == JsonView::Null,
{
    serde_json::Value::Null
}

/// `serde_json::Value::Bool`.
#[verifier::external_body]
fn serde_bool(b: bool) -> (r: serde_json::Value)
    ensures
        value_view(r) == JsonView::Bool(b),
{
    serde_json::Value::Bool(b)
}

/// `serde_json::Value::Number`.
#[verifier::external_body]
fn serde_number(number: serde_json::Number) -> (r: serde_json::Value)
    ensures
        value_view(r) == JsonView::Number(number_view(number)),
{
    serde_json::Value::Number(number)
}

/// `serde_json::Value::String`.
#[verifier::external_body]
fn serde_text(s: String) -> (r: serde_json::Value)
    ensures
        value_view(r) == JsonView::Text(s@),
{
    serde_json::Value::String(s)
}

/// `serde_json::Value::Array`.
#[verifier::external_body]
fn serde_array(items: Vec<serde_json::Value>) -> (r: serde_json::Value)
    ensures
        value_view(r) == JsonView::Array(items@.map_values(|v: serde_json::Value| value_view(v))),
{
    serde_json::Value::Array(items)
}

/// The entries of an object as its map holds them: ordered by key, the last value of a key kept.
pub open spec fn sorted_entries(entries: Seq<(Seq<char>, JsonView)>) -> Seq<(Seq<char>, JsonView)>
    decreases entries.len(),
{
    if entries.len() == 0 {
        Seq::empty()
    } else {
        insert_entry(sorted_entries(entries.drop_last()), entries.last())
    }
}

/// `entries` with `e` in its place in the order of keys, in place of an entry with the same key.
pub open spec fn insert_entry(
    entries: Seq<(Seq<char>, JsonView)>,
    e: (Seq<char>, JsonView),
) -> Seq<(Seq<char>, JsonView)>
    decreases entries.len(),
{
    if entries.len() == 0 {
        seq![e]
    } else if entries[0].0 == e.0 {
        seq![e] + entries.skip(1)
    } else if text_lt(e.0, entries[0].0) {
        seq![e] + entries
    } else {
        seq![entries[0]] + insert_entry(entries.skip(1), e)
    }
}

/// `serde_json::Value::Object` over the map that the entries collect into: a later entry takes
/// the place of an earlier one with the same key, and the map is ordered by key.
#[verifier::external_body]
fn serde_object(entries: Vec<(String, serde_json::Value)>) -> (r: serde_json::Value)
    ensures
        value_view(r) == JsonView::Object(
            sorted_entries(
                entries@.map_values(|e: (String, serde_json::Value)| (e.0@, value_view(e.1))),
            ),
        ),
{
    serde_json::Value::Object(entries.into_iter().collect())
}

/// The length of the longest string among the values of a document.
pub open spec fn longest_text(value: JsonView) -> nat
    decreases value,
{
    match value {
        JsonView::Text(s) => s.len(),
        JsonView::Array(items) => longest_in_items(items),
        JsonView::Object(entries) => longest_in_entries(entries),
        _ => 0,
    }
}

/// The length of the longest string in the items of an array.
pub open spec fn longest_in_items(items: Seq<JsonView>) -> nat
    decreases items,
{
    if items.len() == 0 {
        0
    } else {
        longer(
            longest_in_items(items.take(items.len() - 1)),
            longest_text(items[items.len() - 1]),
        )
    }
}

/// The length of the longest string in the values of an object.
pub open spec fn longest_in_entries(entries: Seq<(Seq<char>, JsonView)>) -> nat
    decreases entries,
{
    if entries.len() == 0 {
        0
    } else {
        longer(
            longest_in_entries(entries.take(entries.len() - 1)),
            longest_text(entries[entries.len() - 1].1),
        )
    }
}

/// The greater of two lengths.
pub open spec fn longer(a: nat, b: nat) -> nat {
    if a >= b {
        a
    } else {
        b
    }
}

/// No string in an item of an array is longer than the longest of the array.
pub proof fn lemma_longest_item(items: Seq<JsonView>, i: int)
    requires
        0 <= i < items.len(),
    ensures
        longest_text(items[i]) <= longest_in_items(items),
    decreases items.len(),
{
    if i < items.len() - 1 {
        lemma_longest_item(items.take(items.len() - 1), i);
    }
}

/// No string in the value of an entry is longer than the longest of the object.
pub proof fn lemma_longest_entry(entries: Seq<(Seq<char>, JsonView)>, i: int)
    requires
        0 <= i < entries.len(),
    ensures
        longest_text(entries[i].1) <= longest_in_entries(entries),
    decreases entries.len(),
{
    if i < entries.len() - 1 {
        lemma_longest_entry(entries.take(entries.len() - 1), i);
    }
}

/// What an attempt to read JSON gave.
pub open spec fn read_view(r: Result<serde_json::Value, String>) -> Result<JsonView, Seq<char>> {
    match r {
        Ok(value) => Ok(value_view(value)),
        Err(error) => Err(error@),
    }
}

/// `serde_json::from_str::<serde_json::Value>`; an error is given as its message. No string of the
/// document is as long as the text that it was read from: the string stands in the text between
/// quotes, and an escape is longer than the character that it stands for.
#[verifier::external_body]
fn parse_serde(text: &str) -> (r: Result<serde_json::Value, String>)
    ensures
        read_view(r) == json_parse(text@),
        r matches Ok(value) ==> longest_text(value_view(value)) < text@.len(),
{
    serde_json::from_str::<serde_json::Value>(text).map_err(|error| error.to_string())
}

/// The text reads as the document.
pub open spec fn reads_as(text: Seq<char>, value: JsonView) -> bool {
    json_parse(text) == Ok::<JsonView, Seq<char>>(value)
}

/// The document is a string, or an object of strings.
pub open spec fn is_flat(value: JsonView) -> bool {
    match value {
        JsonView::Text(_) => true,
        JsonView::Object(entries) => forall|i: int|
            0 <= i < entries.len() ==> (#[trigger] entries[i]).1 is Text,
        _ => false,
    }
}

/// The text stands between braces.
pub open spec fn is_braced(text: Seq<char>) -> bool {
    text.len() >= 2 && text[0] == '{' && text.last() == '}'
}

/// `serde_json::Value::to_string`: the compact JSON text. The text of a JSON string, or of an
/// object of strings, reads back as that document; the text of an object stands between braces.
#[verifier::external_body]
fn compact_serde(value: &serde_json::Value) -> (r: String)
    ensures
        r@ == compact_text(value_view(*value)),
        is_flat(value_view(*value)) ==> reads_as(r@, value_view(*value)),
        value_view(*value) is Object ==> is_braced(r@),
{
    value.to_string()
}

/// `serde_json::to_string_pretty`, which cannot fail on a document of `serde_json`'s own type; the
/// alternate form of its `Display` is the same text.
#[verifier::external_body]
fn pretty_serde(value: &serde_json::Value) -> (r: String)
    ensures
        r@ == pretty_text(value_view(*value)),
{
    format!("{:#}", value)
}

/// The value under `key` in the entries of an object: the first one with that key.
pub open spec fn lookup(entries: Seq<(Seq<char>, JsonView)>, key: Seq<char>) -> Option<JsonView>
    decreases entries.len(),
{
    if entries.len() == 0 {
        None
    } else if entries[0].0 == key {
        Some(entries[0].1)
    } else {
        lookup(entries.skip(1), key)
    }
}

/// The models of a list of documents.
pub open spec fn json_views(items: Seq<JsonValue>) -> Seq<JsonView> {
    items.map_values(|v: JsonValue| v@)
}

/// The models of the entries of an object.
pub open spec fn entry_views(entries: Seq<(String, JsonValue)>) -> Seq<(Seq<char>, JsonView)> {
    entries.map_values(|e: (String, JsonValue)| (e.0@, e.1@))
}

impl JsonView {
    /// The member of an object under `key`.
    pub open spec fn get(self, key: Seq<char>) -> Option<JsonView> {
        match self {
            JsonView::Object(entries) => lookup(entries, key),
            _ => None,
        }
    }

    /// The text of a JSON string.
    pub open spec fn text(self) -> Option<Seq<char>> {
        match self {
            JsonView::Text(s) => Some(s),
            _ => None,
        }
    }

    /// The items of a JSON array.
    pub open spec fn items(self) -> Option<Seq<JsonView>> {
        match self {
            JsonView::Array(items) => Some(items),
            _ => None,
        }
    }

    /// The text under `key`, where there is one.
    pub open spec fn get_text(self, key: Seq<char>) -> Option<Seq<char>> {
        match self.get(key) {
            Some(value) => value.text(),
            None => None,
        }
    }

    /// The array under `key`, where there is one.
    pub open spec fn get_items(self, key: Seq<char>) -> Option<Seq<JsonView>> {
        match self.get(key) {
            Some(value) => value.items(),
            None => None,
        }
    }
}

/// The document as a `serde_json` value holds it: the entries of every object ordered by key.
pub open spec fn canonical(value: JsonView) -> JsonView
    decreases value,
{
    match value {
        JsonView::Array(items) => JsonView::Array(canonical_items(items)),
        JsonView::Object(entries) => JsonView::Object(sorted_entries(canonical_entries(entries))),
        _ => value,
    }
}

/// Each of the items as a `serde_json` value holds it.
pub open spec fn canonical_items(items: Seq<JsonView>) -> Seq<JsonView>
    decreases items,
{
    if items.len() == 0 {
        Seq::empty()
    } else {
        canonical_items(items.take(items.len() - 1)).push(canonical(items[items.len() - 1]))
    }
}

/// Each of the entries with its value as a `serde_json` value holds it.
pub open spec fn canonical_entries(entries: Seq<(Seq<char>, JsonView)>) -> Seq<
    (Seq<char>, JsonView),
>
    decreases entries,
{
    if entries.len() == 0 {
        Seq::empty()
    } else {
        canonical_entries(entries.take(entries.len() - 1)).push(
            (entries[entries.len() - 1].0, canonical(entries[entries.len() - 1].1)),
        )
    }
}

/// The model of an optional document.
pub open spec fn opt_json_view(value: Option<&JsonValue>) -> Option<JsonView> {
    match value {
        Some(value) => Some(value@),
        None => None,
    }
}

/// What reading a document gave.
pub open spec fn parse_view(r: Result<JsonValue, String>) -> Result<JsonView, Seq<char>> {
    match r {
        Ok(value) => Ok(value@),
        Err(error) => Err(error@),
    }
}

impl JsonValue {
    pub open spec fn view(&self) -> JsonView
        decreases self,
    {
        match self {
            JsonValue::Null => JsonView::Null,
            JsonValue::Bool(b) => JsonView::Bool(*b),
            JsonValue::Number(n) => JsonView::Number(number_view(*n)),
            JsonValue::Text(s) => JsonView::Text(s@),
            JsonValue::Array(items) => JsonView::Array(
                Seq::new(
                    items@.len(),
                    |i: int|
                        if 0 <= i < items@.len() {
                            items@[i].view()
                        } else {
                            JsonView::Null
                        },
                ),
            ),
            JsonValue::Object(entries) => JsonView::Object(
                Seq::new(
                    entries@.len(),
                    |i: int|
                        if 0 <= i < entries@.len() {
                            (entries@[i].0@, entries@[i].1.view())
                        } else {
                            (Seq::empty(), JsonView::Null)
                        },
                ),
            ),
        }
    }

    /// The model of an array is the array of the models.
    pub broadcast proof fn lemma_array_view(items: Vec<JsonValue>)
        ensures
            (#[trigger] JsonValue::Array(items).view()) == JsonView::Array(json_views(items@)),
    {
        assert(JsonValue::Array(items).view()->Array_0 =~= json_views(items@));
    }

    /// The model of an object is the list of the models of its entries.
    pub broadcast proof fn lemma_object_view(entries: Vec<(String, JsonValue)>)
        ensures
            (#[trigger] JsonValue::Object(entries).view()) == JsonView::Object(
                entry_views(entries@),
            ),
    {
        assert(JsonValue::Object(entries).view()->Object_0 =~= entry_views(entries@));
    }

    /// The document held by a `serde_json` value.
    pub fn from_serde(value: serde_json::Value) -> (r: JsonValue)
        ensures
            r@ == value_view(value),
        decreases value_view(value),
    {
        broadcast use {JsonValue::lemma_array_view, JsonValue::lemma_object_view};

        let ghost model = value_view(value);
        match shape_of(value) {
            JsonShape::Null => JsonValue::Null,
            JsonShape::Bool(b) => JsonValue::Bool(b),
            JsonShape::Number(n) => JsonValue::Number(n),
            JsonShape::Text(s) => JsonValue::Text(s),
            JsonShape::Array(items) => {
                let ghost source = items@.map_values(|v: serde_json::Value| value_view(v));
                let mut items = items;
                let mut out: Vec<JsonValue> = Vec::new();
                assert(items@.map_values(|v: serde_json::Value| value_view(v)) =~= source.skip(0));
                while items.len() > 0
                    invariant
                        model == value_view(value),
                        model == JsonView::Array(source),
                        out@.len() + items@.len() == source.len(),
                        items@.map_values(|v: serde_json::Value| value_view(v)) == source.skip(
                            out@.len() as int,
                        ),
                        json_views(out@) == source.take(out@.len() as int),
                    decreases items@.len(),
                {
                    let ghost k = out@.len() as int;
                    let ghost rest = items@.map_values(|v: serde_json::Value| value_view(v));
                    let item = items.remove(0);
                    proof {
                        assert(rest[0] == source[k]);
                        assert(value_view(item) == source[k]);
                        assert(decreases_to!(model => model->Array_0[k]));
                    }
                    let converted = JsonValue::from_serde(item);
                    let ghost done = json_views(out@);
                    out.push(converted);
                    proof {
                        assert(json_views(out@) =~= done.push(source[k]));
                        assert(source.take(k + 1) =~= source.take(k).push(source[k]));
                        assert(items@.map_values(|v: serde_json::Value| value_view(v))
                            =~= source.skip(k + 1)) by {
                            assert(items@.map_values(|v: serde_json::Value| value_view(v))
                                =~= rest.skip(1));
                            assert(rest.skip(1) =~= source.skip(k + 1));
                        }
                    }
                }
                assert(source.take(out@.len() as int) =~= source);
                JsonValue::Array(out)
            },
            JsonShape::Object(entries) => {
                let ghost source = entries@.map_values(
                    |e: (String, serde_json::Value)| (e.0@, value_view(e.1)),
                );
                let mut entries = entries;
                let mut out: Vec<(String, JsonValue)> = Vec::new();
                assert(entries@.map_values(
                    |e: (String, serde_json::Value)| (e.0@, value_view(e.1)),
                ) =~= source.skip(0));
                while entries.len() > 0
                    invariant
                        model == value_view(value),
                        model == JsonView::Object(source),
                        out@.len() + entries@.len() == source.len(),
                        entries@.map_values(
                            |e: (String, serde_json::Value)| (e.0@, value_view(e.1)),
                        ) == source.skip(out@.len() as int),
                        entry_views(out@) == source.take(out@.len() as int),
                    decreases entries@.len(),
                {
                    let ghost k = out@.len() as int;
                    let ghost rest = entries@.map_values(
                        |e: (String, serde_json::Value)| (e.0@, value_view(e.1)),
                    );
                    let (key, item) = entries.remove(0);
                    proof {
                        assert(rest[0] == source[k]);
                        assert(value_view(item) == source[k].1);
                        assert(decreases_to!(model => model->Object_0[k].1));
                    }
                    let converted = JsonValue::from_serde(item);
                    let ghost done = entry_views(out@);
                    out.push((key, converted));
                    proof {
                        assert(entry_views(out@) =~= done.push(source[k]));
                        assert(source.take(k + 1) =~= source.take(k).push(source[k]));
                        assert(entries@.map_values(
                            |e: (String, serde_json::Value)| (e.0@, value_view(e.1)),
                        ) =~= rest.skip(1));
                        assert(rest.skip(1) =~= source.skip(k + 1));
                    }
                }
                assert(source.take(out@.len() as int) =~= source);
                JsonValue::Object(out)
            },
        }
    }

    /// Reads a text as JSON; an error is given as its message.
    pub fn parse(text: &str) -> (r: Result<JsonValue, String>)
        ensures
            parse_view(r) == json_parse(text@),
            r matches Ok(value) ==> longest_text(value@) < text@.len(),
    {
        match parse_serde(text) {
            Ok(value) => Ok(JsonValue::from_serde(value)),
            Err(error) => Err(error),
        }
    }

    /// The `serde_json` value that holds the document.
    pub fn to_serde(&self) -> (r: serde_json::Value)
        ensures
            value_view(r) == canonical(self@),
        decreases self,
    {
        broadcast use {JsonValue::lemma_array_view, JsonValue::lemma_object_view};

        match self {
            JsonValue::Null => serde_null(),
            JsonValue::Bool(b) => serde_bool(*b),
            JsonValue::Number(n) => serde_number(n.clone()),
            JsonValue::Text(s) => serde_text(s.clone()),
            JsonValue::Array(items) => {
                let mut out: Vec<serde_json::Value> = Vec::new();
                let mut i: usize = 0;
                let ghost source = json_views(items@);
                while i < items.len()
                    invariant
                        i <= items@.len(),
                        *self == JsonValue::Array(*items),
                        source == json_views(items@),
                        out@.map_values(|v: serde_json::Value| value_view(v)) == canonical_items(
                            source.take(i as int),
                        ),
                    decreases items@.len() - i,
                {
                    let ghost done = out@.map_values(|v: serde_json::Value| value_view(v));
                    assert(decreases_to!(self => self->Array_0@[i as int]));
                    out.push(items[i].to_serde());
                    proof {
                        let more = source.take(i as int + 1);
                        assert(more.take(more.len() - 1) =~= source.take(i as int));
                        assert(out@.map_values(|v: serde_json::Value| value_view(v)) =~= done.push(
                            canonical(source[i as int]),
                        ));
                    }
                    i = i + 1;
                }
                assert(source.take(i as int) =~= source);
                serde_array(out)
            },
            JsonValue::Object(entries) => {
                let mut out: Vec<(String, serde_json::Value)> = Vec::new();
                let mut i: usize = 0;
                let ghost source = entry_views(entries@);
                while i < entries.len()
                    invariant
                        i <= entries@.len(),
                        *self == JsonValue::Object(*entries),
                        source == entry_views(entries@),
                        out@.map_values(
                            |e: (String, serde_json::Value)| (e.0@, value_view(e.1)),
                        ) == canonical_entries(source.take(i as int)),
                    decreases entries@.len() - i,
                {
                    let ghost done = out@.map_values(
                        |e: (String, serde_json::Value)| (e.0@, value_view(e.1)),
                    );
                    assert(decreases_to!(self => self->Object_0@[i as int].1));
                    let key = entries[i].0.clone();
                    let value = entries[i].1.to_serde();
                    out.push((key, value));
                    proof {
                        let more = source.take(i as int + 1);
                        assert(more.take(more.len() - 1) =~= source.take(i as int));
                        assert(out@.map_values(
                            |e: (String, serde_json::Value)| (e.0@, value_view(e.1)),
                        ) =~= done.push((source[i as int].0, canonical(source[i as int].1))));
                    }
                    i = i + 1;
                }
                assert(source.take(i as int) =~= source);
                serde_object(out)
            },
        }
    }

    /// The compact JSON text of the document.
    pub fn compact(&self) -> (r: String)
        ensures
            r@ == compact_text(canonical(self@)),
            is_flat(canonical(self@)) ==> reads_as(r@, canonical(self@)),
            self@ is Object ==> is_braced(r@),
    {
        compact_serde(&self.to_serde())
    }

    /// The indented JSON text of the document.
    pub fn pretty(&self) -> (r: String)
        ensures
            r@ == pretty_text(canonical(self@)),
    {
        pretty_serde(&self.to_serde())
    }

    /// The number `n`.
    pub fn number(n: u64) -> (r: JsonValue)
        ensures
            r@ == JsonView::Number(whole_number(n)),
            whole_number(n).unsigned == Some(n),
            whole_number(n).signed == signed_of(n),
            whole_number(n).text == decimal(n as nat),
    {
        JsonValue::Number(number_from(n))
    }

    /// The number `n`.
    pub fn signed(n: i64) -> (r: JsonValue)
        ensures
            r@ == JsonView::Number(signed_number(n)),
            signed_number(n).signed == Some(n),
            signed_number(n).text == signed_decimal(n as int),
    {
        JsonValue::Number(number_from_signed(n))
    }

    /// What is read off the document where it is a number.
    pub fn as_number(&self) -> (r: Option<NumberParts>)
        ensures
            match r {
                Some(parts) => self@ == JsonView::Number(parts@),
                None => !(self@ is Number),
            },
    {
        match self {
            JsonValue::Number(n) => Some(number_parts(n)),
            _ => None,
        }
    }

    /// The member of an object under `key`.
    pub fn get(&self, key: &str) -> (r: Option<&JsonValue>)
        ensures
            opt_json_view(r) == self@.get(key@),
            r matches Some(v) ==> decreases_to!(self => v),
    {
        broadcast use JsonValue::lemma_object_view;

        match self {
            JsonValue::Object(entries) => {
                let mut i: usize = 0;
                let ghost model = entry_views(entries@);
                assert(model.skip(0) =~= model);
                while i < entries.len()
                    invariant
                        i <= entries@.len(),
                        model == entry_views(entries@),
                        self@ == JsonView::Object(model),
                        *self == JsonValue::Object(*entries),
                        lookup(model, key@) == lookup(model.skip(i as int), key@),
                    decreases entries@.len() - i,
                {
                    assert(model.skip(i as int)[0] == model[i as int]);
                    if same(entries[i].0.as_str(), key) {
                        assert(decreases_to!(entries@ => entries@[i as int]));
                        return Some(&entries[i].1);
                    }
                    assert(model.skip(i as int).skip(1) =~= model.skip(i as int + 1));
                    i = i + 1;
                }
                None
            },
            _ => None,
        }
    }

    /// The text of a JSON string.
    pub fn as_str(&self) -> (r: Option<&str>)
        ensures
            opt_str_view(r) == self@.text(),
    {
        match self {
            JsonValue::Text(s) => Some(s.as_str()),
            _ => None,
        }
    }

    /// The items of a JSON array.
    pub fn as_array(&self) -> (r: Option<&Vec<JsonValue>>)
        ensures
            match r {
                Some(items) => self@.items() == Some(json_views(items@)) && *self
                    == JsonValue::Array(*items),
                None => self@.items() is None,
            },
    {
        broadcast use JsonValue::lemma_array_view;

        match self {
            JsonValue::Array(items) => Some(items),
            _ => None,
        }
    }

    /// The text under `key`, where there is one.
    pub fn get_str(&self, key: &str) -> (r: Option<&str>)
        ensures
            opt_str_view(r) == self@.get_text(key@),
    {
        match self.get(key) {
            Some(value) => value.as_str(),
            None => None,
        }
    }
}

/// The list of texts as an array.
pub open spec fn text_array(texts: Seq<Seq<char>>) -> JsonView {
    JsonView::Array(texts.map_values(|t: Seq<char>| JsonView::Text(t)))
}

/// A list of texts as an array.
pub fn text_array_of(texts: &Vec<String>) -> (r: JsonValue)
    ensures
        r@ == text_array(views(texts@)),
{
    broadcast use JsonValue::lemma_array_view;

    let ghost all = views(texts@);
    let mut items: Vec<JsonValue> = Vec::new();
    let mut i: usize = 0;
    while i < texts.len()
        invariant
            i <= texts@.len(),
            all == views(texts@),
            items@.len() == i,
            forall|j: int| 0 <= j < i ==> (#[trigger] items@[j])@ == JsonView::Text(all[j]),
        decreases texts@.len() - i,
    {
        items.push(JsonValue::Text(texts[i].clone()));
        i = i + 1;
    }
    assert(json_views(items@) =~= all.map_values(|t: Seq<char>| JsonView::Text(t)));
    JsonValue::Array(items)
}

/// The compact JSON text of a JSON string.
pub fn quoted(s: &str) -> (r: String)
    ensures
        r@ == compact_text(JsonView::Text(s@)),
        reads_as(r@, JsonView::Text(s@)),
{
    compact_serde(&serde_text(s.to_owned()))
}

impl Clone for JsonValue {
    fn clone(&self) -> (r: Self)
        ensures
            r@ == self@,
        decreases self,
    {
        broadcast use {JsonValue::lemma_array_view, JsonValue::lemma_object_view};

        match self {
            JsonValue::Null => JsonValue::Null,
            JsonValue::Bool(b) => JsonValue::Bool(*b),
            JsonValue::Number(n) => JsonValue::Number(n.clone()),
            JsonValue::Text(s) => JsonValue::Text(s.clone()),
            JsonValue::Array(items) => {
                let mut out: Vec<JsonValue> = Vec::new();
                let mut i: usize = 0;
                while i < items.len()
                    invariant
                        i <= items@.len(),
                        *self == JsonValue::Array(*items),
                        json_views(out@) == json_views(items@).take(i as int),
                    decreases items@.len() - i,
                {
                    let ghost done = json_views(out@);
                    assert(decreases_to!(self => self->Array_0@[i as int]));
                    out.push(items[i].clone());
                    proof {
                        assert(json_views(out@) =~= done.push(items@[i as int]@));
                        assert(json_views(items@).take(i as int + 1) =~= done.push(
                            json_views(items@)[i as int],
                        ));
                    }
                    i = i + 1;
                }
                assert(json_views(items@).take(i as int) =~= json_views(items@));
                JsonValue::Array(out)
            },
            JsonValue::Object(entries) => {
                let mut out: Vec<(String, JsonValue)> = Vec::new();
                let mut i: usize = 0;
                while i < entries.len()
                    invariant
                        i <= entries@.len(),
                        *self == JsonValue::Object(*entries),
                        entry_views(out@) == entry_views(entries@).take(i as int),
                    decreases entries@.len() - i,
                {
                    let ghost done = entry_views(out@);
                    assert(decreases_to!(self => self->Object_0@[i as int].1));
                    let key = entries[i].0.clone();
                    let value = entries[i].1.clone();
                    out.push((key, value));
                    proof {
                        assert(entry_views(out@) =~= done.push(
                            (entries@[i as int].0@, entries@[i as int].1@),
                        ));
                        assert(entry_views(entries@).take(i as int + 1) =~= done.push(
                            entry_views(entries@)[i as int],
                        ));
                    }
                    i = i + 1;
                }
                assert(entry_views(entries@).take(i as int) =~= entry_views(entries@));
                JsonValue::Object(out)
            },
        }
    }
}

} // verus!
