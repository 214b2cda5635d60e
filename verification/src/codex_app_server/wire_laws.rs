//! What holds of the documents that a Codex app server sends.
use crate::codex_app_server::fields::{
    bool_field_of, command_of, normalized_identifier, string_field_of, text_keys, text_of, truth,
    word_parts,
};
use crate::codex_app_server::types::{ItemView, SummaryView};
use crate::codex_app_server::wire::{
    completed_summary, content_parts, content_text, items_of, items_of_list, list_entries,
    model_info_of, models_of, nested_items, nesting_keys, notification_item, own_item, summaries_of,
    thread_detail_of, thread_summary_of,
};
use crate::json::{JsonView, canonical, compact_text};
use crate::text::{contains_text, is_blank, join};
use vstd::prelude::*;

verus! {

/// Of several names the first that holds a text which is not blank, or a number, counts.
pub proof fn law_first_text_counts(
    value: JsonView,
    a: Seq<Seq<char>>,
    b: Seq<Seq<char>>,
    key: Seq<char>,
)
    ensures
        string_field_of(value, a + b) == (if string_field_of(value, a) is Some {
            string_field_of(value, a)
        } else {
            string_field_of(value, b)
        }),
        string_field_of(value, Seq::empty()) is None,
        value.get(key) matches Some(JsonView::Text(text)) ==> string_field_of(value, seq![key]) == (
        if is_blank(text) {
            None
        } else {
            Some(text)
        }),
        value.get(key) matches Some(JsonView::Number(n)) ==> string_field_of(value, seq![key])
            == Some(n.text),
        !(value.get(key) matches Some(member) && (member is Text || member is Number))
            ==> string_field_of(value, seq![key]) is None,
    decreases a.len(),
{
    reveal_with_fuel(string_field_of, 2);
    assert(seq![key].skip(1) =~= Seq::empty());
    if a.len() == 0 {
        assert(a + b =~= b);
    } else {
        law_first_text_counts(value, a.skip(1), b, key);
        assert((a + b).skip(1) =~= a.skip(1) + b);
        assert((a + b)[0] == a[0]);
    }
}

/// A flag is true exactly where the first of its names that tells one says so.
pub proof fn law_first_flag_counts(value: JsonView, keys: Seq<Seq<char>>)
    ensures
        bool_field_of(value, keys) <==> exists|i: int|
            0 <= i < keys.len() && (value.get(#[trigger] keys[i]) == Some(JsonView::Bool(true))
                || value.get(keys[i]) == Some(JsonView::Text("true"@))) && forall|j: int|
                0 <= j < i ==> truth(value.get(#[trigger] keys[j])) is None,
    decreases keys.len(),
{
    reveal_strlit("true");
    reveal_strlit("false");
    assert("true"@.len() != "false"@.len());
    if keys.len() > 0 {
        let rest = keys.skip(1);
        law_first_flag_counts(value, rest);
        assert(keys[0] == keys[0]);
        if truth(value.get(keys[0])) is None {
            if bool_field_of(value, rest) {
                let i = choose|i: int|
                    0 <= i < rest.len() && (value.get(#[trigger] rest[i]) == Some(
                        JsonView::Bool(true),
                    ) || value.get(rest[i]) == Some(JsonView::Text("true"@))) && forall|j: int|
                        0 <= j < i ==> truth(value.get(#[trigger] rest[j])) is None;
                assert(keys[i + 1] == rest[i]);
                assert forall|j: int| 0 <= j < i + 1 implies truth(
                    value.get(#[trigger] keys[j]),
                ) is None by {
                    if j > 0 {
                        assert(rest[j - 1] == keys[j]);
                    }
                }
            }
            if exists|i: int|
                0 <= i < keys.len() && (value.get(#[trigger] keys[i]) == Some(JsonView::Bool(true))
                    || value.get(keys[i]) == Some(JsonView::Text("true"@))) && forall|j: int|
                    0 <= j < i ==> truth(value.get(#[trigger] keys[j])) is None {
                let i = choose|i: int|
                    0 <= i < keys.len() && (value.get(#[trigger] keys[i]) == Some(
                        JsonView::Bool(true),
                    ) || value.get(keys[i]) == Some(JsonView::Text("true"@))) && forall|j: int|
                        0 <= j < i ==> truth(value.get(#[trigger] keys[j])) is None;
                assert(i > 0);
                assert(rest[i - 1] == keys[i]);
                assert forall|j: int| 0 <= j < i - 1 implies truth(
                    value.get(#[trigger] rest[j]),
                ) is None by {
                    assert(rest[j] == keys[j + 1]);
                }
            }
        }
    }
}

/// The word that an item of a list of words is.
pub open spec fn word_of(item: JsonView) -> Seq<char> {
    match item {
        JsonView::Text(text) => text,
        JsonView::Number(n) => n.text,
        _ => Seq::empty(),
    }
}

/// Every text and every number of a list is a word, in order, and nothing else is.
pub proof fn law_words_of_a_list(items: Seq<JsonView>)
    ensures
        word_parts(items) == items.filter(|i: JsonView| i is Text || i is Number).map_values(
            |i: JsonView| word_of(i),
        ),
    decreases items.len(),
{
    reveal(Seq::filter);
    let keep = |i: JsonView| i is Text || i is Number;
    let word = |i: JsonView| word_of(i);
    if items.len() > 0 {
        law_words_of_a_list(items.drop_last());
        assert(items.filter(keep).map_values(word) =~= word_parts(items));
    } else {
        assert(items.filter(keep).map_values(word) =~= Seq::empty());
    }
}

/// A command is what was executed, program and arguments, where that is stated; else the words of
/// the command, or its text, as they stand.
pub proof fn law_command_of_a_message(
    value: JsonView,
    execve: JsonView,
    program: Seq<char>,
    argv: Seq<JsonView>,
    words: Seq<JsonView>,
    text: Seq<char>,
)
    requires
        !is_blank(text),
        !is_blank(program),
    ensures
        value.get("execve"@) == Some(execve) && execve.get("program"@) == Some(
            JsonView::Text(program),
        ) && execve.get("argv"@) == Some(JsonView::Array(argv)) && !is_blank(
            join(seq![program] + word_parts(argv), " "@),
        ) ==> command_of(value) == Some(join(seq![program] + word_parts(argv), " "@)),
        value.get("execve"@) is None && value.get("command"@) == Some(JsonView::Array(words))
            && !is_blank(join(word_parts(words), " "@)) ==> command_of(value) == Some(
            join(word_parts(words), " "@),
        ),
        value.get("execve"@) is None && value.get("command"@) == Some(JsonView::Text(text))
            ==> command_of(value) == Some(text),
        value.get("execve"@) is None && value.get("command"@) is None ==> command_of(value) is None,
{
    law_first_text_counts(execve, Seq::empty(), Seq::empty(), "program"@);
    law_first_text_counts(value, Seq::empty(), Seq::empty(), "command"@);
}

/// The text of a message is its own, else that of its item, else that of its event.
pub proof fn law_text_of_a_message(value: JsonView)
    ensures
        string_field_of(value, text_keys()) is Some ==> text_of(value) == string_field_of(
            value,
            text_keys(),
        ),
        string_field_of(value, text_keys()) is None ==> (value.get("item"@) matches Some(item) ==> (
        text_of(item) is Some ==> text_of(value) == text_of(item))),
        string_field_of(value, text_keys()) is None && value.get("item"@) is None ==> (value.get(
            "event"@,
        ) matches Some(event) ==> text_of(value) == text_of(event)),
        string_field_of(value, text_keys()) is None && value.get("item"@) is None && value.get(
            "event"@,
        ) is None ==> text_of(value) is None,
{
}

/// The items of a list are those of its entries, one after the other.
pub proof fn law_items_of_a_list(a: Seq<JsonView>, b: Seq<JsonView>, value: JsonView)
    ensures
        items_of(JsonView::Array(a + b)) == items_of(JsonView::Array(a)) + items_of(
            JsonView::Array(b),
        ),
        items_of(JsonView::Array(seq![value])) == items_of(value),
        items_of(JsonView::Array(Seq::empty())).len() == 0,
    decreases b.len(),
{
    reveal_with_fuel(items_of_list, 2);
    assert(seq![value].take(0) =~= Seq::empty());
    assert(items_of_list(seq![value]) =~= items_of(value));
    if b.len() == 0 {
        assert(a + b =~= a);
        assert(items_of_list(a) + items_of_list(b) =~= items_of_list(a));
    } else {
        law_items_of_a_list(a, b.take(b.len() - 1), value);
        assert((a + b).take((a + b).len() - 1) =~= a + b.take(b.len() - 1));
        assert((a + b)[(a + b).len() - 1] == b[b.len() - 1]);
        assert(items_of_list(a + b) =~= items_of_list(a) + items_of_list(b));
    }
}

/// The items under a name.
pub open spec fn items_under(value: JsonView, key: Seq<char>) -> Seq<ItemView> {
    match value.get(key) {
        Some(child) => items_of(child),
        None => Seq::empty(),
    }
}

/// An object that is an item is that one item; any other holds the items of all that is nested in
/// it, and none of them is lost.
pub proof fn law_items_of_an_object(entries: Seq<(Seq<char>, JsonView)>)
    ensures
        own_item(JsonView::Object(entries)) matches Some(item) ==> items_of(
            JsonView::Object(entries),
        ) == seq![item],
        own_item(JsonView::Object(entries)) is None ==> ({
            let value = JsonView::Object(entries);
            items_of(value) == items_under(value, "thread"@) + items_under(value, "turns"@)
                + items_under(value, "items"@) + items_under(value, "messages"@) + items_under(
                value,
                "events"@,
            ) + items_under(value, "entries"@) + items_under(value, "content"@)
        }),
{
    let value = JsonView::Object(entries);
    reveal_with_fuel(nested_items, 8);
    let keys = nesting_keys();
    assert(keys[0] == "thread"@ && keys[1] == "turns"@ && keys[2] == "items"@ && keys[3]
        == "messages"@ && keys[4] == "events"@ && keys[5] == "entries"@ && keys[6] == "content"@);
    if own_item(value) is None {
        let a = items_under(value, "thread"@);
        let b = items_under(value, "turns"@);
        let c = items_under(value, "items"@);
        let d = items_under(value, "messages"@);
        let e = items_under(value, "events"@);
        let f = items_under(value, "entries"@);
        let g = items_under(value, "content"@);
        assert(nested_items(value, 0) =~= Seq::empty());
        assert(nested_items(value, 1) =~= a);
        assert(nested_items(value, 2) =~= a + b);
        assert(nested_items(value, 3) =~= a + b + c);
        assert(nested_items(value, 4) =~= a + b + c + d);
        assert(nested_items(value, 5) =~= a + b + c + d + e);
        assert(nested_items(value, 6) =~= a + b + c + d + e + f);
        assert(nested_items(value, 7) =~= a + b + c + d + e + f + g);
    }
}

/// An item has the role that it names, else the agent's, and the text of its content, else its own.
pub proof fn law_item_of_an_object(value: JsonView, role: Seq<char>, content: JsonView)
    requires
        string_field_of(value, seq!["role"@, "type"@, "kind"@]) == Some(role),
    ensures
        value.get("content"@) == Some(content) && !is_blank(
            content_text(content)
        ) ==> own_item(value)
            == Some(ItemView { role, text: content_text(content) }),
        value.get("content"@) is None ==> own_item(value) == (match text_of(value) {
            Some(text) => Some(ItemView { role, text }),
            None => None,
        }),
{
}

/// An item without a role is the agent's.
pub proof fn law_item_without_role(value: JsonView)
    requires
        string_field_of(value, seq!["role"@, "type"@, "kind"@]) is None,
    ensures
        text_of(value) matches Some(text) ==> own_item(value) == Some(
            ItemView { role: "codex"@, text },
        ),
        text_of(value) is None ==> own_item(value) is None,
{
}

/// The parts of a content that say something, in order, make its lines.
pub proof fn law_content_of_a_list(values: Seq<JsonView>)
    ensures
        content_text(JsonView::Array(values)) == join(
            values.map_values(|v: JsonView| content_text(v)).filter(|t: Seq<char>| !is_blank(t)),
            "\n"@,
        ),
{
    lemma_content_parts(values);
}

proof fn lemma_content_parts(values: Seq<JsonView>)
    ensures
        content_parts(values) == values.map_values(|v: JsonView| content_text(v)).filter(
            |t: Seq<char>| !is_blank(t),
        ),
    decreases values.len(),
{
    reveal(Seq::filter);
    let text = |v: JsonView| content_text(v);
    let keep = |t: Seq<char>| !is_blank(t);
    let all = values.map_values(text);
    if values.len() > 0 {
        let front = values.take(values.len() - 1);
        lemma_content_parts(front);
        assert(all.drop_last() =~= front.map_values(text));
        assert(all.last() == content_text(values[values.len() - 1]));
        assert(all.filter(keep) =~= content_parts(values));
    } else {
        assert(all.filter(keep) =~= Seq::empty());
    }
}

/// A thread is listed with what its entry states: its identifier, without which it is none, the
/// first of its titles, else its first prompt, else its identifier.
pub proof fn law_thread_of_an_entry(value: JsonView, id: Seq<char>, text: Seq<char>)
    requires
        value.get("id"@) == Some(JsonView::Text(id)),
        !is_blank(id),
        !is_blank(text),
    ensures
        thread_summary_of(value) is Some,
        thread_summary_of(value)->0.id == id,
        value.get("title"@) == Some(JsonView::Text(text)) ==> thread_summary_of(value)->0.title
            == text,
        string_field_of(value, seq!["title"@, "name"@, "summary"@, "preview"@]) is None
            && value.get("initialPrompt"@) == Some(JsonView::Text(text)) ==> thread_summary_of(
            value,
        )->0.title == text,
        string_field_of(value, seq!["title"@, "name"@, "summary"@, "preview"@]) is None
            && string_field_of(value, seq!["initialPrompt"@, "initial_prompt"@]) is None
            ==> thread_summary_of(value)->0.title == id,
        value.get("cwd"@) == Some(JsonView::Text(text)) ==> thread_summary_of(value)->0.cwd == Some(
            text,
        ),
        value.get("updatedAt"@) == Some(JsonView::Text(text)) ==> thread_summary_of(
            value,
        )->0.updated_at == Some(text),
        value.get("sourceKind"@) == Some(JsonView::Text(text)) ==> thread_summary_of(
            value,
        )->0.source_kind == Some(text),
{
}

/// A model is listed with what its entry states; without a name it goes by its identifier.
pub proof fn law_model_of_an_entry(value: JsonView, id: Seq<char>, text: Seq<char>)
    requires
        value.get("id"@) == Some(JsonView::Text(id)),
        !is_blank(id),
        !is_blank(text),
    ensures
        model_info_of(value) is Some,
        model_info_of(value)->0.id == id,
        value.get("displayName"@) == Some(JsonView::Text(text)) ==> model_info_of(
            value,
        )->0.display_name == text,
        string_field_of(value, seq!["displayName"@, "display_name"@, "name"@, "label"@]) is None
            ==> model_info_of(value)->0.display_name == id,
        value.get("default"@) matches Some(JsonView::Bool(flag)) ==> model_info_of(
            value,
        )->0.is_default == flag,
        value.get("default"@) is None ==> (value.get("isDefault"@) matches Some(
            JsonView::Bool(flag),
        ) ==> model_info_of(value)->0.is_default == flag),
{
    let keys = seq!["default"@, "isDefault"@, "is_default"@];
    assert(keys[0] == "default"@);
    assert(keys.skip(1)[0] == "isDefault"@);
    reveal_with_fuel(bool_field_of, 3);
}

/// Every entry that describes a thread is listed, in order.
pub proof fn law_every_thread_is_listed(entries: Seq<JsonView>)
    ensures
        summaries_of(entries) == entries.filter(
            |e: JsonView| thread_summary_of(e) is Some,
        ).map_values(|e: JsonView| thread_summary_of(e)->0),
    decreases entries.len(),
{
    reveal(Seq::filter);
    let keep = |e: JsonView| thread_summary_of(e) is Some;
    let make = |e: JsonView| thread_summary_of(e)->0;
    if entries.len() > 0 {
        law_every_thread_is_listed(entries.drop_last());
        assert(entries.filter(keep).map_values(make) =~= summaries_of(entries));
    } else {
        assert(entries.filter(keep).map_values(make) =~= Seq::empty());
    }
}

/// Every entry that describes a model is listed, in order.
pub proof fn law_every_model_is_listed(entries: Seq<JsonView>)
    ensures
        models_of(entries) == entries.filter(|e: JsonView| model_info_of(e) is Some).map_values(
            |e: JsonView| model_info_of(e)->0,
        ),
    decreases entries.len(),
{
    reveal(Seq::filter);
    let keep = |e: JsonView| model_info_of(e) is Some;
    let make = |e: JsonView| model_info_of(e)->0;
    if entries.len() > 0 {
        law_every_model_is_listed(entries.drop_last());
        assert(entries.filter(keep).map_values(make) =~= models_of(entries));
    } else {
        assert(entries.filter(keep).map_values(make) =~= Seq::empty());
    }
}

/// The entries of an answer stand under the name that was asked for, else under `items`, else under
/// `data`; an answer that is a list is its entries.
pub proof fn law_entries_of_an_answer(value: JsonView, key: Seq<char>, entries: Seq<JsonView>)
    ensures
        value.get(key) == Some(JsonView::Array(entries)) ==> list_entries(value, key) == entries,
        value.get(key) is None && value.get("items"@) == Some(JsonView::Array(entries))
            ==> list_entries(value, key) == entries,
        value.get(key) is None && value.get("items"@) is None && value.get("data"@) == Some(
            JsonView::Array(entries),
        ) ==> list_entries(value, key) == entries,
        list_entries(JsonView::Array(entries), key) == entries,
{
}

/// What a thread states itself is kept; only what it leaves open is taken from what was known.
pub proof fn law_known_facts_fill_gaps(summary: SummaryView, fallback: SummaryView)
    ensures
        completed_summary(summary, fallback).id == summary.id,
        summary.title != summary.id ==> completed_summary(summary, fallback).title
            == summary.title,
        summary.title == summary.id && fallback.title != fallback.id ==> completed_summary(
            summary,
            fallback,
        ).title == fallback.title,
        summary.cwd is Some ==> completed_summary(summary, fallback).cwd == summary.cwd,
        summary.cwd is None ==> completed_summary(summary, fallback).cwd == fallback.cwd,
        summary.updated_at is Some ==> completed_summary(summary, fallback).updated_at
            == summary.updated_at,
        summary.updated_at is None ==> completed_summary(summary, fallback).updated_at
            == fallback.updated_at,
        summary.source_kind is Some ==> completed_summary(summary, fallback).source_kind
            == summary.source_kind,
        summary.source_kind is None ==> completed_summary(summary, fallback).source_kind
            == fallback.source_kind,
{
}

/// A thread that was read has all of its items, and is described by its answer, completed by what
/// was known; where the answer describes none, by what was known; else by its identifier.
pub proof fn law_thread_that_was_read(
    value: JsonView,
    fallback: Option<SummaryView>,
    fallback_id: Seq<char>,
    thread: JsonView,
)
    ensures
        thread_detail_of(value, fallback, fallback_id).items == items_of(value),
        value.get("thread"@) == Some(thread) && thread_summary_of(thread) is Some ==> (
        thread_detail_of(value, fallback, fallback_id).summary == match fallback {
            Some(known) => completed_summary(thread_summary_of(thread)->0, known),
            None => thread_summary_of(thread)->0,
        }),
        value.get("thread"@) is None && thread_summary_of(value) is Some ==> thread_detail_of(
            value,
            fallback,
            fallback_id,
        ).summary.id == thread_summary_of(value)->0.id,
        value.get("thread"@) is None && thread_summary_of(value) is None ==> (fallback matches Some(
            known,
        ) ==> thread_detail_of(value, fallback, fallback_id).summary == known),
        value.get("thread"@) is None && thread_summary_of(value) is None && fallback is None
            ==> thread_detail_of(value, fallback, fallback_id).summary.id == fallback_id
            && thread_detail_of(value, fallback, fallback_id).summary.title == fallback_id,
{
}

/// A notification is an item with its method for a role: the whole command where it is about one,
/// else its text; one without either is none.
pub proof fn law_item_of_a_notification(
    method: Seq<char>,
    params: JsonView,
    item: JsonView,
    kind: Seq<char>,
)
    requires
        !is_blank(kind),
    ensures
        params.get("item"@) == Some(item) && item.get("type"@) == Some(JsonView::Text(kind))
            && contains_text(normalized_identifier(kind), "commandexecution"@)
            ==> notification_item(Some(method), params) == Some(
            ItemView { role: method, text: compact_text(canonical(item)) },
        ),
        params.get("item"@) is None ==> notification_item(Some(method), params) == (match text_of(
            params,
        ) {
            Some(text) => Some(ItemView { role: method, text }),
            None => None,
        }),
        notification_item(None, params) matches Some(shown) ==> shown.role == "codex"@,
        notification_item(Some(method), params) matches Some(shown) ==> shown.role == method,
{
    let keys = seq!["type"@, "kind"@];
    assert(keys[0] == "type"@);
}

} // verus!
