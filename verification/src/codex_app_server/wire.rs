//! Threads, items and models as a Codex app server's replies state them.
use crate::codex_app_server::fields::{
    bool_field, bool_field_of, key_views, lemma_get_smaller, normalize_identifier,
    normalized_identifier, string_field, string_field_of, text_from_value, text_of,
};
use crate::codex_app_server::types::{
    CodexConversationItem, CodexModelInfo, CodexThreadDetail, CodexThreadSummary, DetailView,
    ItemView, ModelView, SummaryView, item_views, model_views, summary_views,
};
use crate::json::{JsonValue, JsonView, canonical, compact_text, json_views};
use crate::text::{
    blank, contains, contains_text, is_blank, join, joined, opt_str_view, opt_view, same, views,
};
use vstd::prelude::*;

verus! {

/// The keys under which an entry says who speaks.
pub open spec fn role_keys() -> Seq<Seq<char>> {
    seq!["role"@, "type"@, "kind"@]
}

/// The keys under which a reply nests further entries.
pub open spec fn nesting_keys() -> Seq<Seq<char>> {
    seq![
        "thread"@,
        "turns"@,
        "items"@,
        "messages"@,
        "events"@,
        "entries"@,
        "content"@,
    ]
}

/// The text of a `content` field: of a list, the texts of its parts on lines of their own.
pub open spec fn content_text(value: JsonView) -> Seq<char>
    decreases value,
{
    match value {
        JsonView::Array(values) => join(content_parts(values), "\n"@),
        JsonView::Object(_) => match text_of(value) {
            Some(text) => text,
            None => Seq::empty(),
        },
        JsonView::Text(s) => s,
        _ => Seq::empty(),
    }
}

/// The texts of the parts of a content list that are not blank.
pub open spec fn content_parts(values: Seq<JsonView>) -> Seq<Seq<char>>
    decreases values,
{
    if values.len() == 0 {
        Seq::empty()
    } else {
        let before = content_parts(values.take(values.len() - 1));
        let text = content_text(values[values.len() - 1]);
        if is_blank(text) {
            before
        } else {
            before.push(text)
        }
    }
}

/// The item that an entry states by itself: its role and content, or its text.
pub open spec fn own_item(value: JsonView) -> Option<ItemView> {
    let role = string_field_of(value, role_keys());
    let content = match value.get("content"@) {
        Some(content) => content_text(content),
        None => Seq::empty(),
    };
    if role is Some && !is_blank(content) {
        Some(ItemView { role: role->0, text: content })
    } else {
        match text_of(value) {
            Some(text) => Some(
                ItemView {
                    role: match role {
                        Some(role) => role,
                        None => "codex"@,
                    },
                    text,
                },
            ),
            None => None,
        }
    }
}

/// The items of a reply, in the order of the reply: an entry that states an item itself gives that
/// item; any other gives those of the entries nested in it.
pub open spec fn items_of(value: JsonView) -> Seq<ItemView>
    decreases value, 8int,
{
    match value {
        JsonView::Array(values) => items_of_list(values),
        JsonView::Object(_) => match own_item(value) {
            Some(item) => seq![item],
            None => nested_items(value, 7),
        },
        _ => Seq::empty(),
    }
}

/// The items of the entries of a list, one entry after the other.
pub open spec fn items_of_list(values: Seq<JsonView>) -> Seq<ItemView>
    decreases values, 0int,
{
    if values.len() == 0 {
        Seq::empty()
    } else {
        items_of_list(values.take(values.len() - 1)) + items_of(values[values.len() - 1])
    }
}

/// The items nested under the first `n` of the nesting keys.
pub open spec fn nested_items(value: JsonView, n: nat) -> Seq<ItemView>
    decreases value, n,
{
    if n == 0 || n > nesting_keys().len() {
        Seq::empty()
    } else {
        let key = nesting_keys()[n - 1];
        proof {
            lemma_get_smaller(value, key);
        }
        let before = nested_items(value, (n - 1) as nat);
        match value.get(key) {
            Some(child) => before + items_of(child),
            None => before,
        }
    }
}

/// A thread's summary as an entry states it; an entry without an identifier states none.
pub open spec fn thread_summary_of(value: JsonView) -> Option<SummaryView> {
    match string_field_of(value, seq!["id"@, "threadId"@, "thread_id"@, "conversationId"@]) {
        Some(id) => Some(
            SummaryView {
                id,
                title: match string_field_of(
                    value,
                    seq!["title"@, "name"@, "summary"@, "preview"@],
                ) {
                    Some(title) => title,
                    None => match string_field_of(
                        value,
                        seq!["initialPrompt"@, "initial_prompt"@],
                    ) {
                        Some(title) => title,
                        None => id,
                    },
                },
                cwd: string_field_of(
                    value,
                    seq!["cwd"@, "workingDirectory"@, "working_directory"@],
                ),
                updated_at: string_field_of(
                    value,
                    seq!["updatedAt"@, "updated_at"@, "lastUpdatedAt"@],
                ),
                source_kind: string_field_of(value, seq!["sourceKind"@, "source_kind"@]),
            },
        ),
        None => None,
    }
}

/// A model as an entry states it; an entry without an identifier states none.
pub open spec fn model_info_of(value: JsonView) -> Option<ModelView> {
    match string_field_of(value, seq!["id"@, "model"@, "modelId"@, "model_id"@]) {
        Some(id) => Some(
            ModelView {
                id,
                display_name: match string_field_of(
                    value,
                    seq!["displayName"@, "display_name"@, "name"@, "label"@],
                ) {
                    Some(name) => name,
                    None => id,
                },
                is_default: bool_field_of(value, seq!["default"@, "isDefault"@, "is_default"@]),
            },
        ),
        None => None,
    }
}

/// The first of the three members that is there.
pub open spec fn first_member(
    value: JsonView,
    a: Seq<char>,
    b: Seq<char>,
    c: Seq<char>,
) -> Option<JsonView> {
    match value.get(a) {
        Some(member) => Some(member),
        None => match value.get(b) {
            Some(member) => Some(member),
            None => value.get(c),
        },
    }
}

/// The entries of a list reply: those under `key`, `items` or `data`, else the reply itself.
pub open spec fn list_entries(value: JsonView, key: Seq<char>) -> Seq<JsonView> {
    let member = match first_member(value, key, "items"@, "data"@) {
        Some(member) => member.items(),
        None => None,
    };
    match member {
        Some(entries) => entries,
        None => match value.items() {
            Some(entries) => entries,
            None => Seq::empty(),
        },
    }
}

/// The summaries that the entries state.
pub open spec fn summaries_of(entries: Seq<JsonView>) -> Seq<SummaryView>
    decreases entries.len(),
{
    if entries.len() == 0 {
        Seq::empty()
    } else {
        let before = summaries_of(entries.drop_last());
        match thread_summary_of(entries.last()) {
            Some(summary) => before.push(summary),
            None => before,
        }
    }
}

/// The models that the entries state.
pub open spec fn models_of(entries: Seq<JsonView>) -> Seq<ModelView>
    decreases entries.len(),
{
    if entries.len() == 0 {
        Seq::empty()
    } else {
        let before = models_of(entries.drop_last());
        match model_info_of(entries.last()) {
            Some(model) => before.push(model),
            None => before,
        }
    }
}

/// `value`, or `other` where there is none.
pub open spec fn or_else<T>(value: Option<T>, other: Option<T>) -> Option<T> {
    match value {
        Some(value) => Some(value),
        None => other,
    }
}

/// A summary with its gaps filled from an earlier one; a title that only repeats the identifier
/// counts as a gap.
pub open spec fn completed_summary(summary: SummaryView, fallback: SummaryView) -> SummaryView {
    SummaryView {
        id: summary.id,
        title: if summary.title == summary.id && fallback.title != fallback.id {
            fallback.title
        } else {
            summary.title
        },
        cwd: or_else(summary.cwd, fallback.cwd),
        updated_at: or_else(summary.updated_at, fallback.updated_at),
        source_kind: or_else(summary.source_kind, fallback.source_kind),
    }
}

/// The summary of a thread of which nothing but the identifier is known.
pub open spec fn bare_summary(id: Seq<char>) -> SummaryView {
    SummaryView { id, title: id, cwd: None, updated_at: None, source_kind: None }
}

/// The thread that a reply states.
pub open spec fn thread_detail_of(
    value: JsonView,
    fallback: Option<SummaryView>,
    fallback_id: Seq<char>,
) -> DetailView {
    let nested = match value.get("thread"@) {
        Some(thread) => thread_summary_of(thread),
        None => None,
    };
    let parsed = match nested {
        Some(summary) => Some(summary),
        None => thread_summary_of(value),
    };
    DetailView {
        summary: match (parsed, fallback) {
            (Some(summary), Some(fallback)) => completed_summary(summary, fallback),
            (Some(summary), None) => summary,
            (None, Some(fallback)) => fallback,
            (None, None) => bare_summary(fallback_id),
        },
        items: items_of(value),
    }
}

/// The item that a notification states: a command item as its JSON text, else the text of the
/// notification. The role is the notification's method.
pub open spec fn notification_item(method: Option<Seq<char>>, params: JsonView) -> Option<
    ItemView,
> {
    let role = match method {
        Some(method) => method,
        None => "codex"@,
    };
    let is_command = match params.get("item"@) {
        Some(item) => match string_field_of(item, seq!["type"@, "kind"@]) {
            Some(kind) => contains_text(normalized_identifier(kind), "commandexecution"@),
            None => false,
        },
        None => false,
    };
    if is_command {
        Some(
            ItemView { role, text: compact_text(canonical(params.get("item"@)->0)) },
        )
    } else {
        match text_of(params) {
            Some(text) => Some(ItemView { role, text }),
            None => None,
        }
    }
}

/// The model of an optional item.
pub open spec fn opt_item_view(item: Option<CodexConversationItem>) -> Option<ItemView> {
    match item {
        Some(item) => Some(item@),
        None => None,
    }
}

/// The model of an optional summary.
pub open spec fn opt_summary_view(summary: Option<CodexThreadSummary>) -> Option<SummaryView> {
    match summary {
        Some(summary) => Some(summary@),
        None => None,
    }
}

/// The model of an optional server model.
pub open spec fn opt_model_view(model: Option<CodexModelInfo>) -> Option<ModelView> {
    match model {
        Some(model) => Some(model@),
        None => None,
    }
}

/// The text of a `content` field.
pub fn text_content_from_value(value: &JsonValue) -> (r: String)
    ensures
        r@ == content_text(value@),
    decreases value,
{
    broadcast use {JsonValue::lemma_array_view, JsonValue::lemma_object_view};

    match value {
        JsonValue::Array(values) => {
            let mut parts: Vec<String> = Vec::new();
            let mut i: usize = 0;
            let ghost all = json_views(values@);
            while i < values.len()
                invariant
                    i <= values@.len(),
                    *value == JsonValue::Array(*values),
                    all == json_views(values@),
                    views(parts@) == content_parts(all.take(i as int)),
                decreases values@.len() - i,
            {
                let ghost done = views(parts@);
                proof {
                    let more = all.take(i as int + 1);
                    assert(more.take(more.len() - 1) =~= all.take(i as int));
                    assert(more[more.len() - 1] == values@[i as int]@);
                    assert(decreases_to!(value => value->Array_0@[i as int]));
                }
                let text = text_content_from_value(&values[i]);
                if !blank(text.as_str()) {
                    parts.push(text);
                    assert(views(parts@) =~= done.push(text@));
                }
                i = i + 1;
            }
            assert(all.take(i as int) =~= all);
            joined(&parts, "\n")
        },
        JsonValue::Object(_) => match text_from_value(value) {
            Some(text) => text,
            None => String::new(),
        },
        JsonValue::Text(s) => s.clone(),
        _ => String::new(),
    }
}

/// Who an entry says speaks.
fn role_field(value: &JsonValue) -> (r: Option<String>)
    ensures
        opt_view(r) == string_field_of(value@, role_keys()),
{
    let keys: [&str; 3] = ["role", "type", "kind"];
    assert(key_views(keys@) =~= role_keys());
    string_field(value, &keys)
}

/// The item that an entry states by itself.
fn item_of_entry(value: &JsonValue) -> (r: Option<CodexConversationItem>)
    ensures
        opt_item_view(r) == own_item(value@),
{
    let role = role_field(value);
    let content = match value.get("content") {
        Some(content) => text_content_from_value(content),
        None => String::new(),
    };
    let content_blank = blank(content.as_str());
    match role {
        Some(role) => {
            if !content_blank {
                Some(CodexConversationItem { role, text: content })
            } else {
                match text_from_value(value) {
                    Some(text) => Some(CodexConversationItem { role, text }),
                    None => None,
                }
            }
        },
        None => match text_from_value(value) {
            Some(text) => Some(CodexConversationItem { role: "codex".to_owned(), text }),
            None => None,
        },
    }
}

/// Adds the items of a reply to `items`.
pub fn collect_items(value: &JsonValue, items: &mut Vec<CodexConversationItem>)
    ensures
        item_views(final(items)@) == item_views(old(items)@) + items_of(value@),
    decreases value,
{
    broadcast use {JsonValue::lemma_array_view, JsonValue::lemma_object_view};

    let ghost start = item_views(items@);
    match value {
        JsonValue::Array(values) => {
            let mut i: usize = 0;
            let ghost all = json_views(values@);
            assert(item_views(items@) =~= start + items_of_list(all.take(0)));
            while i < values.len()
                invariant
                    i <= values@.len(),
                    *value == JsonValue::Array(*values),
                    all == json_views(values@),
                    item_views(items@) == start + items_of_list(all.take(i as int)),
                decreases values@.len() - i,
            {
                proof {
                    let more = all.take(i as int + 1);
                    assert(more.take(more.len() - 1) =~= all.take(i as int));
                    assert(more[more.len() - 1] == values@[i as int]@);
                    assert(decreases_to!(value => value->Array_0@[i as int]));
                }
                collect_items(&values[i], items);
                assert(item_views(items@) =~= start + items_of_list(all.take(i as int + 1)));
                i = i + 1;
            }
            assert(all.take(i as int) =~= all);
        },
        JsonValue::Object(_) => {
            match item_of_entry(value) {
                Some(item) => {
                    items.push(item);
                    assert(item_views(items@) =~= start + seq![item@]);
                },
                None => {
                    let keys: [&str; 7] = [
                        "thread",
                        "turns",
                        "items",
                        "messages",
                        "events",
                        "entries",
                        "content",
                    ];
                    let mut i: usize = 0;
                    assert(item_views(items@) =~= start + nested_items(value@, 0));
                    while i < 7
                        invariant
                            i <= 7,
                            key_views(keys@) =~= nesting_keys(),
                            item_views(items@) == start + nested_items(value@, i as nat),
                        decreases 7 - i,
                    {
                        assert(nesting_keys()[i as int] == key_views(keys@)[i as int]);
                        if let Some(child) = value.get(keys[i]) {
                            collect_items(child, items);
                        }
                        assert(item_views(items@) =~= start + nested_items(value@, i as nat + 1));
                        i = i + 1;
                    }
                },
            }
        },
        _ => {
            assert(item_views(items@) =~= start + items_of(value@));
        },
    }
}

/// The items of a reply.
pub fn parse_conversation_items(value: &JsonValue) -> (r: Vec<CodexConversationItem>)
    ensures
        item_views(r@) == items_of(value@),
{
    let mut items: Vec<CodexConversationItem> = Vec::new();
    let ghost start = item_views(items@);
    collect_items(value, &mut items);
    assert(start + items_of(value@) =~= items_of(value@));
    items
}

/// A thread's summary as an entry states it.
pub fn parse_thread_summary(value: &JsonValue) -> (r: Option<CodexThreadSummary>)
    ensures
        opt_summary_view(r) == thread_summary_of(value@),
{
    let id_keys: [&str; 4] = ["id", "threadId", "thread_id", "conversationId"];
    let title_keys: [&str; 4] = ["title", "name", "summary", "preview"];
    let prompt_keys: [&str; 2] = ["initialPrompt", "initial_prompt"];
    let cwd_keys: [&str; 3] = ["cwd", "workingDirectory", "working_directory"];
    let time_keys: [&str; 3] = ["updatedAt", "updated_at", "lastUpdatedAt"];
    let kind_keys: [&str; 2] = ["sourceKind", "source_kind"];
    proof {
        assert(key_views(id_keys@) =~= seq!["id"@, "threadId"@, "thread_id"@, "conversationId"@]);
        assert(key_views(title_keys@) =~= seq!["title"@, "name"@, "summary"@, "preview"@]);
        assert(key_views(prompt_keys@) =~= seq!["initialPrompt"@, "initial_prompt"@]);
        assert(key_views(cwd_keys@) =~= seq!["cwd"@, "workingDirectory"@, "working_directory"@]);
        assert(key_views(time_keys@) =~= seq!["updatedAt"@, "updated_at"@, "lastUpdatedAt"@]);
        assert(key_views(kind_keys@) =~= seq!["sourceKind"@, "source_kind"@]);
    }
    let id = match string_field(value, &id_keys) {
        Some(id) => id,
        None => {
            return None;
        },
    };
    let title = match string_field(value, &title_keys) {
        Some(title) => title,
        None => match string_field(value, &prompt_keys) {
            Some(title) => title,
            None => id.clone(),
        },
    };
    Some(
        CodexThreadSummary {
            id,
            title,
            cwd: string_field(value, &cwd_keys),
            updated_at: string_field(value, &time_keys),
            source_kind: string_field(value, &kind_keys),
        },
    )
}

/// A model as an entry states it.
pub fn parse_model_info(value: &JsonValue) -> (r: Option<CodexModelInfo>)
    ensures
        opt_model_view(r) == model_info_of(value@),
{
    let id_keys: [&str; 4] = ["id", "model", "modelId", "model_id"];
    let name_keys: [&str; 4] = ["displayName", "display_name", "name", "label"];
    let default_keys: [&str; 3] = ["default", "isDefault", "is_default"];
    proof {
        assert(key_views(id_keys@) =~= seq!["id"@, "model"@, "modelId"@, "model_id"@]);
        assert(key_views(name_keys@) =~= seq!["displayName"@, "display_name"@, "name"@, "label"@]);
        assert(key_views(default_keys@) =~= seq!["default"@, "isDefault"@, "is_default"@]);
    }
    let id = match string_field(value, &id_keys) {
        Some(id) => id,
        None => {
            return None;
        },
    };
    let display_name = match string_field(value, &name_keys) {
        Some(name) => name,
        None => id.clone(),
    };
    Some(CodexModelInfo { id, display_name, is_default: bool_field(value, &default_keys) })
}

/// The entries of a list reply.
fn entries_of_list<'a>(value: &'a JsonValue, key: &str, none: &'a Vec<JsonValue>) -> (r: &'a Vec<
    JsonValue,
>)
    requires
        none@.len() == 0,
    ensures
        json_views(r@) == list_entries(value@, key@),
{
    assert(json_views(none@) =~= Seq::empty());
    let member = match value.get(key) {
        Some(member) => Some(member),
        None => match value.get("items") {
            Some(member) => Some(member),
            None => value.get("data"),
        },
    };
    if let Some(member) = member {
        if let Some(entries) = member.as_array() {
            return entries;
        }
    }
    match value.as_array() {
        Some(entries) => entries,
        None => none,
    }
}

/// The threads of a list reply.
pub fn parse_thread_list(result: &JsonValue) -> (r: Vec<CodexThreadSummary>)
    ensures
        summary_views(r@) == summaries_of(list_entries(result@, "threads"@)),
{
    let none: Vec<JsonValue> = Vec::new();
    let entries = entries_of_list(result, "threads", &none);
    let ghost all = json_views(entries@);
    let mut r: Vec<CodexThreadSummary> = Vec::new();
    let mut i: usize = 0;
    while i < entries.len()
        invariant
            i <= entries@.len(),
            all == json_views(entries@),
            summary_views(r@) == summaries_of(all.take(i as int)),
        decreases entries@.len() - i,
    {
        let ghost done = summary_views(r@);
        assert(all.take(i as int + 1).drop_last() =~= all.take(i as int));
        if let Some(summary) = parse_thread_summary(&entries[i]) {
            r.push(summary);
            assert(summary_views(r@) =~= done.push(summary@));
        }
        i = i + 1;
    }
    assert(all.take(i as int) =~= all);
    r
}

/// The models of a list reply.
pub fn parse_model_list(result: &JsonValue) -> (r: Vec<CodexModelInfo>)
    ensures
        model_views(r@) == models_of(list_entries(result@, "models"@)),
{
    let none: Vec<JsonValue> = Vec::new();
    let entries = entries_of_list(result, "models", &none);
    let ghost all = json_views(entries@);
    let mut r: Vec<CodexModelInfo> = Vec::new();
    let mut i: usize = 0;
    while i < entries.len()
        invariant
            i <= entries@.len(),
            all == json_views(entries@),
            model_views(r@) == models_of(all.take(i as int)),
        decreases entries@.len() - i,
    {
        let ghost done = model_views(r@);
        assert(all.take(i as int + 1).drop_last() =~= all.take(i as int));
        if let Some(model) = parse_model_info(&entries[i]) {
            r.push(model);
            assert(model_views(r@) =~= done.push(model@));
        }
        i = i + 1;
    }
    assert(all.take(i as int) =~= all);
    r
}

/// The thread that a reply states.
pub fn parse_thread_detail(
    result: &JsonValue,
    fallback_summary: Option<CodexThreadSummary>,
    fallback_id: &str,
) -> (r: CodexThreadDetail)
    ensures
        r@ == thread_detail_of(result@, opt_summary_view(fallback_summary), fallback_id@),
{
    let nested = match result.get("thread") {
        Some(thread) => parse_thread_summary(thread),
        None => None,
    };
    let parsed = match nested {
        Some(summary) => Some(summary),
        None => parse_thread_summary(result),
    };
    let summary = match parsed {
        Some(summary) => match fallback_summary {
            Some(fallback) => {
                let title = if same(summary.title.as_str(), summary.id.as_str()) && !same(
                    fallback.title.as_str(),
                    fallback.id.as_str(),
                ) {
                    fallback.title
                } else {
                    summary.title
                };
                CodexThreadSummary {
                    id: summary.id,
                    title,
                    cwd: if summary.cwd.is_some() {
                        summary.cwd
                    } else {
                        fallback.cwd
                    },
                    updated_at: if summary.updated_at.is_some() {
                        summary.updated_at
                    } else {
                        fallback.updated_at
                    },
                    source_kind: if summary.source_kind.is_some() {
                        summary.source_kind
                    } else {
                        fallback.source_kind
                    },
                }
            },
            None => summary,
        },
        None => match fallback_summary {
            Some(summary) => summary,
            None => CodexThreadSummary {
                id: fallback_id.to_owned(),
                title: fallback_id.to_owned(),
                cwd: None,
                updated_at: None,
                source_kind: None,
            },
        },
    };
    CodexThreadDetail { summary, items: parse_conversation_items(result) }
}

/// The item that a notification states.
pub fn parse_notification_item(method: Option<&str>, params: &JsonValue) -> (r: Option<
    CodexConversationItem,
>)
    ensures
        opt_item_view(r) == notification_item(opt_str_view(method), params@),
{
    let role = match method {
        Some(method) => method.to_owned(),
        None => "codex".to_owned(),
    };
    if let Some(item) = params.get("item") {
        let keys: [&str; 2] = ["type", "kind"];
        assert(key_views(keys@) =~= seq!["type"@, "kind"@]);
        if let Some(kind) = string_field(item, &keys) {
            if contains(normalize_identifier(kind.as_str()).as_str(), "commandexecution") {
                return Some(CodexConversationItem { role, text: item.compact() });
            }
        }
    }
    match text_from_value(params) {
        Some(text) => Some(CodexConversationItem { role, text }),
        None => None,
    }
}

} // verus!
