//! A record of the requests for approval that a Codex server makes.
use crate::json::{JsonValue, JsonView, canonical, compact_text, entry_views, json_parse};
use crate::text::{opt_str_view, opt_view, same, trim, trimmed};
use vstd::prelude::*;

verus! {

/// Where the record is kept: nowhere, in the usual place, or at the path that the setting names.
pub open spec fn capture_path(setting: Option<Seq<char>>) -> Option<Seq<char>> {
    match setting {
        None => None,
        Some(text) => {
            let value = trim(text);
            if value.len() == 0 || value == "0"@ || value == "false"@ || value == "FALSE"@ || value
                == "off"@ || value == "OFF"@ {
                None
            } else if value == "1"@ || value == "true"@ || value == "TRUE"@ || value == "on"@
                || value == "ON"@ {
                Some("/tmp/slipstream-codex-approval-requests.jsonl"@)
            } else {
                Some(value)
            }
        },
    }
}

/// Where the record is kept.
pub fn codex_approval_capture_path(setting: Option<&str>) -> (r: Option<String>)
    ensures
        opt_view(r) == capture_path(opt_str_view(setting)),
{
    match setting {
        None => None,
        Some(text) => {
            let value = trimmed(text);
            if value.unicode_len() == 0 || same(value, "0") || same(value, "false") || same(
                value,
                "FALSE",
            ) || same(value, "off") || same(value, "OFF") {
                None
            } else if same(value, "1") || same(value, "true") || same(value, "TRUE") || same(
                value,
                "on",
            ) || same(value, "ON") {
                Some("/tmp/slipstream-codex-approval-requests.jsonl".to_owned())
            } else {
                Some(value.to_owned())
            }
        },
    }
}

/// What is recorded of a message: the document that it holds, or the text itself.
pub open spec fn captured_message(raw: Seq<char>) -> JsonView {
    match json_parse(raw) {
        Ok(value) => value,
        Err(_) => JsonView::Text(raw),
    }
}

/// The entry for a message: when it came, and what it holds.
pub open spec fn captured_record(raw: Seq<char>, captured_at: Seq<char>) -> JsonView {
    JsonView::Object(
        seq![
            ("captured_at"@, JsonView::Text(captured_at)),
            ("message"@, captured_message(raw)),
        ],
    )
}

/// The line that is added to the record for a message.
pub fn approval_capture_record(raw_message: &str, captured_at: &str) -> (r: String)
    ensures
        r@ == compact_text(canonical(captured_record(raw_message@, captured_at@))),
{
    broadcast use JsonValue::lemma_object_view;

    let message = match JsonValue::parse(raw_message) {
        Ok(value) => value,
        Err(_) => JsonValue::Text(raw_message.to_owned()),
    };
    let mut entries: Vec<(String, JsonValue)> = Vec::new();
    entries.push(("captured_at".to_owned(), JsonValue::Text(captured_at.to_owned())));
    entries.push(("message".to_owned(), message));
    assert(entry_views(entries@) =~= captured_record(raw_message@, captured_at@)->Object_0);
    JsonValue::Object(entries).compact()
}

} // verus!
