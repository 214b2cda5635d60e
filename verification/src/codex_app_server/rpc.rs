//! The messages that are sent to a Codex server.
use crate::codex_app_server::approval::{IdView, JsonRpcId};
use crate::json::{JsonValue, JsonView, canonical, compact_text, entry_views, whole_number};
use crate::text::concat2;
use vstd::prelude::*;

verus! {

/// The document of an identifier.
pub open spec fn id_document(id: IdView) -> JsonView {
    match id {
        IdView::Number(n) => JsonView::Number(whole_number(n)),
        IdView::Text(text) => JsonView::Text(text),
    }
}

/// A request.
pub open spec fn request_document(id: u64, method: Seq<char>, params: JsonView) -> JsonView {
    JsonView::Object(
        seq![
            ("id"@, id_document(IdView::Number(id))),
            ("method"@, JsonView::Text(method)),
            ("params"@, params),
        ],
    )
}

/// A message that asks for no reply.
pub open spec fn notification_document(method: Seq<char>, params: JsonView) -> JsonView {
    JsonView::Object(seq![("method"@, JsonView::Text(method)), ("params"@, params)])
}

/// The reply to a request of the server.
pub open spec fn reply_document(id: IdView, result: JsonView) -> JsonView {
    JsonView::Object(seq![("id"@, id_document(id)), ("result"@, result)])
}

/// The text of a request.
pub fn request_message(id: u64, method: &str, params: JsonValue) -> (r: String)
    ensures
        r@ == compact_text(canonical(request_document(id, method@, params@))),
{
    broadcast use JsonValue::lemma_object_view;

    let mut entries: Vec<(String, JsonValue)> = Vec::new();
    entries.push(("id".to_owned(), JsonValue::number(id)));
    entries.push(("method".to_owned(), JsonValue::Text(method.to_owned())));
    entries.push(("params".to_owned(), params));
    assert(entry_views(entries@) =~= request_document(id, method@, params@)->Object_0);
    JsonValue::Object(entries).compact()
}

/// The text of a message that asks for no reply.
pub fn notification_message(method: &str, params: JsonValue) -> (r: String)
    ensures
        r@ == compact_text(canonical(notification_document(method@, params@))),
{
    broadcast use JsonValue::lemma_object_view;

    let mut entries: Vec<(String, JsonValue)> = Vec::new();
    entries.push(("method".to_owned(), JsonValue::Text(method.to_owned())));
    entries.push(("params".to_owned(), params));
    assert(entry_views(entries@) =~= notification_document(method@, params@)->Object_0);
    JsonValue::Object(entries).compact()
}

/// The text of the reply to a request of the server.
pub fn reply_message(id: &JsonRpcId, result: JsonValue) -> (r: String)
    ensures
        r@ == compact_text(canonical(reply_document(id@, result@))),
{
    broadcast use JsonValue::lemma_object_view;

    let id_value = match id {
        JsonRpcId::Number(n) => JsonValue::number(*n),
        JsonRpcId::Text(text) => JsonValue::Text(text.clone()),
    };
    assert(id_value@ == id_document(id@));
    let mut entries: Vec<(String, JsonValue)> = Vec::new();
    entries.push(("id".to_owned(), id_value));
    entries.push(("result".to_owned(), result));
    assert(entry_views(entries@) =~= reply_document(id@, result@)->Object_0);
    JsonValue::Object(entries).compact()
}

/// What is said where the server hangs up before it replies.
pub fn closed_before_reply(method: &str) -> (r: String)
    ensures
        r@ == "Codex app-server closed the connection before responding to "@ + method@,
{
    concat2("Codex app-server closed the connection before responding to ", method)
}

/// What the answer to a question after the server's health says.
pub fn check_health_status(is_success: bool, status: &str) -> (r: Result<(), String>)
    ensures
        r is Ok <==> is_success,
        r matches Err(error) ==> error@ == "health request failed with HTTP "@ + status@,
{
    if is_success {
        Ok(())
    } else {
        Err(concat2("health request failed with HTTP ", status))
    }
}

} // verus!
