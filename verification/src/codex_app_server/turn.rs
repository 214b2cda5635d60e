//! The messages of a Codex app server during a request and during a turn.
use crate::codex_app_server::approval::{IdView, JsonRpcId};
use crate::codex_app_server::request::{
    ApprovalView, CodexPendingApproval, approval_of, opt_id_view, parse_approval_request,
};
use crate::codex_app_server::types::{CodexConversationItem, ItemView, item_views};
use crate::codex_app_server::wire::{
    collect_items, items_of, notification_item, parse_notification_item,
};
use crate::decode::{present, read_present};
use crate::json::{JsonValue, JsonView};
use crate::members::{
    members_parse, names_of, present_document, read_stated, settled_present, stated,
};
use crate::opencode_server::pending::Pending;
use crate::shape::{
    Shape, find_optional_part_fault, find_optional_text_fault, find_signed_fault, find_text_fault,
    has_shape, law_faults, member_fits, optional_part_fault, optional_text_fault, shape_error,
    shape_fault, shape_fault_of, signed_fault, text_fault,
};
use crate::text::{
    concat3, contains, contains_text, lower, lowered, opt_str_view, opt_view, same, signed_decimal,
    signed_decimal_of,
};
use vstd::prelude::*;

verus! {

/// The error that a reply states.
#[derive(Debug, PartialEq, Eq)]
pub struct JsonRpcError {
    pub code: i64,
    pub message: String,
}

/// A message of the server: a reply, a notification or a request.
#[derive(Debug, PartialEq)]
pub struct JsonRpcIncoming {
    pub id: Option<JsonRpcId>,
    pub method: Option<String>,
    pub params: Option<JsonValue>,
    pub result: Option<JsonValue>,
    pub error: Option<JsonRpcError>,
}

/// The model of a `JsonRpcIncoming`.
pub struct IncomingView {
    pub id: Option<IdView>,
    pub method: Option<Seq<char>>,
    pub params: Option<JsonView>,
    pub result: Option<JsonView>,
    pub error: Option<(i64, Seq<char>)>,
}

/// The model of an optional owned document.
pub open spec fn opt_value_view(value: Option<JsonValue>) -> Option<JsonView> {
    match value {
        Some(value) => Some(value@),
        None => None,
    }
}

impl JsonRpcIncoming {
    pub open spec fn view(&self) -> IncomingView {
        IncomingView {
            id: opt_id_view(self.id),
            method: opt_view(self.method),
            params: opt_value_view(self.params),
            result: opt_value_view(self.result),
            error: match self.error {
                Some(error) => Some((error.code, error.message@)),
                None => None,
            },
        }
    }
}

/// The identifier that a document states: a number or a text.
pub open spec fn id_of(value: JsonView) -> Option<IdView> {
    match value {
        JsonView::Number(n) => match n.unsigned {
            Some(n) => Some(IdView::Number(n)),
            None => None,
        },
        JsonView::Text(s) => Some(IdView::Text(s)),
        _ => None,
    }
}

/// The error that a document states: a code and a message.
pub open spec fn rpc_error_of(value: JsonView) -> Option<(i64, Seq<char>)> {
    match stated(value, seq!["code"@, "message"@], 2) {
        Some(value) => match (value.get("code"@), value.get("message"@)) {
            (Some(JsonView::Number(n)), Some(JsonView::Text(message))) => match n.signed {
                Some(code) => Some((code, message)),
                None => None,
            },
            _ => None,
        },
        None => None,
    }
}

/// The message that a document states. A member of the wrong kind spoils the message.
pub open spec fn incoming_of(value: JsonView) -> Option<IncomingView> {
    match stated(value, seq!["id"@, "method"@, "params"@, "result"@, "error"@], 5) {
        Some(value) => incoming_members(value),
        None => None,
    }
}

/// The same, of an object that states no member twice.
pub open spec fn incoming_members(value: JsonView) -> Option<IncomingView> {
    let id = present(value, "id"@);
    let method = present(value, "method"@);
    let error = present(value, "error"@);
    if (id is Some && id_of(id->0) is None) || (method is Some && !(method->0 is Text)) || (error
        is Some && rpc_error_of(error->0) is None) {
        None
    } else {
        Some(
            IncomingView {
                id: match id {
                    Some(id) => id_of(id),
                    None => None,
                },
                method: match method {
                    Some(method) => method.text(),
                    None => None,
                },
                params: present_document(value, "params"@),
                result: present_document(value, "result"@),
                error: match error {
                    Some(error) => rpc_error_of(error),
                    None => None,
                },
            },
        )
    }
}

/// The message that a text states, or what is wrong with the text.
pub open spec fn incoming_text(text: Seq<char>) -> Result<IncomingView, Seq<char>> {
    match members_parse(text) {
        Ok(value) => match incoming_of(value) {
            Some(message) => Ok(message),
            None => Err(shape_error::<IncomingShape>(value)),
        },
        Err(error) => Err(error),
    }
}

/// The model of an attempt to read a message.
pub open spec fn incoming_result(r: Result<JsonRpcIncoming, String>) -> Result<
    IncomingView,
    Seq<char>,
> {
    match r {
        Ok(message) => Ok(message@),
        Err(error) => Err(error@),
    }
}

/// The model of an optional message.
pub open spec fn opt_incoming_view(message: Option<JsonRpcIncoming>) -> Option<IncomingView> {
    match message {
        Some(message) => Some(message@),
        None => None,
    }
}

/// The identifier that a document states.
fn parse_id(value: &JsonValue) -> (r: Option<JsonRpcId>)
    ensures
        opt_id_view(r) == id_of(value@),
{
    match value {
        JsonValue::Text(s) => Some(JsonRpcId::Text(s.clone())),
        other => match other.as_number() {
            Some(parts) => match parts.unsigned {
                Some(n) => Some(JsonRpcId::Number(n)),
                None => None,
            },
            None => None,
        },
    }
}

/// The error that a document states.
fn parse_rpc_error(value: &JsonValue) -> (r: Option<JsonRpcError>)
    ensures
        match r {
            Some(error) => rpc_error_of(value@) == Some((error.code, error.message@)),
            None => rpc_error_of(value@) is None,
        },
{
    assert(names_of(["code", "message"]@) =~= seq!["code"@, "message"@]);
    let value = match read_stated(value, &["code", "message"], 2) {
        Some(value) => value,
        None => {
            return None;
        },
    };
    let code = match value.get("code") {
        Some(code) => match code.as_number() {
            Some(parts) => parts.signed,
            None => {
                return None;
            },
        },
        None => {
            return None;
        },
    };
    match (code, value.get("message")) {
        (Some(code), Some(JsonValue::Text(message))) => Some(
            JsonRpcError { code, message: message.clone() },
        ),
        _ => None,
    }
}

/// What is wrong with a member that has to be an identifier or null.
pub open spec fn id_fault(name: Seq<char>, member: JsonView) -> Option<Seq<char>> {
    if member is Null || id_of(member) is Some {
        None
    } else {
        Some(
            "data did not match any variant of untagged enum JsonRpcId in field `"@ + name + "`"@,
        )
    }
}

/// What is wrong with a member that has to be an identifier or null.
fn find_id_fault(name: &str, member: &JsonValue) -> (r: Option<String>)
    ensures
        opt_view(r) == id_fault(name@, member@),
{
    if let JsonValue::Null = member {
        return None;
    }
    match parse_id(member) {
        Some(_) => None,
        None => Some(
            concat3(
                "data did not match any variant of untagged enum JsonRpcId in field `",
                name,
                "`",
            ),
        ),
    }
}

/// The error in a message.
pub struct RpcErrorShape;

impl Shape for RpcErrorShape {
    open spec fn title() -> Seq<char> {
        "struct JsonRpcError"@
    }

    open spec fn names() -> Seq<Seq<char>> {
        seq!["code"@, "message"@]
    }

    open spec fn needed() -> nat {
        2
    }

    open spec fn may_lack(name: Seq<char>) -> bool {
        false
    }

    open spec fn fault(name: Seq<char>, member: JsonView) -> Option<Seq<char>> {
        if name == "code"@ {
            signed_fault(name, member)
        } else {
            text_fault(name, member)
        }
    }

    proof fn names_are_sound() {
        reveal_strlit("code");
        reveal_strlit("message");
        assert("code"@.len() != "message"@.len());
    }

    fn expected() -> (r: &'static str) {
        "struct JsonRpcError"
    }

    fn member_names() -> (r: Vec<&'static str>) {
        let r: Vec<&'static str> = vec!["code", "message"];
        assert(names_of(r@) =~= Self::names());
        r
    }

    fn needed_count() -> (r: usize) {
        2
    }

    fn can_lack(_name: &str) -> (r: bool) {
        false
    }

    fn find_fault(name: &str, member: &JsonValue) -> (r: Option<String>) {
        if same(name, "code") {
            find_signed_fault(name, member)
        } else {
            find_text_fault(name, member)
        }
    }
}

proof fn lemma_message_names()
    ensures
        seq!["id"@, "method"@, "params"@, "result"@, "error"@].no_duplicates(),
        "id"@ != "method"@,
        "id"@ != "error"@,
        "method"@ != "error"@,
        "params"@ != "id"@,
        "params"@ != "method"@,
        "params"@ != "error"@,
        "result"@ != "id"@,
        "result"@ != "method"@,
        "result"@ != "error"@,
{
    reveal_strlit("id");
    reveal_strlit("method");
    reveal_strlit("params");
    reveal_strlit("result");
    reveal_strlit("error");
    assert("id"@.len() == 2 && "error"@.len() == 5);
    assert("method"@.len() == 6 && "params"@.len() == 6 && "result"@.len() == 6);
    assert("method"@[0] == 'm' && "params"@[0] == 'p' && "result"@[0] == 'r');
}

/// A message of the server.
pub struct IncomingShape;

impl Shape for IncomingShape {
    open spec fn title() -> Seq<char> {
        "struct JsonRpcIncoming"@
    }

    open spec fn names() -> Seq<Seq<char>> {
        seq!["id"@, "method"@, "params"@, "result"@, "error"@]
    }

    open spec fn needed() -> nat {
        5
    }

    open spec fn may_lack(name: Seq<char>) -> bool {
        true
    }

    open spec fn fault(name: Seq<char>, member: JsonView) -> Option<Seq<char>> {
        if name == "id"@ {
            id_fault(name, member)
        } else if name == "method"@ {
            optional_text_fault(name, member)
        } else if name == "error"@ {
            optional_part_fault::<RpcErrorShape>(member)
        } else {
            None
        }
    }

    proof fn names_are_sound() {
        lemma_message_names();
    }

    fn expected() -> (r: &'static str) {
        "struct JsonRpcIncoming"
    }

    fn member_names() -> (r: Vec<&'static str>) {
        let r: Vec<&'static str> = vec!["id", "method", "params", "result", "error"];
        assert(names_of(r@) =~= Self::names());
        r
    }

    fn needed_count() -> (r: usize) {
        5
    }

    fn can_lack(_name: &str) -> (r: bool) {
        true
    }

    fn find_fault(name: &str, member: &JsonValue) -> (r: Option<String>) {
        if same(name, "id") {
            find_id_fault(name, member)
        } else if same(name, "method") {
            find_optional_text_fault(name, member)
        } else if same(name, "error") {
            find_optional_part_fault::<RpcErrorShape>(member)
        } else {
            None
        }
    }
}

/// The error of a message cannot be read exactly where it has not the shape of one.
proof fn lemma_error_shape(value: JsonView)
    ensures
        rpc_error_of(value) is None <==> shape_fault::<RpcErrorShape>(value) is Some,
{
    let names = RpcErrorShape::names();
    reveal_strlit("code");
    reveal_strlit("message");
    assert("code"@.len() != "message"@.len());
    assert(names[0] == "code"@ && names[1] == "message"@);
    law_faults::<RpcErrorShape>(value);
    if let Some(object) = stated(value, names, 2) {
        if rpc_error_of(value) is Some {
            assert forall|k: int| 0 <= k < names.len() implies member_fits::<RpcErrorShape>(
                object,
                #[trigger] names[k],
            ) by {
                assert(k == 0 || k == 1);
            }
        }
    }
}

/// A document states no message exactly where it has not the shape of one.
pub proof fn law_message_shape(value: JsonView)
    ensures
        incoming_of(value) is None <==> !has_shape::<IncomingShape>(value),
{
    let names = IncomingShape::names();
    lemma_message_names();
    assert(names[0] == "id"@ && names[1] == "method"@ && names[2] == "params"@ && names[3]
        == "result"@ && names[4] == "error"@);
    if let Some(object) = stated(value, names, 5) {
        if let Some(error) = present(object, "error"@) {
            lemma_error_shape(error);
        }
        if incoming_of(value) is Some {
            assert forall|k: int| 0 <= k < names.len() implies member_fits::<IncomingShape>(
                object,
                #[trigger] names[k],
            ) by {
                assert(k == 0 || k == 1 || k == 2 || k == 3 || k == 4);
            }
        }
    }
}

/// The message that a text states, or what is wrong with the text.
pub fn parse_incoming(text: &str) -> (r: Result<JsonRpcIncoming, String>)
    ensures
        incoming_result(r) == incoming_text(text@),
{
    match JsonValue::parse_members(text) {
        Ok(value) => match read_incoming(&value) {
            Some(message) => Ok(message),
            None => {
                proof {
                    law_message_shape(value@);
                }
                Err(shape_fault_of::<IncomingShape>(&value))
            },
        },
        Err(error) => Err(error),
    }
}

/// The message that a document states.
fn read_incoming(value: &JsonValue) -> (r: Option<JsonRpcIncoming>)
    ensures
        opt_incoming_view(r) == incoming_of(value@),
{
    broadcast use JsonValue::lemma_object_view;

    assert(names_of(["id", "method", "params", "result", "error"]@) =~= seq![
        "id"@,
        "method"@,
        "params"@,
        "result"@,
        "error"@,
    ]);
    let value = match read_stated(value, &["id", "method", "params", "result", "error"], 5) {
        Some(value) => value,
        None => {
            return None;
        },
    };
    let id = match read_present(&value, "id") {
        Some(member) => match parse_id(member) {
            Some(id) => Some(id),
            None => {
                return None;
            },
        },
        None => None,
    };
    let method = match read_present(&value, "method") {
        Some(JsonValue::Text(method)) => Some(method.clone()),
        Some(_) => {
            return None;
        },
        None => None,
    };
    let error = match read_present(&value, "error") {
        Some(member) => match parse_rpc_error(member) {
            Some(error) => Some(error),
            None => {
                return None;
            },
        },
        None => None,
    };
    Some(
        JsonRpcIncoming {
            id,
            method,
            params: settled_present(&value, "params"),
            result: settled_present(&value, "result"),
            error,
        },
    )
}

/// What a message means to a request that waits for its reply.
pub enum ReplyStep {
    /// The message is for someone else.
    Wait,
    /// The reply, or what is said of the request's failure.
    Done(Result<JsonValue, String>),
}

/// The model of a `ReplyStep`.
pub enum ReplyView {
    Wait,
    Done(Result<JsonView, Seq<char>>),
}

impl ReplyStep {
    pub open spec fn view(&self) -> ReplyView {
        match self {
            ReplyStep::Wait => ReplyView::Wait,
            ReplyStep::Done(Ok(value)) => ReplyView::Done(Ok(value@)),
            ReplyStep::Done(Err(message)) => ReplyView::Done(Err(message@)),
        }
    }
}

/// What is said of a request that the server refused.
pub open spec fn refusal(method: Seq<char>, code: i64, message: Seq<char>) -> Seq<char> {
    "Codex app-server "@ + method + " failed ("@ + signed_decimal(code as int) + "): "@ + message
}

/// What a message means to a request that waits for its reply.
pub open spec fn reply_step(text: Seq<char>, id: u64, method: Seq<char>) -> ReplyView {
    match incoming_text(text) {
        Err(error) => ReplyView::Done(
            Err("invalid JSON-RPC message: "@ + text + ": "@ + error),
        ),
        Ok(message) => if message.id != Some(IdView::Number(id)) {
            ReplyView::Wait
        } else {
            match message.error {
                Some((code, reason)) => ReplyView::Done(Err(refusal(method, code, reason))),
                None => match message.result {
                    Some(result) => ReplyView::Done(Ok(result)),
                    None => ReplyView::Done(Ok(JsonView::Null)),
                },
            }
        },
    }
}

/// What a message means to the request with the given number that waits for its reply.
pub fn wait_for_response_step(text: &str, id: u64, method: &str) -> (r: ReplyStep)
    ensures
        r@ == reply_step(text@, id, method@),
{
    let message = match parse_incoming(text) {
        Ok(message) => message,
        Err(error) => {
            let mut r = concat3("invalid JSON-RPC message: ", text, ": ");
            r.append(error.as_str());
            return ReplyStep::Done(Err(r));
        },
    };
    let ours = match &message.id {
        Some(JsonRpcId::Number(n)) => *n == id,
        _ => false,
    };
    if !ours {
        return ReplyStep::Wait;
    }
    match message.error {
        Some(error) => {
            let mut r = concat3("Codex app-server ", method, " failed (");
            r.append(signed_decimal_of(error.code).as_str());
            r.append("): ");
            r.append(error.message.as_str());
            ReplyStep::Done(Err(r))
        },
        None => match message.result {
            Some(result) => ReplyStep::Done(Ok(result)),
            None => ReplyStep::Done(Ok(JsonValue::Null)),
        },
    }
}

/// The method ends a turn.
pub open spec fn ends_turn(method: Option<Seq<char>>) -> bool {
    method == Some("turn/completed"@) || method == Some("turn/finished"@)
}

/// The item ends a turn: it comes with a method that does, or says that the turn is complete.
pub open spec fn item_ends_turn(method: Option<Seq<char>>, item: ItemView) -> bool {
    ends_turn(method) || (item.role == "status"@ && contains_text(
        lower(item.text),
        "turn complete"@,
    ))
}

/// The method ends a turn.
pub fn is_terminal_method(method: Option<&str>) -> (r: bool)
    ensures
        r == ends_turn(opt_str_view(method)),
{
    match method {
        Some(method) => same(method, "turn/completed") || same(method, "turn/finished"),
        None => false,
    }
}

/// The item ends a turn.
pub fn is_terminal_notification(method: Option<&str>, item: &CodexConversationItem) -> (r: bool)
    ensures
        r == item_ends_turn(opt_str_view(method), item@),
{
    is_terminal_method(method) || (same(item.role.as_str(), "status") && contains(
        lowered(item.text.as_str()).as_str(),
        "turn complete",
    ))
}

/// What a message means to a turn.
pub enum TurnStep {
    /// The turn goes on.
    Continue,
    /// The turn waits for the user.
    Pending(CodexPendingApproval),
    /// The turn is over.
    Finished,
}

/// The model of a `TurnStep`.
pub enum TurnStepView {
    Continue,
    Pending(ApprovalView),
    Finished,
}

impl TurnStep {
    pub open spec fn view(&self) -> TurnStepView {
        match self {
            TurnStep::Continue => TurnStepView::Continue,
            TurnStep::Pending(approval) => TurnStepView::Pending(approval@),
            TurnStep::Finished => TurnStepView::Finished,
        }
    }
}

/// What a message adds to a turn, and what it means to it. A message that cannot be read adds
/// nothing.
pub open spec fn turn_step(text: Seq<char>) -> (Seq<ItemView>, TurnStepView) {
    match incoming_text(text) {
        Err(_) => (Seq::empty(), TurnStepView::Continue),
        Ok(message) => match approval_of(message.method, message.id, message.params) {
            Some(approval) => (Seq::empty(), TurnStepView::Pending(approval)),
            None => match message.params {
                Some(params) => if ends_turn(message.method) {
                    (items_of(params), TurnStepView::Finished)
                } else {
                    match notification_item(message.method, params) {
                        Some(item) => (
                            seq![item],
                            if item_ends_turn(message.method, item) {
                                TurnStepView::Finished
                            } else {
                                TurnStepView::Continue
                            },
                        ),
                        None => (Seq::empty(), TurnStepView::Continue),
                    }
                },
                None => (
                    Seq::empty(),
                    if ends_turn(message.method) {
                        TurnStepView::Finished
                    } else {
                        TurnStepView::Continue
                    },
                ),
            },
        },
    }
}

/// The text of an optional string, borrowed.
pub fn as_deref(text: &Option<String>) -> (r: Option<&str>)
    ensures
        opt_str_view(r) == opt_view(*text),
{
    match text {
        Some(text) => Some(text.as_str()),
        None => None,
    }
}

/// Adds what a message says to the items of a turn, and says what it means to the turn.
pub fn collect_turn_message(items: &mut Vec<CodexConversationItem>, text: &str) -> (r: TurnStep)
    ensures
        item_views(final(items)@) == item_views(old(items)@) + turn_step(text@).0,
        r@ == turn_step(text@).1,
{
    let ghost start = item_views(items@);
    assert(start + Seq::<ItemView>::empty() =~= start);
    let message = match parse_incoming(text) {
        Ok(message) => message,
        Err(_) => {
            return TurnStep::Continue;
        },
    };
    let method = as_deref(&message.method);
    let terminal = is_terminal_method(method);
    let params: Option<&JsonValue> = match &message.params {
        Some(params) => Some(params),
        None => None,
    };
    if let Some(approval) = parse_approval_request(method, message.id, params) {
        return TurnStep::Pending(approval);
    }
    match params {
        Some(params) => {
            if terminal {
                collect_items(params, items);
                return TurnStep::Finished;
            }
            match parse_notification_item(method, params) {
                Some(item) => {
                    let last = is_terminal_notification(method, &item);
                    items.push(item);
                    assert(item_views(items@) =~= start + seq![item@]);
                    if last {
                        TurnStep::Finished
                    } else {
                        TurnStep::Continue
                    }
                },
                None => TurnStep::Continue,
            }
        },
        None => {
            if terminal {
                TurnStep::Finished
            } else {
                TurnStep::Continue
            }
        },
    }
}

} // verus!
