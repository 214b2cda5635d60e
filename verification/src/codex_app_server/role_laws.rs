//! What holds of how the items of a Codex server are told apart, and of what is asked of the user.
use crate::codex_app_server::address::start_command;
use crate::codex_app_server::approval::{IdView, QuestionView};
use crate::codex_app_server::catalog::applies_polled;
use crate::codex_app_server::conversations::thread_start_hint;
use crate::codex_app_server::effect::StatusView;
use crate::codex_app_server::fields::{
    command_of, execve_command, normalized_identifier, scalar, string_field_of, word_parts,
};
use crate::codex_app_server::request::{
    ApprovalView, allowed_decisions, allowed_in_items, default_decisions, is_generic_reason,
    is_meaningful, missing_reason,
};
use crate::codex_app_server::transcript::{
    command_of_item, command_text_of, completed_command, is_command_role, is_completed_role,
    is_delta_role, is_output_role, is_shell_command, output_keys, output_of,
};
use crate::codex_app_server::turn::{id_of, incoming_members, rpc_error_of};
use crate::codex_app_server::types::{DetailView, ItemView, shows_detail};
use crate::codex_app_server::wire::{content_parts, content_text};
use crate::decode::present;
use crate::json::{JsonView, NumberView, json_parse, lookup};
use crate::members::{is_repeated, present_document};
use crate::path::PathStyle;
use crate::text::{
    contains_text, is_blank, join, lemma_trim_empty, lemma_trim_idempotent, lower, trim,
};
use vstd::prelude::*;

verus! {

/// A fragment, a completed item and a command are told by the role, without regard to case.
pub proof fn law_roles(role: Seq<char>, lead: Seq<char>)
    ensures
        lower(role) == "delta"@ ==> is_delta_role(role),
        lower(role) == lead + "/delta"@ ==> is_delta_role(role),
        is_delta_role(role) ==> lower(role) == "delta"@ || "/delta"@.is_suffix_of(lower(role))
            || "/agentmessage/delta"@.is_suffix_of(lower(role)),
        lower(role) == lead + "/completed"@ ==> is_completed_role(role),
        is_completed_role(role) ==> lower(role) == "item/completed"@ || "/completed"@.is_suffix_of(
            lower(role),
        ),
        contains_text(normalized_identifier(role), "commandexecution"@) ==> is_command_role(role),
        normalized_identifier(role) == "itemstarted"@ ==> is_command_role(role),
        is_output_role(role) ==> is_command_role(role),
{
    let a = lead + "/delta"@;
    assert(a.subrange(a.len() - "/delta"@.len(), a.len() as int) =~= "/delta"@);
    let b = lead + "/completed"@;
    assert(b.subrange(b.len() - "/completed"@.len(), b.len() as int) =~= "/completed"@);
}

/// An item names a command where its role is that of one and not that of output: the command that
/// its document states, else its text; for a role that does not speak of commands, only where that
/// is a command of a shell.
pub proof fn law_command_of_an_item(item: ItemView, command: Seq<char>)
    ensures
        is_output_role(item.role) ==> command_of_item(item) is None,
        !is_command_role(item.role) ==> command_of_item(item) is None,
        command_of_item(item) is Some ==> command_of_item(item) == command_text_of(item.text),
        !is_output_role(item.role) && contains_text(
            normalized_identifier(item.role),
            "commandexecution"@,
        ) ==> command_of_item(item) == command_text_of(item.text),
        !is_output_role(item.role) && is_command_role(item.role) && command_text_of(item.text)
            == Some(command) && is_shell_command(command) ==> command_of_item(item) == Some(
            command,
        ),
        command_of_item(item) == Some(command) && !contains_text(
            normalized_identifier(item.role),
            "commandexecution"@,
        ) ==> is_shell_command(command),
{
}

/// The command in a text is the one that its document states, else the text without the blanks
/// around it; there is none exactly in a blank text without such a document.
pub proof fn law_command_in_a_text(text: Seq<char>, value: JsonView, command: Seq<char>)
    ensures
        json_parse(text) == Ok::<JsonView, Seq<char>>(value) && command_of(value) == Some(command)
            ==> command_text_of(text) == Some(command),
        json_parse(text) is Err && !is_blank(text) ==> command_text_of(text) == Some(trim(text)),
        json_parse(text) is Err && is_blank(text) ==> command_text_of(text) is None,
        json_parse(text) == Ok::<JsonView, Seq<char>>(value) && command_of(value) is None
            && !is_blank(text) ==> command_text_of(text) == Some(trim(text)),
{
    lemma_trim_empty(text);
    lemma_trim_empty(trim(text));
    lemma_trim_idempotent(text);
}

/// A command of a shell is one that starts with a path of programs or one of the usual programs, or
/// that joins commands.
pub proof fn law_shell_command(rest: Seq<char>)
    ensures
        trim("git "@ + rest) == "git "@ + rest ==> is_shell_command("git "@ + rest),
        trim("cargo "@ + rest) == "cargo "@ + rest ==> is_shell_command("cargo "@ + rest),
        trim("/bin/"@ + rest) == "/bin/"@ + rest ==> is_shell_command("/bin/"@ + rest),
        contains_text(trim(rest), " && "@) ==> is_shell_command(rest),
        contains_text(trim(rest), " | "@) ==> is_shell_command(rest),
        contains_text(trim(rest), " -lc "@) ==> is_shell_command(rest),
        is_shell_command(rest) == is_shell_command(trim(rest)),
{
    lemma_trim_idempotent(rest);
    let a = "git "@ + rest;
    let b = "cargo "@ + rest;
    let c = "/bin/"@ + rest;
    assert(a.subrange(0, "git "@.len() as int) =~= "git "@);
    assert(b.subrange(0, "cargo "@.len() as int) =~= "cargo "@);
    assert(c.subrange(0, "/bin/"@.len() as int) =~= "/bin/"@);
}

/// The output in a document is the text of the document itself before those inside of it, and of
/// those that of the fragment, then that of the event, then that of the item.
pub proof fn law_output_of_a_document(value: JsonView, inner: JsonView, text: Seq<char>)
    ensures
        string_field_of(value, output_keys()) == Some(text) ==> output_of(value) == Some(text),
        string_field_of(value, output_keys()) is None && value.get("delta"@) == Some(inner)
            && output_of(inner) == Some(text) ==> output_of(value) == Some(text),
        string_field_of(value, output_keys()) is None && value.get("delta"@) is None && value.get(
            "event"@,
        ) == Some(inner) && output_of(inner) == Some(text) ==> output_of(value) == Some(text),
        string_field_of(value, output_keys()) is None && value.get("delta"@) is None && value.get(
            "event"@,
        ) is None && value.get("item"@) == Some(inner) ==> output_of(value) == output_of(inner),
        string_field_of(value, output_keys()) is None && value.get("delta"@) is None && value.get(
            "event"@,
        ) is None && value.get("item"@) is None ==> output_of(value) is None,
{
}

/// A completed item reports a command exactly where its document states one, with the output that
/// the document has.
pub proof fn law_completed_command(item: ItemView, value: JsonView, command: Seq<char>)
    requires
        json_parse(item.text) == Ok::<JsonView, Seq<char>>(value),
    ensures
        !is_completed_role(item.role) ==> completed_command(item) is None,
        is_completed_role(item.role) && command_of(value) == Some(command) ==> completed_command(
            item,
        ) == Some((command, output_of(value))),
        command_of(value) is None ==> completed_command(item) is None,
{
}

/// A plain value is a text that says something, or the numeral of a number.
pub proof fn law_plain_value(text: Seq<char>, n: NumberView, b: bool)
    ensures
        !is_blank(text) ==> scalar(Some(JsonView::Text(text))) == Some(text),
        is_blank(text) ==> scalar(Some(JsonView::Text(text))) is None,
        scalar(Some(JsonView::Number(n))) == Some(n.text),
        scalar(Some(JsonView::Bool(b))) is None,
        scalar(None) is None,
{
}

/// A program is written with its name and all of its words.
pub proof fn law_program_with_words(
    execve: JsonView,
    program: Seq<char>,
    items: Seq<JsonView>,
)
    requires
        string_field_of(execve, seq!["program"@]) == Some(program),
        execve.get_items("argv"@) == Some(items),
    ensures
        execve_command(execve) == join(seq![program] + word_parts(items), " "@),
{
}

/// The texts of a content are those of all its parts that say something, in order.
pub proof fn law_parts_of_a_content(values: Seq<JsonView>)
    ensures
        content_parts(values) == values.filter(
            |v: JsonView| !is_blank(content_text(v)),
        ).map_values(|v: JsonView| content_text(v)),
    decreases values.len(),
{
    reveal(Seq::filter);
    let keep = |v: JsonView| !is_blank(content_text(v));
    let make = |v: JsonView| content_text(v);
    if values.len() > 0 {
        let front = values.take(values.len() - 1);
        law_parts_of_a_content(front);
        assert(front =~= values.drop_last());
        assert(values.filter(keep).map_values(make) =~= content_parts(values));
    } else {
        assert(values.filter(keep).map_values(make) =~= Seq::empty());
    }
}

/// The decisions that are offered are those that are allowed, else the usual ones, unless the user
/// has options to choose from instead.
pub proof fn law_offered_decisions(approval: ApprovalView, i: int)
    ensures
        approval.available_decisions.len() > 0 ==> approval.effective_decisions()
            == approval.available_decisions,
        approval.available_decisions.len() == 0 && (forall|j: int|
            0 <= j < approval.questions.len() ==> (#[trigger] approval.questions[j]).options.len()
                == 0) ==> approval.effective_decisions() == default_decisions(approval.method),
        approval.available_decisions.len() == 0 && 0 <= i < approval.questions.len()
            && approval.questions[i].options.len() > 0 ==> approval.effective_decisions().len()
            == 0,
{
}

/// A reason that says something of its own is kept; else what is asked is told by what it is about.
pub proof fn law_reason(approval: ApprovalView)
    ensures
        !is_generic_reason(approval.reason) ==> approval.defaulted_reason() == approval.reason,
        is_generic_reason(approval.reason) && approval.command is Some
            ==> approval.defaulted_reason() == "Approve Codex to run this command?"@,
        is_generic_reason(approval.reason) && approval.command is None && contains_text(
            lower(approval.method),
            "filechange"@,
        ) ==> approval.defaulted_reason() == "Approve Codex to apply the requested file changes?"@,
        contains_text(approval.method, "commandExecution"@) ==> missing_reason(approval.method)
            == "Codex is requesting command approval."@,
        !contains_text(approval.method, "commandExecution"@) && contains_text(
            approval.method,
            "fileChange"@,
        ) ==> missing_reason(approval.method) == "Codex is requesting file change approval."@,
{
}

/// A question means something where it has options, or says more than that approval is asked.
pub proof fn law_meaningful_question(question: QuestionView)
    ensures
        question.options.len() > 0 ==> is_meaningful(question),
        question.options.len() == 0 && is_blank(question.question) ==> !is_meaningful(question),
        question.options.len() == 0 && is_generic_reason(question.question) ==> !is_meaningful(
            question,
        ),
        !is_blank(question.question) && !is_generic_reason(question.question) ==> is_meaningful(
            question,
        ),
{
}

/// Allowed decisions are gathered from all the items of a list, in order.
pub proof fn law_decisions_of_items(items: Seq<JsonView>, last: JsonView)
    ensures
        allowed_in_items(items.push(last)) == allowed_in_items(items) + allowed_decisions(last),
        allowed_in_items(Seq::empty()).len() == 0,
{
    assert(items.push(last).take(items.len() as int) =~= items);
}

/// A read that brings nothing leaves a thread that shows something as it is; any other is shown
/// where it says something new.
pub proof fn law_polled_thread(style: PathStyle, shown: DetailView, next: DetailView)
    ensures
        next.items.len() == 0 && shown.items.len() > 0 ==> !applies_polled(Some(shown), next),
        next.items.len() > 0 ==> applies_polled(Some(shown), next),
        applies_polled(None, next),
        shown.items != next.items ==> !shows_detail(style, Some(shown), next),
        !shows_detail(style, None, next),
{
}

/// A server that is not connected is told with the command that starts it, and any other is not.
pub proof fn law_start_hint(status: StatusView, server_url: Seq<char>)
    ensures
        thread_start_hint(status, server_url) is Some <==> status is Disconnected,
        status is Disconnected ==> thread_start_hint(status, server_url) == Some(
            "Start server: "@ + start_command(server_url),
        ),
{
}

/// A number or a text is the identifier of a message, and nothing else is.
pub proof fn law_identifier(n: NumberView, m: u64, text: Seq<char>, b: bool)
    ensures
        n.unsigned == Some(m) ==> id_of(JsonView::Number(n)) == Some(IdView::Number(m)),
        n.unsigned is None ==> id_of(JsonView::Number(n)) is None,
        id_of(JsonView::Text(text)) == Some(IdView::Text(text)),
        id_of(JsonView::Bool(b)) is None,
        id_of(JsonView::Null) is None,
{
}

/// A message is read exactly where its identifier, its method and its error are of their kinds, each
/// member into the part of its name.
pub proof fn law_read_message(value: JsonView)
    ensures
        incoming_members(value) is Some <==> (present(value, "id"@) matches Some(id) ==> id_of(id)
            is Some) && (present(value, "method"@) matches Some(method) ==> method is Text) && (
        present(value, "error"@) matches Some(error) ==> rpc_error_of(error) is Some),
        incoming_members(value) matches Some(message) ==> {
            &&& (present(value, "id"@) is None ==> message.id is None)
            &&& (present(value, "id"@) matches Some(id) ==> message.id == id_of(id))
            &&& (present(value, "method"@) is None ==> message.method is None)
            &&& (present(value, "method"@) matches Some(JsonView::Text(method)) ==> message.method
                == Some(method))
            &&& message.params == present_document(value, "params"@)
            &&& message.result == present_document(value, "result"@)
            &&& (present(value, "error"@) is None ==> message.error is None)
            &&& (present(value, "error"@) matches Some(error) ==> message.error == rpc_error_of(
                error,
            ))
        },
{
}

/// An error is read exactly where it states a whole number and a text, each once.
pub proof fn law_read_error(
    entries: Seq<(Seq<char>, JsonView)>,
    n: NumberView,
    code: i64,
    message: Seq<char>,
    i: int,
    j: int,
)
    ensures
        (forall|a: int, b: int|
            0 <= a < b < entries.len() ==> (#[trigger] entries[a]).0 != (#[trigger] entries[b]).0)
            && lookup(entries, "code"@) == Some(JsonView::Number(n)) && n.signed == Some(code)
            && lookup(entries, "message"@) == Some(JsonView::Text(message)) ==> rpc_error_of(
            JsonView::Object(entries),
        ) == Some((code, message)),
        lookup(entries, "code"@) is None || lookup(entries, "message"@) is None ==> rpc_error_of(
            JsonView::Object(entries),
        ) is None,
        0 <= i < j < entries.len() && entries[i].0 == entries[j].0 && (entries[i].0 == "code"@
            || entries[i].0 == "message"@) ==> rpc_error_of(JsonView::Object(entries)) is None,
{
    let names = seq!["code"@, "message"@];
    assert(names[0] == "code"@ && names[1] == "message"@);
    if 0 <= i < j < entries.len() && entries[i].0 == entries[j].0 {
        assert(is_repeated(entries, entries[i].0));
    }
}

} // verus!
