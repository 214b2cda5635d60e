//! The messages of an OpenCode session as texts.
use crate::json::{
    JsonValue, JsonView, canonical, compact_text, entry_views, json_views, pretty_text, quoted,
};
use crate::modeled::{contents, opt_content};
use crate::opencode_server::forms::{MessageForm, law_message_form};
use crate::opencode_server::types::{MessageView, OpenCodeConversationItem};
use crate::opencode_server::wire::{
    MessageWireView, OpenCodeMessageWire, message_of, opt_document, say_unreadable_answer,
    unreadable_answer,
};
use crate::shape::{
    find_listing_fault, has_shape, lemma_parts_fault, listing_fault, parts_fault, say_wrong_kind,
    wrong_kind,
};
use crate::text::{
    blank, concat2, concat3, contains, contains_text, is_blank, join, joined, lower, lowered,
    opt_str_view, opt_view, same, views,
};
use crate::text_map::pair_views;
use vstd::prelude::*;

verus! {

/// A document as text: a string as it is, anything else as indented JSON.
pub open spec fn readable(value: JsonView) -> Seq<char> {
    match value {
        JsonView::Text(s) => s,
        _ => pretty_text(canonical(value)),
    }
}

/// A document as text.
pub fn readable_json(value: &JsonValue) -> (r: String)
    ensures
        r@ == readable(value@),
{
    match value.as_str() {
        Some(s) => s.to_owned(),
        None => value.pretty(),
    }
}

/// What an error says: the text that it is, else its `message`, else its `error`, else all of it.
pub open spec fn error_of(value: JsonView) -> Option<Seq<char>> {
    match value {
        JsonView::Null => None,
        _ => match value.text() {
            Some(s) => Some(s),
            None => match value.get_text("message"@) {
                Some(s) => Some(s),
                None => match value.get_text("error"@) {
                    Some(s) => Some(s),
                    None => Some(readable(value)),
                },
            },
        },
    }
}

/// What an error says.
pub fn error_text(value: &JsonValue) -> (r: Option<String>)
    ensures
        opt_view(r) == error_of(value@),
{
    broadcast use {JsonValue::lemma_object_view, JsonValue::lemma_array_view};

    if let JsonValue::Null = value {
        return None;
    }
    if let Some(s) = value.as_str() {
        return Some(s.to_owned());
    }
    if let Some(s) = value.get_str("message") {
        return Some(s.to_owned());
    }
    if let Some(s) = value.get_str("error") {
        return Some(s.to_owned());
    }
    Some(readable_json(value))
}

/// The name of a session's status: the text that it is, else its `status`, else its `state`, else
/// its error, else that it runs.
pub open spec fn status_label(value: JsonView) -> Option<Seq<char>> {
    match value.text() {
        Some(s) => Some(s),
        None => match value.get_text("status"@) {
            Some(s) => Some(s),
            None => match value.get_text("state"@) {
                Some(s) => Some(s),
                None => match error_label(value) {
                    Some(s) => Some(s),
                    None => if value.get("running"@) == Some(JsonView::Bool(true)) {
                        Some("running"@)
                    } else {
                        None
                    },
                },
            },
        },
    }
}

/// The name of a status that is an error.
pub open spec fn error_label(value: JsonView) -> Option<Seq<char>> {
    match value.get("error"@) {
        Some(error) => match error_of(error) {
            Some(error) => Some("error: "@ + error),
            None => None,
        },
        None => None,
    }
}

/// The name of a session's status.
pub fn status_label_from_value(value: &JsonValue) -> (r: Option<String>)
    ensures
        opt_view(r) == status_label(value@),
{
    if let Some(s) = value.as_str() {
        return Some(s.to_owned());
    }
    if let Some(s) = value.get_str("status") {
        return Some(s.to_owned());
    }
    if let Some(s) = value.get_str("state") {
        return Some(s.to_owned());
    }
    if let Some(error) = value.get("error") {
        if let Some(error) = error_text(error) {
            return Some(concat2("error: ", error.as_str()));
        }
    }
    match value.get("running") {
        Some(JsonValue::Bool(running)) => {
            if *running {
                Some("running".to_owned())
            } else {
                None
            }
        },
        _ => None,
    }
}

/// The statuses of the sessions that have one.
pub open spec fn statuses_of(entries: Seq<(Seq<char>, JsonView)>) -> Seq<(Seq<char>, Seq<char>)>
    decreases entries.len(),
{
    if entries.len() == 0 {
        Seq::empty()
    } else {
        let before = statuses_of(entries.drop_last());
        match status_label(entries.last().1) {
            Some(status) => before.push((entries.last().0, status)),
            None => before,
        }
    }
}

/// The statuses that a document lists, by session; `None` where it is not an object. Of the statuses
/// of one session the last counts.
pub fn session_statuses(value: &JsonValue) -> (r: Option<Vec<(String, String)>>)
    ensures
        match (r, canonical(value@)) {
            (Some(statuses), JsonView::Object(entries)) => pair_views(statuses@) == statuses_of(
                entries,
            ),
            (None, JsonView::Object(_)) => false,
            (Some(_), _) => false,
            (None, _) => true,
        },
{
    broadcast use {JsonValue::lemma_object_view, JsonValue::lemma_array_view};

    let value = value.settled();
    match &value {
        JsonValue::Object(entries) => {
            let ghost all = entry_views(entries@);
            let mut r: Vec<(String, String)> = Vec::new();
            let mut i: usize = 0;
            assert(pair_views(r@) =~= statuses_of(all.take(0)));
            while i < entries.len()
                invariant
                    i <= entries@.len(),
                    all == entry_views(entries@),
                    pair_views(r@) == statuses_of(all.take(i as int)),
                decreases entries@.len() - i,
            {
                let ghost done = pair_views(r@);
                proof {
                    assert(all.take(i as int + 1).drop_last() =~= all.take(i as int));
                    assert(all.take(i as int + 1).last() == all[i as int]);
                }
                if let Some(status) = status_label_from_value(&entries[i].1) {
                    r.push((entries[i].0.clone(), status));
                    assert(pair_views(r@) =~= done.push((all[i as int].0, status@)));
                }
                i = i + 1;
            }
            assert(all.take(i as int) =~= all);
            Some(r)
        },
        _ => None,
    }
}

/// The command of a finished `bash` tool: the one that it ran, else its title.
pub open spec fn shell_command(state: JsonView) -> Option<Seq<char>> {
    let ran = match state.get("input"@) {
        Some(input) => input.get_text("command"@),
        None => None,
    };
    match ran {
        Some(command) => if is_blank(command) {
            titled_command(state)
        } else {
            Some(command)
        },
        None => titled_command(state),
    }
}

/// The title of a tool as its command, where it is not blank.
pub open spec fn titled_command(state: JsonView) -> Option<Seq<char>> {
    match state.get_text("title"@) {
        Some(title) => if is_blank(title) {
            None
        } else {
            Some(title)
        },
        None => None,
    }
}

/// The output of a tool, where it is not blank.
pub open spec fn tool_output(state: JsonView) -> Option<Seq<char>> {
    match state.get("output"@) {
        Some(output) => if is_blank(readable(output)) {
            None
        } else {
            Some(readable(output))
        },
        None => None,
    }
}

/// The text of a command, with its output as a JSON string.
pub open spec fn command_text(command: Seq<char>, output: Option<Seq<char>>) -> Seq<char> {
    match output {
        Some(output) => "commandExecution: "@ + command + "\n\ncommandExecution/output: "@
            + compact_text(JsonView::Text(output)),
        None => "commandExecution: "@ + command,
    }
}

/// The text of a tool that is done.
pub open spec fn done_tool_text(
    tool: Seq<char>,
    title: Option<Seq<char>>,
    output: Option<Seq<char>>,
) -> Seq<char> {
    match (title, output) {
        (Some(title), Some(output)) => "Tool "@ + tool + ": "@ + title + "\n"@ + output,
        (Some(title), None) => "Tool "@ + tool + ": "@ + title,
        (None, Some(output)) => "Tool "@ + tool + " output:\n"@ + output,
        (None, None) => "Tool "@ + tool + " completed."@,
    }
}

/// The status of a tool.
pub open spec fn tool_status(state: JsonView) -> Option<Seq<char>> {
    match state.get_text("status"@) {
        Some(status) => Some(status),
        None => state.get_text("type"@),
    }
}

/// The text of a tool in a state.
pub open spec fn tool_state_text(tool: Seq<char>, state: JsonView) -> Seq<char> {
    match tool_status(state) {
        Some(status) => if status == "completed"@ {
            if tool == "bash"@ && shell_command(state) is Some {
                command_text(shell_command(state)->0, tool_output(state))
            } else {
                done_tool_text(tool, state.get_text("title"@), tool_output(state))
            }
        } else if status == "error"@ {
            "Tool "@ + tool + " error: "@ + tool_error(state)
        } else {
            "Tool "@ + tool + ": "@ + status
        },
        None => "Tool "@ + tool + ": "@ + readable(state),
    }
}

/// What is said of a tool that failed.
pub open spec fn tool_error(state: JsonView) -> Seq<char> {
    match state.get("error"@) {
        Some(error) => match error_of(error) {
            Some(error) => error,
            None => readable(state),
        },
        None => readable(state),
    }
}

/// The text of a part that tells of a tool.
pub open spec fn tool_text(part: JsonView) -> Option<Seq<char>> {
    match part.get("state"@) {
        Some(state) => Some(
            tool_state_text(
                match part.get_text("tool"@) {
                    Some(tool) => tool,
                    None => "tool"@,
                },
                state,
            ),
        ),
        None => None,
    }
}

/// The name of a file: a string, or the `path` of an object.
pub open spec fn file_name(file: JsonView) -> Option<Seq<char>> {
    match file.text() {
        Some(name) => Some(name),
        None => file.get_text("path"@),
    }
}

/// The names of the files that have one.
pub open spec fn file_names(files: Seq<JsonView>) -> Seq<Seq<char>>
    decreases files.len(),
{
    if files.len() == 0 {
        Seq::empty()
    } else {
        let before = file_names(files.drop_last());
        match file_name(files.last()) {
            Some(name) => before.push(name),
            None => before,
        }
    }
}

/// The text of a part that tells of changed files.
pub open spec fn patch_text(part: JsonView) -> Seq<char> {
    let names = match part.get_items("files"@) {
        Some(files) => file_names(files),
        None => Seq::empty(),
    };
    if names.len() == 0 {
        "Patch applied."@
    } else {
        "Patch applied: "@ + join(names, ", "@)
    }
}

/// The text of a part that tells of a task handed to another agent.
pub open spec fn subtask_text(part: JsonView) -> Option<Seq<char>> {
    let description = match part.get_text("description"@) {
        Some(description) => Some(description),
        None => part.get_text("prompt"@),
    };
    match description {
        Some(description) => Some(
            match part.get_text("agent"@) {
                Some(agent) => "Subtask ("@ + agent + "): "@ + description,
                None => "Subtask: "@ + description,
            },
        ),
        None => None,
    }
}

/// The text of a part of a message that the user did not write.
pub open spec fn part_text(part: JsonView) -> Option<Seq<char>> {
    match part.get_text("type"@) {
        None => None,
        Some(kind) => if kind == "text"@ {
            part.get_text("text"@)
        } else if kind == "reasoning"@ {
            with_prefix("Reasoning: "@, part.get_text("text"@))
        } else if kind == "tool"@ {
            tool_text(part)
        } else if kind == "patch"@ {
            Some(patch_text(part))
        } else if kind == "subtask"@ {
            subtask_text(part)
        } else if kind == "agent"@ {
            with_prefix("Agent: "@, part.get_text("text"@))
        } else if kind == "error"@ {
            with_prefix("Error: "@, error_of(part))
        } else if contains_text(kind, "abort"@) {
            Some("Aborted."@)
        } else {
            None
        },
    }
}

/// A text behind a prefix, where there is one.
pub open spec fn with_prefix(prefix: Seq<char>, text: Option<Seq<char>>) -> Option<Seq<char>> {
    match text {
        Some(text) => Some(prefix + text),
        None => None,
    }
}

fn prefixed(prefix: &str, text: Option<&str>) -> (r: Option<String>)
    ensures
        opt_view(r) == with_prefix(prefix@, opt_str_view(text)),
{
    match text {
        Some(text) => Some(concat2(prefix, text)),
        None => None,
    }
}

fn find_shell_command(state: &JsonValue) -> (r: Option<String>)
    ensures
        opt_view(r) == shell_command(state@),
{
    let ran = match state.get("input") {
        Some(input) => input.get_str("command"),
        None => None,
    };
    if let Some(command) = ran {
        if !blank(command) {
            return Some(command.to_owned());
        }
    }
    match state.get_str("title") {
        Some(title) => {
            if blank(title) {
                None
            } else {
                Some(title.to_owned())
            }
        },
        None => None,
    }
}

fn find_tool_output(state: &JsonValue) -> (r: Option<String>)
    ensures
        opt_view(r) == tool_output(state@),
{
    match state.get("output") {
        Some(output) => {
            let text = readable_json(output);
            if blank(text.as_str()) {
                None
            } else {
                Some(text)
            }
        },
        None => None,
    }
}

fn write_command(command: &str, output: Option<String>) -> (r: String)
    ensures
        r@ == command_text(command@, opt_view(output)),
{
    let mut r = concat2("commandExecution: ", command);
    if let Some(output) = output {
        r.append("\n\ncommandExecution/output: ");
        r.append(quoted(output.as_str()).as_str());
    }
    r
}

fn write_done_tool(tool: &str, title: Option<&str>, output: Option<String>) -> (r: String)
    ensures
        r@ == done_tool_text(tool@, opt_str_view(title), opt_view(output)),
{
    let mut r = concat2("Tool ", tool);
    match (title, output) {
        (Some(title), Some(output)) => {
            r.append(": ");
            r.append(title);
            r.append("\n");
            r.append(output.as_str());
        },
        (Some(title), None) => {
            r.append(": ");
            r.append(title);
        },
        (None, Some(output)) => {
            r.append(" output:\n");
            r.append(output.as_str());
        },
        (None, None) => {
            r.append(" completed.");
        },
    }
    r
}

fn write_tool_error(state: &JsonValue) -> (r: String)
    ensures
        r@ == tool_error(state@),
{
    if let Some(error) = state.get("error") {
        if let Some(error) = error_text(error) {
            return error;
        }
    }
    readable_json(state)
}

/// The text of a tool in a state.
fn write_tool_state(tool: &str, state: &JsonValue) -> (r: String)
    ensures
        r@ == tool_state_text(tool@, state@),
{
    let status = match state.get_str("status") {
        Some(status) => Some(status),
        None => state.get_str("type"),
    };
    match status {
        Some(status) => {
            if same(status, "completed") {
                let output = find_tool_output(state);
                if same(tool, "bash") {
                    if let Some(command) = find_shell_command(state) {
                        return write_command(command.as_str(), output);
                    }
                }
                write_done_tool(tool, state.get_str("title"), output)
            } else if same(status, "error") {
                let mut r = concat3("Tool ", tool, " error: ");
                r.append(write_tool_error(state).as_str());
                r
            } else {
                let mut r = concat3("Tool ", tool, ": ");
                r.append(status);
                r
            }
        },
        None => {
            let mut r = concat3("Tool ", tool, ": ");
            r.append(readable_json(state).as_str());
            r
        },
    }
}

/// The text of a part that tells of a tool.
pub fn tool_part_to_text(part: &JsonValue) -> (r: Option<String>)
    ensures
        opt_view(r) == tool_text(part@),
{
    let tool = match part.get_str("tool") {
        Some(tool) => tool,
        None => "tool",
    };
    match part.get("state") {
        Some(state) => Some(write_tool_state(tool, state)),
        None => None,
    }
}

fn find_file_names(files: &Vec<JsonValue>) -> (r: Vec<String>)
    ensures
        views(r@) == file_names(json_views(files@)),
{
    let ghost all = json_views(files@);
    let mut r: Vec<String> = Vec::new();
    let mut i: usize = 0;
    assert(views(r@) =~= file_names(all.take(0)));
    while i < files.len()
        invariant
            i <= files@.len(),
            all == json_views(files@),
            views(r@) == file_names(all.take(i as int)),
        decreases files@.len() - i,
    {
        let ghost done = views(r@);
        proof {
            assert(all.take(i as int + 1).drop_last() =~= all.take(i as int));
            assert(all.take(i as int + 1).last() == files@[i as int]@);
        }
        let name = match files[i].as_str() {
            Some(name) => Some(name),
            None => files[i].get_str("path"),
        };
        if let Some(name) = name {
            r.push(name.to_owned());
            assert(views(r@) =~= done.push(name@));
        }
        i = i + 1;
    }
    assert(all.take(i as int) =~= all);
    r
}

/// The text of a part that tells of changed files.
pub fn patch_part_to_text(part: &JsonValue) -> (r: String)
    ensures
        r@ == patch_text(part@),
{
    let names = match part.get("files") {
        Some(files) => match files.as_array() {
            Some(files) => find_file_names(files),
            None => Vec::new(),
        },
        None => Vec::new(),
    };
    assert(views(names@) =~= match part@.get_items("files"@) {
        Some(files) => file_names(files),
        None => Seq::empty(),
    });
    if names.len() == 0 {
        "Patch applied.".to_owned()
    } else {
        concat2("Patch applied: ", joined(&names, ", ").as_str())
    }
}

/// The text of a part that tells of a task handed to another agent.
pub fn subtask_part_to_text(part: &JsonValue) -> (r: Option<String>)
    ensures
        opt_view(r) == subtask_text(part@),
{
    let description = match part.get_str("description") {
        Some(description) => Some(description),
        None => part.get_str("prompt"),
    };
    match description {
        Some(description) => match part.get_str("agent") {
            Some(agent) => {
                let mut r = concat3("Subtask (", agent, "): ");
                r.append(description);
                Some(r)
            },
            None => Some(concat2("Subtask: ", description)),
        },
        None => None,
    }
}

/// The text of a part of a message that the user did not write.
pub fn part_to_response_text(part: &JsonValue) -> (r: Option<String>)
    ensures
        opt_view(r) == part_text(part@),
{
    let kind = match part.get_str("type") {
        Some(kind) => kind,
        None => {
            return None;
        },
    };
    if same(kind, "text") {
        match part.get_str("text") {
            Some(text) => Some(text.to_owned()),
            None => None,
        }
    } else if same(kind, "reasoning") {
        prefixed("Reasoning: ", part.get_str("text"))
    } else if same(kind, "tool") {
        tool_part_to_text(part)
    } else if same(kind, "patch") {
        Some(patch_part_to_text(part))
    } else if same(kind, "subtask") {
        subtask_part_to_text(part)
    } else if same(kind, "agent") {
        prefixed("Agent: ", part.get_str("text"))
    } else if same(kind, "error") {
        match error_text(part) {
            Some(error) => Some(concat2("Error: ", error.as_str())),
            None => None,
        }
    } else if contains(kind, "abort") {
        Some("Aborted.".to_owned())
    } else {
        None
    }
}

/// The text says that something was aborted.
pub open spec fn says_aborted(text: Option<Seq<char>>) -> bool {
    match text {
        Some(text) => lower(text) == "abort"@ || lower(text) == "aborted"@,
        None => false,
    }
}

/// The message ended because it was aborted: its end says so, or the reason of its end.
pub open spec fn is_aborted(finish: Option<JsonView>) -> bool {
    match finish {
        Some(finish) => says_aborted(finish.text()) || says_aborted(finish.get_text("reason"@)),
        None => false,
    }
}

fn aborted_text(text: Option<&str>) -> (r: bool)
    ensures
        r == says_aborted(opt_str_view(text)),
{
    match text {
        Some(text) => {
            let word = lowered(text);
            same(word.as_str(), "abort") || same(word.as_str(), "aborted")
        },
        None => false,
    }
}

/// The message ended because it was aborted.
pub fn finish_value_is_aborted(finish: &Option<JsonValue>) -> (r: bool)
    ensures
        r == is_aborted(opt_document(*finish)),
{
    match finish {
        Some(finish) => aborted_text(finish.as_str()) || aborted_text(finish.get_str("reason")),
        None => false,
    }
}

/// The text of a part, by who wrote the message: of the user's own only what they typed counts.
pub open spec fn text_of_part(role: Seq<char>, part: JsonView) -> Option<Seq<char>> {
    if role == "user"@ {
        if part.get_text("type"@) == Some("text"@) {
            part.get_text("text"@)
        } else {
            None
        }
    } else {
        part_text(part)
    }
}

/// The texts of the parts that have one.
pub open spec fn texts_of_parts(role: Seq<char>, parts: Seq<JsonView>) -> Seq<Seq<char>>
    decreases parts.len(),
{
    if parts.len() == 0 {
        Seq::empty()
    } else {
        let before = texts_of_parts(role, parts.drop_last());
        match text_of_part(role, parts.last()) {
            Some(text) => before.push(text),
            None => before,
        }
    }
}

/// The texts of a message: of its parts, of its error, and that it was aborted.
pub open spec fn message_texts(message: MessageWireView) -> Seq<Seq<char>> {
    let texts = texts_of_parts(message.role, message.parts);
    if message.role == "user"@ {
        texts
    } else {
        texts + (match message.error {
            Some(error) => match error_of(error) {
                Some(error) => seq!["Error: "@ + error],
                None => Seq::empty(),
            },
            None => Seq::empty(),
        }) + (if is_aborted(message.finish) {
            seq!["Aborted."@]
        } else {
            Seq::empty()
        })
    }
}

/// The texts that are not blank.
pub open spec fn shown_texts(texts: Seq<Seq<char>>) -> Seq<Seq<char>> {
    texts.filter(|t: Seq<char>| !is_blank(t))
}

/// The item that a message makes: none where nothing is said.
pub open spec fn item_of(message: MessageWireView) -> Option<MessageView> {
    let text = join(shown_texts(message_texts(message)), "\n\n"@);
    if is_blank(text) {
        None
    } else {
        Some(MessageView { role: message.role, text })
    }
}

fn find_part_texts(role: &str, parts: &Vec<JsonValue>) -> (r: Vec<String>)
    ensures
        views(r@) == texts_of_parts(role@, json_views(parts@)),
{
    let ghost all = json_views(parts@);
    let mut r: Vec<String> = Vec::new();
    let is_user = same(role, "user");
    let mut i: usize = 0;
    assert(views(r@) =~= texts_of_parts(role@, all.take(0)));
    while i < parts.len()
        invariant
            i <= parts@.len(),
            all == json_views(parts@),
            is_user == (role@ == "user"@),
            views(r@) == texts_of_parts(role@, all.take(i as int)),
        decreases parts@.len() - i,
    {
        let ghost done = views(r@);
        proof {
            assert(all.take(i as int + 1).drop_last() =~= all.take(i as int));
            assert(all.take(i as int + 1).last() == parts@[i as int]@);
        }
        let part = &parts[i];
        let text = if is_user {
            let typed = match part.get_str("type") {
                Some(kind) => same(kind, "text"),
                None => false,
            };
            if typed {
                match part.get_str("text") {
                    Some(text) => Some(text.to_owned()),
                    None => None,
                }
            } else {
                None
            }
        } else {
            part_to_response_text(part)
        };
        if let Some(text) = text {
            r.push(text);
            assert(views(r@) =~= done.push(text@));
        }
        i = i + 1;
    }
    assert(all.take(i as int) =~= all);
    r
}

/// The texts that are not blank.
pub fn keep_shown(texts: &Vec<String>) -> (r: Vec<String>)
    ensures
        views(r@) == shown_texts(views(texts@)),
{
    let ghost all = views(texts@);
    let ghost shown = |t: Seq<char>| !is_blank(t);
    let mut r: Vec<String> = Vec::new();
    let mut i: usize = 0;
    assert(all.take(0).filter(shown) =~= Seq::empty()) by {
        reveal(Seq::filter);
    }
    assert(views(r@) =~= Seq::empty());
    while i < texts.len()
        invariant
            i <= texts@.len(),
            all == views(texts@),
            shown == (|t: Seq<char>| !is_blank(t)),
            views(r@) == all.take(i as int).filter(shown),
        decreases texts@.len() - i,
    {
        let ghost done = views(r@);
        proof {
            reveal(Seq::filter);
            assert(all.take(i as int + 1).drop_last() =~= all.take(i as int));
            assert(all.take(i as int + 1).last() == texts@[i as int]@);
        }
        if !blank(texts[i].as_str()) {
            r.push(texts[i].clone());
            assert(views(r@) =~= done.push(texts@[i as int]@));
        }
        i = i + 1;
    }
    assert(all.take(i as int) =~= all);
    r
}

/// The item that a message makes.
pub fn message_to_conversation_item(message: &OpenCodeMessageWire) -> (r: Option<
    OpenCodeConversationItem,
>)
    ensures
        opt_content(r) == item_of(message@),
{
    let mut texts = find_part_texts(message.role.as_str(), &message.parts);
    if !same(message.role.as_str(), "user") {
        let ghost parts = views(texts@);
        if let Some(error) = &message.error {
            if let Some(error) = error_text(error) {
                texts.push(concat2("Error: ", error.as_str()));
            }
        }
        let ghost with_error = views(texts@);
        assert(with_error =~= parts + match message@.error {
            Some(error) => match error_of(error) {
                Some(error) => seq!["Error: "@ + error],
                None => Seq::empty(),
            },
            None => Seq::empty(),
        });
        if finish_value_is_aborted(&message.finish) {
            texts.push("Aborted.".to_owned());
        }
        assert(views(texts@) =~= with_error + if is_aborted(message@.finish) {
            seq!["Aborted."@]
        } else {
            Seq::empty()
        });
    }
    assert(views(texts@) == message_texts(message@));
    let shown = keep_shown(&texts);
    let text = joined(&shown, "\n\n");
    if blank(text.as_str()) {
        None
    } else {
        Some(OpenCodeConversationItem { role: message.role.clone(), text })
    }
}

/// The models of a list of messages.
pub open spec fn message_views(messages: Seq<OpenCodeMessageWire>) -> Seq<MessageWireView> {
    messages.map_values(|m: OpenCodeMessageWire| m@)
}

/// The items that messages make.
pub open spec fn items_of_messages(messages: Seq<MessageWireView>) -> Seq<MessageView>
    decreases messages.len(),
{
    if messages.len() == 0 {
        Seq::empty()
    } else {
        let before = items_of_messages(messages.drop_last());
        match item_of(messages.last()) {
            Some(item) => before.push(item),
            None => before,
        }
    }
}

/// The items that messages make.
pub fn messages_to_conversation_items(messages: &[OpenCodeMessageWire]) -> (r: Vec<
    OpenCodeConversationItem,
>)
    ensures
        contents(r@) == items_of_messages(message_views(messages@)),
{
    let ghost all = message_views(messages@);
    let mut r: Vec<OpenCodeConversationItem> = Vec::new();
    let mut i: usize = 0;
    assert(contents(r@) =~= items_of_messages(all.take(0)));
    while i < messages.len()
        invariant
            i <= messages@.len(),
            all == message_views(messages@),
            contents(r@) == items_of_messages(all.take(i as int)),
        decreases messages@.len() - i,
    {
        let ghost done = contents(r@);
        proof {
            assert(all.take(i as int + 1).drop_last() =~= all.take(i as int));
            assert(all.take(i as int + 1).last() == messages@[i as int]@);
        }
        if let Some(item) = message_to_conversation_item(&messages[i]) {
            r.push(item);
            assert(contents(r@) =~= done.push(item@));
        }
        i = i + 1;
    }
    assert(all.take(i as int) =~= all);
    r
}

/// The messages of an array, where each can be read.
pub open spec fn messages_of(items: Seq<JsonView>) -> Option<Seq<MessageWireView>>
    decreases items.len(),
{
    if items.len() == 0 {
        Some(Seq::empty())
    } else {
        match (messages_of(items.drop_last()), message_of(items.last())) {
            (Some(before), Some(message)) => Some(before.push(message)),
            _ => None,
        }
    }
}

/// The messages that a document lists.
pub open spec fn message_list(value: JsonView) -> Option<Seq<MessageWireView>> {
    match value {
        JsonView::Array(items) => messages_of(items),
        _ => None,
    }
}

proof fn lemma_messages_prefix(items: Seq<JsonView>, n: int)
    requires
        0 <= n <= items.len(),
        messages_of(items.take(n)) is None,
    ensures
        messages_of(items) is None,
    decreases items.len(),
{
    if n == items.len() {
        assert(items.take(n) =~= items);
    } else {
        assert(items.drop_last().take(n) =~= items.take(n));
        lemma_messages_prefix(items.drop_last(), n);
    }
}

/// The messages that a document lists.
pub fn decode_messages(value: &JsonValue) -> (r: Option<Vec<OpenCodeMessageWire>>)
    ensures
        match r {
            Some(messages) => message_list(value@) == Some(message_views(messages@)),
            None => message_list(value@) is None,
        },
{
    broadcast use {JsonValue::lemma_object_view, JsonValue::lemma_array_view};

    match value {
        JsonValue::Array(items) => {
            let ghost all = json_views(items@);
            let mut r: Vec<OpenCodeMessageWire> = Vec::new();
            let mut i: usize = 0;
            assert(message_views(r@) =~= Seq::empty());
            assert(messages_of(all.take(0)) == Some(message_views(r@)));
            while i < items.len()
                invariant
                    i <= items@.len(),
                    all == json_views(items@),
                    value@ == JsonView::Array(all),
                    messages_of(all.take(i as int)) == Some(message_views(r@)),
                decreases items@.len() - i,
            {
                let ghost done = message_views(r@);
                proof {
                    assert(all.take(i as int + 1).drop_last() =~= all.take(i as int));
                    assert(all.take(i as int + 1).last() == items@[i as int]@);
                }
                match OpenCodeMessageWire::from_json(&items[i]) {
                    Some(message) => {
                        r.push(message);
                        assert(message_views(r@) =~= done.push(message@));
                    },
                    None => {
                        proof {
                            lemma_messages_prefix(all, i as int + 1);
                        }
                        return None;
                    },
                }
                i = i + 1;
            }
            assert(all.take(i as int) =~= all);
            Some(r)
        },
        _ => None,
    }
}

/// The statuses that an answer lists, by session, or what is said of an answer that lists none.
pub fn read_statuses(value: &JsonValue, url: &str) -> (r: Result<Vec<(String, String)>, String>)
    ensures
        match (r, canonical(value@)) {
            (Ok(statuses), JsonView::Object(entries)) => pair_views(statuses@) == statuses_of(
                entries,
            ),
            (Err(_), JsonView::Object(_)) => false,
            (Ok(_), _) => false,
            (Err(error), _) => error@ == unreadable_answer(url@, wrong_kind(value@, "a map"@)),
        },
{
    match session_statuses(value) {
        Some(statuses) => Ok(statuses),
        None => Err(say_unreadable_answer(url, say_wrong_kind(value, "a map").as_str())),
    }
}

proof fn lemma_messages_read(items: Seq<JsonView>)
    ensures
        messages_of(items) is None <==> parts_fault::<MessageForm>(items, 0) is Some,
    decreases items.len(),
{
    lemma_parts_fault::<MessageForm>(items, 0);
    if items.len() > 0 {
        let before = items.drop_last();
        lemma_messages_read(before);
        lemma_parts_fault::<MessageForm>(before, 0);
        law_message_form(items.last());
        assert(forall|j: int| 0 <= j < before.len() ==> before[j] == #[trigger] items[j]);
        if messages_of(items) is Some {
            assert forall|j: int| 0 <= j < items.len() implies has_shape::<MessageForm>(
                #[trigger] items[j],
            ) by {
                if j < before.len() {
                    assert(has_shape::<MessageForm>(before[j]));
                }
            }
        } else if parts_fault::<MessageForm>(items, 0) is None {
            assert forall|j: int| 0 <= j < before.len() implies has_shape::<MessageForm>(
                #[trigger] before[j],
            ) by {
                assert(has_shape::<MessageForm>(items[j]));
            }
            assert(has_shape::<MessageForm>(items[items.len() - 1]));
        }
    }
}

/// The messages that an answer lists, or what is said of an answer that lists none.
pub fn read_messages(value: &JsonValue, url: &str) -> (r: Result<Vec<OpenCodeMessageWire>, String>)
    ensures
        match r {
            Ok(messages) => message_list(value@) == Some(message_views(messages@)),
            Err(error) => message_list(value@) is None && error@ == unreadable_answer(
                url@,
                listing_fault::<MessageForm>(value@)->0,
            ) && listing_fault::<MessageForm>(value@) is Some,
        },
{
    match decode_messages(value) {
        Some(messages) => Ok(messages),
        None => {
            proof {
                if let JsonView::Array(items) = value@ {
                    lemma_messages_read(items);
                }
            }
            let fault = match find_listing_fault::<MessageForm>(value) {
                Some(fault) => fault,
                None => String::new(),
            };
            Err(say_unreadable_answer(url, fault.as_str()))
        },
    }
}

} // verus!
