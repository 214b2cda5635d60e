//! The agent's side of a Codex conversation as one text.
//!
//! A thread's items are streamed fragments, completed messages, commands and command output. The
//! transcript joins the fragments, names each command once and attaches output to the command
//! that it came from.
use crate::codex_app_server::fields::{
    command_field, command_of, key_views, lemma_get_smaller, normalize_identifier,
    normalized_identifier, not_blank, string_field, string_field_of,
};
use crate::codex_app_server::types::{CodexConversationItem, ItemView, item_views};
use crate::codex_app_server::wire::or_else;
use crate::json::{JsonValue, JsonView, canonical, compact_text, json_parse, quoted};
use crate::text::{
    blank, chars_of, concat2, concat3, contains, contains_char, contains_text, ends_with, is_blank,
    is_space, is_space_char, join, joined, lower, lowered, opt_view, same, starts_with, trim,
    trimmed, views,
};
use vstd::prelude::*;

verus! {

/// The item is what the user said.
pub open spec fn is_user_role(role: Seq<char>) -> bool {
    ||| lower(role) == "user"@
    ||| lower(role) == "usermessage"@
    ||| "/usermessage"@.is_suffix_of(lower(role))
}

/// The item is a message of the agent.
pub open spec fn is_assistant_role(role: Seq<char>) -> bool {
    ||| lower(role) == "assistant"@
    ||| lower(role) == "agent"@
    ||| lower(role) == "codex"@
    ||| lower(role) == "agentmessage"@
    ||| lower(role) == "item/completed"@
    ||| "/completed"@.is_suffix_of(lower(role))
    ||| "/agentmessage/delta"@.is_suffix_of(lower(role))
    ||| "/agentmessage"@.is_suffix_of(lower(role))
}

/// The item is a fragment of a message of the agent.
pub open spec fn is_delta_role(role: Seq<char>) -> bool {
    ||| lower(role) == "delta"@
    ||| "/delta"@.is_suffix_of(lower(role))
    ||| "/agentmessage/delta"@.is_suffix_of(lower(role))
}

/// The item reports that something is complete.
pub open spec fn is_completed_role(role: Seq<char>) -> bool {
    ||| lower(role) == "item/completed"@
    ||| "/completed"@.is_suffix_of(lower(role))
}

/// The item is a fragment of a command's output.
pub open spec fn is_output_role(role: Seq<char>) -> bool {
    &&& contains_text(normalized_identifier(role), "commandexecution"@)
    &&& contains_text(normalized_identifier(role), "output"@)
}

/// The item may start a command.
pub open spec fn is_command_role(role: Seq<char>) -> bool {
    ||| contains_text(normalized_identifier(role), "commandexecution"@)
    ||| normalized_identifier(role) == "itemstarted"@
    ||| "started"@.is_suffix_of(normalized_identifier(role))
}

/// The text reads like a shell command.
pub open spec fn is_shell_command(command: Seq<char>) -> bool {
    let command = trim(command);
    ||| "/bin/"@.is_prefix_of(command)
    ||| contains_text(command, " -lc "@)
    ||| "git "@.is_prefix_of(command)
    ||| "cargo "@.is_prefix_of(command)
    ||| "gh "@.is_prefix_of(command)
    ||| "rg "@.is_prefix_of(command)
    ||| "sed "@.is_prefix_of(command)
    ||| "nl "@.is_prefix_of(command)
    ||| "ls "@.is_prefix_of(command)
    ||| contains_text(command, " && "@)
    ||| contains_text(command, " | "@)
}

/// A text without its whitespace, for comparing.
pub open spec fn squeezed(text: Seq<char>) -> Seq<char> {
    text.filter(|c: char| !is_space(c))
}

/// The document that a text holds, where it is JSON.
pub open spec fn document_of(text: Seq<char>) -> Option<JsonView> {
    match json_parse(text) {
        Ok(value) => Some(value),
        Err(_) => None,
    }
}

/// The command that an item's text states.
pub open spec fn command_text_of(text: Seq<char>) -> Option<Seq<char>> {
    let stated = match document_of(text) {
        Some(value) => command_of(value),
        None => None,
    };
    match stated {
        Some(command) => Some(command),
        None => not_blank(trim(text)),
    }
}

/// The command that an item starts.
pub open spec fn command_of_item(item: ItemView) -> Option<Seq<char>> {
    if is_output_role(item.role) || !is_command_role(item.role) {
        None
    } else {
        match command_text_of(item.text) {
            Some(command) => if contains_text(
                normalized_identifier(item.role),
                "commandexecution"@,
            ) || is_shell_command(command) {
                Some(command)
            } else {
                None
            },
            None => None,
        }
    }
}

/// The keys under which a message holds the output of a command.
pub open spec fn output_keys() -> Seq<Seq<char>> {
    seq![
        "body"@,
        "output"@,
        "aggregatedOutput"@,
        "aggregated_output"@,
        "delta"@,
        "text"@,
        "content"@,
        "message"@,
    ]
}

/// The output of a command that a message states: its own, else that of its `delta`, its `event`
/// or its `item`.
pub open spec fn output_of(value: JsonView) -> Option<Seq<char>>
    decreases value,
{
    match string_field_of(value, output_keys()) {
        Some(text) => Some(text),
        None => {
            proof {
                lemma_get_smaller(value, "delta"@);
                lemma_get_smaller(value, "event"@);
                lemma_get_smaller(value, "item"@);
            }
            let from_delta = match value.get("delta"@) {
                Some(delta) => output_of(delta),
                None => None,
            };
            let from_event = match value.get("event"@) {
                Some(event) => output_of(event),
                None => None,
            };
            let from_item = match value.get("item"@) {
                Some(item) => output_of(item),
                None => None,
            };
            or_else(from_delta, or_else(from_event, from_item))
        },
    }
}

/// The output that a fragment states: what its document says, else its text.
pub open spec fn output_text_of(text: Seq<char>) -> Seq<char> {
    let stated = match document_of(text) {
        Some(value) => output_of(value),
        None => None,
    };
    match stated {
        Some(output) => output,
        None => text,
    }
}

/// The command that an item reports as complete, with its output.
pub open spec fn completed_command(item: ItemView) -> Option<(Seq<char>, Option<Seq<char>>)> {
    if !is_completed_role(item.role) {
        None
    } else {
        match document_of(item.text) {
            Some(value) => match command_of(value) {
                Some(command) => Some((command, output_of(value))),
                None => None,
            },
            None => None,
        }
    }
}

/// The paragraph that names a command; one of several lines stands as a JSON string.
pub open spec fn command_part(command: Seq<char>) -> Seq<char> {
    "commandExecution: "@ + if command.contains('\n') || command.contains('\r') {
        compact_text(JsonView::Text(command))
    } else {
        command
    }
}

/// The paragraph that holds output of an unnamed command.
pub open spec fn output_part(output: Seq<char>) -> Seq<char> {
    "commandExecution/output: "@ + compact_text(JsonView::Text(output))
}

/// The paragraph that holds output of a named command.
pub open spec fn targeted_output_part(command: Seq<char>, output: Seq<char>) -> Seq<char> {
    "commandExecution/output: "@ + compact_text(
        canonical(
            JsonView::Object(
                seq![
                    ("command"@, JsonView::Text(command)),
                    ("output"@, JsonView::Text(output)),
                ],
            ),
        ),
    )
}

/// How far a transcript has been written: its paragraphs, the message fragments and the command
/// output gathered since, and the last command named.
pub struct TranscriptView {
    pub parts: Seq<Seq<char>>,
    pub delta: Seq<char>,
    pub output: Seq<char>,
    pub last: Option<Seq<char>>,
}

impl TranscriptView {
    /// The gathered message fragments become a paragraph.
    pub open spec fn flush_delta(self) -> TranscriptView {
        TranscriptView {
            parts: if is_blank(self.delta) {
                self.parts
            } else {
                self.parts.push(self.delta)
            },
            delta: Seq::empty(),
            ..self
        }
    }

    /// The gathered command output becomes a paragraph.
    pub open spec fn flush_output(self) -> TranscriptView {
        TranscriptView {
            parts: if is_blank(self.output) {
                self.parts
            } else {
                self.parts.push(output_part(self.output))
            },
            output: Seq::empty(),
            ..self
        }
    }

    /// All that was gathered becomes paragraphs.
    pub open spec fn flush(self) -> TranscriptView {
        self.flush_delta().flush_output()
    }

    /// A further paragraph.
    pub open spec fn with_part(self, part: Seq<char>) -> TranscriptView {
        TranscriptView { parts: self.parts.push(part), ..self }
    }

    /// `text` names the last command again.
    pub open spec fn repeats_last(self, text: Seq<char>) -> bool {
        match self.last {
            Some(last) => squeezed(last) == squeezed(text),
            None => false,
        }
    }

    /// The transcript after one more item.
    pub open spec fn step(self, item: ItemView) -> TranscriptView {
        if is_user_role(item.role) || is_blank(item.text) {
            self
        } else if is_delta_role(item.role) {
            TranscriptView { delta: self.delta + item.text, ..self }
        } else if completed_command(item) is Some {
            let (command, output) = completed_command(item)->0;
            match output {
                Some(output) => self.flush().with_part(targeted_output_part(command, output)),
                None => if self.repeats_last(command) {
                    self
                } else {
                    self.flush()
                },
            }
        } else if is_completed_role(item.role) && self.repeats_last(item.text) {
            self
        } else if command_of_item(item) is Some {
            let command = command_of_item(item)->0;
            TranscriptView {
                last: Some(command),
                ..self.flush().with_part(command_part(command))
            }
        } else if is_output_role(item.role) {
            let output = output_text_of(item.text);
            if output.len() == 0 {
                self
            } else {
                let flushed = self.flush_delta();
                TranscriptView { output: flushed.output + output, ..flushed }
            }
        } else if is_completed_role(item.role) && !is_blank(self.delta) && squeezed(self.delta)
            == squeezed(item.text) {
            self
        } else {
            self.flush().with_part(
                if is_assistant_role(item.role) || is_completed_role(item.role) {
                    item.text
                } else {
                    item.role + ": "@ + item.text
                },
            )
        }
    }
}

/// The transcript of a list of items, before what was gathered last is written out.
pub open spec fn transcript(items: Seq<ItemView>) -> TranscriptView
    decreases items.len(),
{
    if items.len() == 0 {
        TranscriptView {
            parts: Seq::empty(),
            delta: Seq::empty(),
            output: Seq::empty(),
            last: None,
        }
    } else {
        transcript(items.drop_last()).step(items.last())
    }
}

/// The agent's side of a conversation: the paragraphs of the transcript, with blank lines between.
pub open spec fn agent_text(items: Seq<ItemView>) -> Seq<char> {
    join(transcript(items).flush().parts, "\n\n"@)
}

/// The item is what the user said.
pub fn is_codex_user_item(role: &str) -> (r: bool)
    ensures
        r == is_user_role(role@),
{
    let role = lowered(role);
    same(role.as_str(), "user") || same(role.as_str(), "usermessage") || ends_with(
        role.as_str(),
        "/usermessage",
    )
}

/// The item is a message of the agent.
pub fn is_codex_assistant_item(role: &str) -> (r: bool)
    ensures
        r == is_assistant_role(role@),
{
    let role = lowered(role);
    let role = role.as_str();
    same(role, "assistant") || same(role, "agent") || same(role, "codex") || same(
        role,
        "agentmessage",
    ) || same(role, "item/completed") || ends_with(role, "/completed") || ends_with(
        role,
        "/agentmessage/delta",
    ) || ends_with(role, "/agentmessage")
}

/// The item is a fragment of a message of the agent.
pub fn is_codex_assistant_delta_item(role: &str) -> (r: bool)
    ensures
        r == is_delta_role(role@),
{
    let role = lowered(role);
    let role = role.as_str();
    same(role, "delta") || ends_with(role, "/delta") || ends_with(role, "/agentmessage/delta")
}

/// The item reports that something is complete.
pub fn is_codex_completed_item(role: &str) -> (r: bool)
    ensures
        r == is_completed_role(role@),
{
    let role = lowered(role);
    same(role.as_str(), "item/completed") || ends_with(role.as_str(), "/completed")
}

/// The item is a fragment of a command's output.
pub fn is_codex_command_output_delta_item(role: &str) -> (r: bool)
    ensures
        r == is_output_role(role@),
{
    let role = normalized_codex_role(role);
    contains(role.as_str(), "commandexecution") && contains(role.as_str(), "output")
}

/// A role without punctuation and case.
pub fn normalized_codex_role(role: &str) -> (r: String)
    ensures
        r@ == normalized_identifier(role@),
{
    normalize_identifier(role)
}

/// A text without its whitespace, for comparing.
pub fn normalized_codex_text(text: &str) -> (r: String)
    ensures
        r@ == squeezed(text@),
{
    let v = chars_of(text);
    let ghost keep = |c: char| !is_space(c);
    let mut kept = String::new();
    let mut i: usize = 0;
    while i < v.len()
        invariant
            v@ == text@,
            i <= v@.len(),
            keep == (|c: char| !is_space(c)),
            kept@ == v@.take(i as int).filter(keep),
        decreases v@.len() - i,
    {
        proof {
            reveal(Seq::filter);
            assert(v@.take(i as int + 1).drop_last() =~= v@.take(i as int));
        }
        if !is_space_char(v[i]) {
            kept.push(v[i]);
        }
        i = i + 1;
    }
    assert(v@.take(i as int) =~= v@);
    kept
}

/// The text reads like a shell command.
pub fn looks_like_codex_shell_command(command: &str) -> (r: bool)
    ensures
        r == is_shell_command(command@),
{
    let command = trimmed(command);
    starts_with(command, "/bin/") || contains(command, " -lc ") || starts_with(command, "git ")
        || starts_with(command, "cargo ") || starts_with(command, "gh ") || starts_with(
        command,
        "rg ",
    ) || starts_with(command, "sed ") || starts_with(command, "nl ") || starts_with(command, "ls ")
        || contains(command, " && ") || contains(command, " | ")
}

/// The command that an item's text states.
pub fn codex_command_text(text: &str) -> (r: Option<String>)
    ensures
        opt_view(r) == command_text_of(text@),
{
    if let Ok(value) = JsonValue::parse(text) {
        let command = command_field(&value);
        if command.is_some() {
            return command;
        }
    }
    let text = trimmed(text);
    if blank(text) {
        None
    } else {
        Some(text.to_owned())
    }
}

/// The command that an item starts.
pub fn codex_command_text_from_item(item: &CodexConversationItem) -> (r: Option<String>)
    ensures
        opt_view(r) == command_of_item(item@),
{
    if is_codex_command_output_delta_item(item.role.as_str()) {
        return None;
    }
    let role = normalized_codex_role(item.role.as_str());
    let names_command = contains(role.as_str(), "commandexecution");
    if !(names_command || same(role.as_str(), "itemstarted") || ends_with(
        role.as_str(),
        "started",
    )) {
        return None;
    }
    match codex_command_text(item.text.as_str()) {
        Some(command) => {
            if names_command || looks_like_codex_shell_command(command.as_str()) {
                Some(command)
            } else {
                None
            }
        },
        None => None,
    }
}

/// The output of a command that a message states.
pub fn codex_command_output_text_from_value(value: &JsonValue) -> (r: Option<String>)
    ensures
        opt_view(r) == output_of(value@),
    decreases value,
{
    let keys: [&str; 8] = [
        "body",
        "output",
        "aggregatedOutput",
        "aggregated_output",
        "delta",
        "text",
        "content",
        "message",
    ];
    assert(key_views(keys@) =~= output_keys());
    let own = string_field(value, &keys);
    if own.is_some() {
        return own;
    }
    if let Some(delta) = value.get("delta") {
        let output = codex_command_output_text_from_value(delta);
        if output.is_some() {
            return output;
        }
    }
    if let Some(event) = value.get("event") {
        let output = codex_command_output_text_from_value(event);
        if output.is_some() {
            return output;
        }
    }
    match value.get("item") {
        Some(item) => codex_command_output_text_from_value(item),
        None => None,
    }
}

/// The output that a fragment states; an empty one states none.
pub fn codex_command_output_text(text: &str) -> (r: Option<String>)
    ensures
        match r {
            Some(output) => output@ == output_text_of(text@) && output@.len() > 0,
            None => output_text_of(text@).len() == 0,
        },
{
    let stated = match JsonValue::parse(text) {
        Ok(value) => codex_command_output_text_from_value(&value),
        Err(_) => None,
    };
    let output = match stated {
        Some(output) => output,
        None => text.to_owned(),
    };
    if output.as_str().is_empty() {
        None
    } else {
        Some(output)
    }
}

/// The command that an item reports as complete, with its output.
pub fn codex_completed_command_and_output(item: &CodexConversationItem) -> (r: Option<
    (String, Option<String>),
>)
    ensures
        match r {
            Some((command, output)) => completed_command(item@) == Some((command@, opt_view(output))),
            None => completed_command(item@) is None,
        },
{
    if !is_codex_completed_item(item.role.as_str()) {
        return None;
    }
    match JsonValue::parse(item.text.as_str()) {
        Ok(value) => match command_field(&value) {
            Some(command) => Some((command, codex_command_output_text_from_value(&value))),
            None => None,
        },
        Err(_) => None,
    }
}

/// The paragraph that names a command.
fn format_command_part(command: &str) -> (r: String)
    ensures
        r@ == command_part(command@),
{
    if contains_char(command, '\n') || contains_char(command, '\r') {
        concat2("commandExecution: ", quoted(command).as_str())
    } else {
        concat2("commandExecution: ", command)
    }
}

/// The paragraph that holds output of a named command.
fn format_targeted_output(command: &str, output: &str) -> (r: String)
    ensures
        r@ == targeted_output_part(command@, output@),
{
    broadcast use JsonValue::lemma_object_view;

    let mut entries: Vec<(String, JsonValue)> = Vec::new();
    entries.push(("command".to_owned(), JsonValue::Text(command.to_owned())));
    entries.push(("output".to_owned(), JsonValue::Text(output.to_owned())));
    let record = JsonValue::Object(entries);
    assert(record@->Object_0 =~= seq![
        ("command"@, JsonView::Text(command@)),
        ("output"@, JsonView::Text(output@)),
    ]);
    concat2("commandExecution/output: ", record.compact().as_str())
}

/// A transcript in the making.
struct Transcript {
    parts: Vec<String>,
    delta: String,
    output: String,
    last: Option<String>,
}

impl Transcript {
    spec fn view(&self) -> TranscriptView {
        TranscriptView {
            parts: views(self.parts@),
            delta: self.delta@,
            output: self.output@,
            last: opt_view(self.last),
        }
    }

    fn push(&mut self, part: String)
        ensures
            final(self)@ == old(self)@.with_part(part@),
    {
        let ghost before = views(self.parts@);
        self.parts.push(part);
        assert(views(self.parts@) =~= before.push(part@));
    }

    fn flush_delta(&mut self)
        ensures
            final(self)@ == old(self)@.flush_delta(),
    {
        let ghost before = views(self.parts@);
        let mut delta = String::new();
        std::mem::swap(&mut self.delta, &mut delta);
        if !blank(delta.as_str()) {
            self.parts.push(delta);
            assert(views(self.parts@) =~= before.push(delta@));
        }
    }

    fn flush_output(&mut self)
        ensures
            final(self)@ == old(self)@.flush_output(),
    {
        let ghost before = views(self.parts@);
        let mut output = String::new();
        std::mem::swap(&mut self.output, &mut output);
        if !blank(output.as_str()) {
            let part = concat2("commandExecution/output: ", quoted(output.as_str()).as_str());
            self.parts.push(part);
            assert(views(self.parts@) =~= before.push(part@));
        }
    }

    fn flush(&mut self)
        ensures
            final(self)@ == old(self)@.flush(),
    {
        self.flush_delta();
        self.flush_output();
    }

    fn repeats_last(&self, text: &str) -> (r: bool)
        ensures
            r == self@.repeats_last(text@),
    {
        match &self.last {
            Some(last) => same(
                normalized_codex_text(last.as_str()).as_str(),
                normalized_codex_text(text).as_str(),
            ),
            None => false,
        }
    }

    fn step(&mut self, item: &CodexConversationItem)
        ensures
            final(self)@ == old(self)@.step(item@),
    {
        if is_codex_user_item(item.role.as_str()) || blank(item.text.as_str()) {
            return;
        }
        if is_codex_assistant_delta_item(item.role.as_str()) {
            self.delta.append(item.text.as_str());
            return;
        }
        if let Some((command, output)) = codex_completed_command_and_output(item) {
            match output {
                Some(output) => {
                    self.flush();
                    self.push(format_targeted_output(command.as_str(), output.as_str()));
                },
                None => {
                    if !self.repeats_last(command.as_str()) {
                        self.flush();
                    }
                },
            }
            return;
        }
        let completed = is_codex_completed_item(item.role.as_str());
        if completed && self.repeats_last(item.text.as_str()) {
            return;
        }
        if let Some(command) = codex_command_text_from_item(item) {
            self.flush();
            self.push(format_command_part(command.as_str()));
            self.last = Some(command);
            return;
        }
        if is_codex_command_output_delta_item(item.role.as_str()) {
            if let Some(output) = codex_command_output_text(item.text.as_str()) {
                self.flush_delta();
                self.output.append(output.as_str());
            }
            return;
        }
        if completed && !blank(self.delta.as_str()) && same(
            normalized_codex_text(self.delta.as_str()).as_str(),
            normalized_codex_text(item.text.as_str()).as_str(),
        ) {
            return;
        }
        self.flush();
        if is_codex_assistant_item(item.role.as_str()) || completed {
            self.push(item.text.clone());
        } else {
            self.push(concat3(item.role.as_str(), ": ", item.text.as_str()));
        }
    }
}

/// The agent's side of a conversation.
pub fn codex_items_to_agent_text(items: &[CodexConversationItem]) -> (r: String)
    ensures
        r@ == agent_text(item_views(items@)),
{
    let mut transcript_so_far = Transcript {
        parts: Vec::new(),
        delta: String::new(),
        output: String::new(),
        last: None,
    };
    let ghost all = item_views(items@);
    let mut i: usize = 0;
    assert(views(transcript_so_far.parts@) =~= Seq::empty());
    while i < items.len()
        invariant
            i <= items@.len(),
            all == item_views(items@),
            transcript_so_far@ == transcript(all.take(i as int)),
        decreases items@.len() - i,
    {
        proof {
            assert(all.take(i as int + 1).drop_last() =~= all.take(i as int));
            assert(all.take(i as int + 1).last() == items@[i as int]@);
        }
        transcript_so_far.step(&items[i]);
        i = i + 1;
    }
    assert(all.take(i as int) =~= all);
    transcript_so_far.flush();
    joined(&transcript_so_far.parts, "\n\n")
}

} // verus!
