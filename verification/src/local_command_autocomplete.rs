//! Suggestions for the command line from a local model.
use crate::decode::{default_text, read_default_text, read_text, read_text_list, text_list};
use crate::json::{
    JsonValue, JsonView, entry_views, json_views, signed_number, text_array, text_array_of,
};
use crate::members::{members_parse, names_of, read_stated, stated};
use crate::shape::{
    Shape, find_text_fault, find_text_list_fault, has_shape, lemma_texts_read, member_fits,
    say_undecodable, shape_error, shape_fault_of, text_fault, text_list_fault, undecodable,
};
use crate::text::{
    concat2, contains_char, opt_str_view, opt_view, same, starts_with, trim, trim_end_char, trimmed,
    trimmed_end_char, views,
};
use vstd::prelude::*;

verus! {

pub const MAX_FILE_CANDIDATES: usize = 80;

/// The provider that the local service is to ask.
#[derive(Debug, Default, PartialEq, Eq)]
pub struct LocalCommandAutocompleteProviderSettings {
    pub openai_api_key: Option<String>,
    pub openai_base_url: Option<String>,
    pub local_model_aliases: Option<String>,
}

/// A command that was run before, with what came of it.
#[derive(Debug, Default, PartialEq, Eq)]
pub struct AutocompleteBlockContext {
    pub command: String,
    pub output: Option<String>,
    pub cwd: Option<String>,
    pub exit_code: Option<i32>,
}

/// What a suggestion is asked for with.
#[derive(Debug, Default, PartialEq, Eq)]
pub struct LocalCommandAutocompleteRequest {
    pub prefix: String,
    pub cwd: Option<String>,
    pub shell: Option<String>,
    pub platform: Option<String>,
    pub recent_blocks: Vec<AutocompleteBlockContext>,
    pub history: Vec<String>,
    pub file_candidates: Vec<String>,
}

/// What the local service answers.
#[derive(Debug, Default, PartialEq, Eq)]
pub struct LocalCommandAutocompleteResponse {
    pub commands: Vec<String>,
    pub most_likely_action: String,
    pub raw_output: String,
    pub source: String,
    pub parse_status: String,
}

/// The command that is suggested for what the user typed: it has to continue the input, on one
/// line.
pub open spec fn suggestion(action: Seq<char>, prefix: Seq<char>) -> Option<Seq<char>> {
    let command = trim(action);
    if command.len() == 0 || command.contains('\n') || command.contains('\r') || command == prefix
        || !prefix.is_prefix_of(command) {
        None
    } else {
        Some(command)
    }
}

impl LocalCommandAutocompleteResponse {
    /// The command that is suggested for what the user typed.
    pub fn command_suggestion(&self, prefix: &str) -> (r: Option<&str>)
        ensures
            opt_str_view(r) == suggestion(self.most_likely_action@, prefix@),
    {
        let command = trimmed(self.most_likely_action.as_str());
        if command.unicode_len() == 0 || contains_char(command, '\n') || contains_char(
            command,
            '\r',
        ) || same(command, prefix) || !starts_with(command, prefix) {
            return None;
        }
        Some(command)
    }

    /// The suggestion comes from what is on the machine, so it is not held against the completion
    /// specs.
    pub fn should_skip_completion_spec_validation(&self) -> (r: bool)
        ensures
            r == (self.source@ == "deterministic"@ || self.source@ == "fallback"@),
    {
        same(self.source.as_str(), "deterministic") || same(self.source.as_str(), "fallback")
    }

    /// The answer that a text writes, or what is said of a text that writes none.
    pub fn from_json_text(text: &str) -> (r: Result<LocalCommandAutocompleteResponse, String>)
        ensures
            response_result(r) == read_response_text(text@),
    {
        let fault = match JsonValue::parse_members(text) {
            Ok(value) => match LocalCommandAutocompleteResponse::from_json(&value) {
                Some(response) => {
                    return Ok(response);
                },
                None => {
                    proof {
                        law_response_shape(value@);
                    }
                    shape_fault_of::<ResponseShape>(&value)
                },
            },
            Err(error) => error,
        };
        Err(say_undecodable(fault.as_str()))
    }

    /// The answer that a JSON document writes.
    pub fn from_json(value: &JsonValue) -> (r: Option<LocalCommandAutocompleteResponse>)
        ensures
            response_view(r) == read_response(value@),
    {
        assert(names_of(
            ["commands", "most_likely_action", "raw_output", "source", "parse_status"]@
        ) =~= seq!["commands"@, "most_likely_action"@, "raw_output"@, "source"@, "parse_status"@]);
        let value = match read_stated(
            value,
            &["commands", "most_likely_action", "raw_output", "source", "parse_status"],
            3,
        ) {
            Some(value) => value,
            None => {
                return None;
            },
        };
        let commands = match read_text_list(&value, "commands") {
            Some(commands) => commands,
            None => {
                return None;
            },
        };
        match (
            read_text(&value, "most_likely_action"),
            read_text(&value, "raw_output"),
            read_default_text(&value, "source"),
            read_default_text(&value, "parse_status"),
        ) {
            (
                Some(most_likely_action),
                Some(raw_output),
                Some(source),
                Some(parse_status),
            ) => Some(
                LocalCommandAutocompleteResponse {
                    commands,
                    most_likely_action,
                    raw_output,
                    source,
                    parse_status,
                },
            ),
            _ => None,
        }
    }
}

/// The model of a `LocalCommandAutocompleteResponse`.
pub struct ResponseView {
    pub commands: Seq<Seq<char>>,
    pub most_likely_action: Seq<char>,
    pub raw_output: Seq<char>,
    pub source: Seq<char>,
    pub parse_status: Seq<char>,
}

/// The model of an answer that was read.
pub open spec fn response_view(r: Option<LocalCommandAutocompleteResponse>) -> Option<
    ResponseView,
> {
    match r {
        Some(r) => Some(
            ResponseView {
                commands: views(r.commands@),
                most_likely_action: r.most_likely_action@,
                raw_output: r.raw_output@,
                source: r.source@,
                parse_status: r.parse_status@,
            },
        ),
        None => None,
    }
}

/// The answer that a JSON document writes. Where it comes from, and how it was parsed, may be left
/// out.
pub open spec fn read_response(value: JsonView) -> Option<ResponseView> {
    match stated(
        value,
        seq!["commands"@, "most_likely_action"@, "raw_output"@, "source"@, "parse_status"@],
        3,
    ) {
        Some(value) => response_members(value),
        None => None,
    }
}

proof fn lemma_response_names()
    ensures
        "commands"@ != "most_likely_action"@,
        "commands"@ != "raw_output"@,
        "commands"@ != "source"@,
        "commands"@ != "parse_status"@,
        "most_likely_action"@ != "raw_output"@,
        "most_likely_action"@ != "source"@,
        "most_likely_action"@ != "parse_status"@,
        "raw_output"@ != "source"@,
        "raw_output"@ != "parse_status"@,
        "source"@ != "parse_status"@,
{
    reveal_strlit("commands");
    reveal_strlit("most_likely_action");
    reveal_strlit("raw_output");
    reveal_strlit("source");
    reveal_strlit("parse_status");
    assert("commands"@.len() == 8 && "most_likely_action"@.len() == 18 && "raw_output"@.len() == 10);
    assert("source"@.len() == 6 && "parse_status"@.len() == 12);
}

/// What the local service answers.
pub struct ResponseShape;

impl Shape for ResponseShape {
    open spec fn title() -> Seq<char> {
        "struct LocalCommandAutocompleteResponse"@
    }

    open spec fn names() -> Seq<Seq<char>> {
        seq!["commands"@, "most_likely_action"@, "raw_output"@, "source"@, "parse_status"@]
    }

    open spec fn needed() -> nat {
        3
    }

    open spec fn may_lack(name: Seq<char>) -> bool {
        name == "source"@ || name == "parse_status"@
    }

    open spec fn fault(name: Seq<char>, member: JsonView) -> Option<Seq<char>> {
        if name == "commands"@ {
            text_list_fault(name, member)
        } else {
            text_fault(name, member)
        }
    }

    proof fn names_are_sound() {
        lemma_response_names();
    }

    fn expected() -> (r: &'static str) {
        "struct LocalCommandAutocompleteResponse"
    }

    fn member_names() -> (r: Vec<&'static str>) {
        let r: Vec<&'static str> = vec![
            "commands",
            "most_likely_action",
            "raw_output",
            "source",
            "parse_status",
        ];
        assert(names_of(r@) =~= Self::names());
        r
    }

    fn needed_count() -> (r: usize) {
        3
    }

    fn can_lack(name: &str) -> (r: bool) {
        same(name, "source") || same(name, "parse_status")
    }

    fn find_fault(name: &str, member: &JsonValue) -> (r: Option<String>) {
        if same(name, "commands") {
            find_text_list_fault(name, member)
        } else {
            find_text_fault(name, member)
        }
    }
}

/// A document writes no answer exactly where it has not the shape of one.
pub proof fn law_response_shape(value: JsonView)
    ensures
        read_response(value) is None <==> !has_shape::<ResponseShape>(value),
{
    let names = ResponseShape::names();
    lemma_response_names();
    assert(names[0] == "commands"@ && names[1] == "most_likely_action"@ && names[2]
        == "raw_output"@ && names[3] == "source"@ && names[4] == "parse_status"@);
    if let Some(object) = stated(value, names, 3) {
        if let Some(JsonView::Array(items)) = object.get("commands"@) {
            lemma_texts_read("commands"@, items);
        }
        if read_response(value) is Some {
            assert forall|k: int| 0 <= k < names.len() implies member_fits::<ResponseShape>(
                object,
                #[trigger] names[k],
            ) by {
                assert(k == 0 || k == 1 || k == 2 || k == 3 || k == 4);
            }
        }
    }
}

/// The answer that a text writes, or what is said of a text that writes none.
pub open spec fn read_response_text(text: Seq<char>) -> Result<ResponseView, Seq<char>> {
    match members_parse(text) {
        Err(error) => Err(undecodable(error)),
        Ok(value) => match read_response(value) {
            Some(response) => Ok(response),
            None => Err(undecodable(shape_error::<ResponseShape>(value))),
        },
    }
}

/// The model of an attempt to read an answer.
pub open spec fn response_result(r: Result<LocalCommandAutocompleteResponse, String>) -> Result<
    ResponseView,
    Seq<char>,
> {
    match r {
        Ok(r) => Ok(response_view(Some(r))->0),
        Err(error) => Err(error@),
    }
}

/// The same, of an object that states no member twice.
pub open spec fn response_members(value: JsonView) -> Option<ResponseView> {
    match (
        text_list(value, "commands"@),
        value.get_text("most_likely_action"@),
        value.get_text("raw_output"@),
        default_text(value, "source"@),
        default_text(value, "parse_status"@),
    ) {
        (
            Some(commands),
            Some(most_likely_action),
            Some(raw_output),
            Some(source),
            Some(parse_status),
        ) => Some(
            ResponseView { commands, most_likely_action, raw_output, source, parse_status },
        ),
        _ => None,
    }
}

/// A suggestion starts with what the user typed, and adds to it.
pub proof fn law_suggestion_continues_input(action: Seq<char>, prefix: Seq<char>)
    ensures
        suggestion(action, prefix) matches Some(command) ==> prefix.is_prefix_of(command)
            && prefix.len() < command.len() && !command.contains('\n'),
{
    if let Some(command) = suggestion(action, prefix) {
        if prefix.len() == command.len() {
            assert(command.subrange(0, command.len() as int) =~= command);
        }
    }
}

/// The address of the service's suggestions.
pub fn autocomplete_url(root_url: &str) -> (r: String)
    ensures
        r@ == trim_end_char(root_url@, '/') + "/ai/local-command-autocomplete"@,
{
    concat2(trimmed_end_char(root_url, '/'), "/ai/local-command-autocomplete")
}

/// The model of a list of names and values.
pub open spec fn header_views(headers: Seq<(String, String)>) -> Seq<(Seq<char>, Seq<char>)> {
    headers.map_values(|h: (String, String)| (h.0@, h.1@))
}

/// A header with a value, where there is one.
pub open spec fn header_of(name: Seq<char>, value: Option<Seq<char>>) -> Seq<
    (Seq<char>, Seq<char>),
> {
    match value {
        Some(value) => seq![(name, value)],
        None => Seq::empty(),
    }
}

fn push_header(headers: &mut Vec<(String, String)>, name: &str, value: &Option<String>)
    ensures
        header_views(final(headers)@) == header_views(old(headers)@) + header_of(
            name@,
            opt_view(*value),
        ),
{
    let ghost before = header_views(headers@);
    match value {
        Some(value) => {
            headers.push((name.to_owned(), value.clone()));
            assert(header_views(headers@) =~= before + seq![(name@, value@)]);
        },
        None => {
            assert(before + Seq::empty() =~= before);
        },
    }
}

impl LocalCommandAutocompleteProviderSettings {
    /// The headers by which the service learns of the provider, besides the bearer token.
    pub fn headers(&self) -> (r: Vec<(String, String)>)
        ensures
            header_views(r@) == header_of(
                "X-Warp-OpenAI-Base-URL"@,
                opt_view(self.openai_base_url),
            ) + header_of("X-Warp-Local-Model-Aliases"@, opt_view(self.local_model_aliases)),
    {
        let mut headers: Vec<(String, String)> = Vec::new();
        push_header(&mut headers, "X-Warp-OpenAI-Base-URL", &self.openai_base_url);
        assert(header_views(headers@) =~= header_of(
            "X-Warp-OpenAI-Base-URL"@,
            opt_view(self.openai_base_url),
        ));
        push_header(&mut headers, "X-Warp-Local-Model-Aliases", &self.local_model_aliases);
        headers
    }
}

/// A member with a text, where there is one.
pub open spec fn text_member(key: Seq<char>, text: Option<Seq<char>>) -> Seq<
    (Seq<char>, JsonView),
> {
    match text {
        Some(text) => seq![(key, JsonView::Text(text))],
        None => Seq::empty(),
    }
}

/// A member with a list of texts, where the list is not empty.
pub open spec fn texts_member(key: Seq<char>, texts: Seq<Seq<char>>) -> Seq<
    (Seq<char>, JsonView),
> {
    if texts.len() == 0 {
        Seq::empty()
    } else {
        seq![(key, text_array(texts))]
    }
}

impl AutocompleteBlockContext {
    /// The document that describes the command; what is unknown is left out.
    pub open spec fn document(&self) -> JsonView {
        JsonView::Object(
            seq![("command"@, JsonView::Text(self.command@))] + text_member(
                "output"@,
                opt_view(self.output),
            ) + text_member("cwd"@, opt_view(self.cwd)) + (match self.exit_code {
                Some(code) => seq![
                    ("exit_code"@, JsonView::Number(signed_number(code as i64))),
                ],
                None => Seq::empty(),
            }),
        )
    }

    /// The document that describes the command.
    pub fn to_json(&self) -> (r: JsonValue)
        ensures
            r@ == self.document(),
    {
        broadcast use JsonValue::lemma_object_view;

        let mut members: Vec<(String, JsonValue)> = Vec::new();
        members.push(("command".to_owned(), JsonValue::Text(self.command.clone())));
        assert(entry_views(members@) =~= seq![("command"@, JsonView::Text(self.command@))]);
        push_text_member(&mut members, "output", &self.output);
        push_text_member(&mut members, "cwd", &self.cwd);
        let ghost before = entry_views(members@);
        match self.exit_code {
            Some(code) => {
                members.push(("exit_code".to_owned(), JsonValue::signed(code as i64)));
                assert(entry_views(members@) =~= before + seq![
                    ("exit_code"@, JsonView::Number(signed_number(code as i64))),
                ]);
            },
            None => {
                assert(before + Seq::empty() =~= before);
            },
        }
        JsonValue::Object(members)
    }
}

fn push_text_member(members: &mut Vec<(String, JsonValue)>, key: &str, text: &Option<String>)
    ensures
        entry_views(final(members)@) == entry_views(old(members)@) + text_member(
            key@,
            opt_view(*text),
        ),
{
    let ghost before = entry_views(members@);
    match text {
        Some(text) => {
            members.push((key.to_owned(), JsonValue::Text(text.clone())));
            assert(entry_views(members@) =~= before + seq![(key@, JsonView::Text(text@))]);
        },
        None => {
            assert(before + Seq::empty() =~= before);
        },
    }
}

fn push_texts_member(members: &mut Vec<(String, JsonValue)>, key: &str, texts: &Vec<String>)
    ensures
        entry_views(final(members)@) == entry_views(old(members)@) + texts_member(
            key@,
            views(texts@),
        ),
{
    let ghost before = entry_views(members@);
    let ghost all = views(texts@);
    if texts.len() == 0 {
        assert(before + Seq::empty() =~= before);
        return;
    }
    members.push((key.to_owned(), text_array_of(texts)));
    assert(entry_views(members@) =~= before + seq![(key@, text_array(all))]);
}

/// The documents of commands that were run before.
pub open spec fn block_documents(blocks: Seq<AutocompleteBlockContext>) -> Seq<JsonView> {
    blocks.map_values(|b: AutocompleteBlockContext| b.document())
}

impl LocalCommandAutocompleteRequest {
    /// The document that asks for a suggestion; what is unknown or empty is left out.
    pub open spec fn document(&self) -> JsonView {
        JsonView::Object(
            seq![("prefix"@, JsonView::Text(self.prefix@))] + text_member(
                "cwd"@,
                opt_view(self.cwd),
            ) + text_member("shell"@, opt_view(self.shell)) + text_member(
                "platform"@,
                opt_view(self.platform),
            ) + (if self.recent_blocks@.len() == 0 {
                Seq::empty()
            } else {
                seq![("recent_blocks"@, JsonView::Array(block_documents(self.recent_blocks@)))]
            }) + texts_member("history"@, views(self.history@)) + texts_member(
                "file_candidates"@,
                views(self.file_candidates@),
            ),
        )
    }

    /// The document that asks for a suggestion.
    pub fn to_json(&self) -> (r: JsonValue)
        ensures
            r@ == self.document(),
    {
        broadcast use {JsonValue::lemma_object_view, JsonValue::lemma_array_view};

        let mut members: Vec<(String, JsonValue)> = Vec::new();
        members.push(("prefix".to_owned(), JsonValue::Text(self.prefix.clone())));
        assert(entry_views(members@) =~= seq![("prefix"@, JsonView::Text(self.prefix@))]);
        push_text_member(&mut members, "cwd", &self.cwd);
        push_text_member(&mut members, "shell", &self.shell);
        push_text_member(&mut members, "platform", &self.platform);
        let ghost before = entry_views(members@);
        if self.recent_blocks.len() > 0 {
            let mut blocks: Vec<JsonValue> = Vec::new();
            let mut i: usize = 0;
            while i < self.recent_blocks.len()
                invariant
                    i <= self.recent_blocks@.len(),
                    blocks@.len() == i,
                    forall|j: int|
                        0 <= j < i ==> (#[trigger] blocks@[j])@
                            == self.recent_blocks@[j].document(),
                decreases self.recent_blocks@.len() - i,
            {
                blocks.push(self.recent_blocks[i].to_json());
                i = i + 1;
            }
            assert(json_views(blocks@) =~= block_documents(self.recent_blocks@));
            members.push(("recent_blocks".to_owned(), JsonValue::Array(blocks)));
            assert(entry_views(members@) =~= before + seq![
                ("recent_blocks"@, JsonView::Array(block_documents(self.recent_blocks@))),
            ]);
        } else {
            assert(before + Seq::empty() =~= before);
        }
        push_texts_member(&mut members, "history", &self.history);
        push_texts_member(&mut members, "file_candidates", &self.file_candidates);
        JsonValue::Object(members)
    }
}

/// The names of a directory's entries that go into a request: the first ones, up to a limit.
pub fn file_candidates_for_context(names: &Vec<String>) -> (r: Vec<String>)
    ensures
        views(r@) == views(names@).take(
            if names@.len() < MAX_FILE_CANDIDATES {
                names@.len() as int
            } else {
                MAX_FILE_CANDIDATES as int
            },
        ),
{
    let ghost all = views(names@);
    let mut r: Vec<String> = Vec::new();
    let mut i: usize = 0;
    while i < names.len() && i < MAX_FILE_CANDIDATES
        invariant
            i <= names@.len(),
            i <= MAX_FILE_CANDIDATES,
            all == views(names@),
            views(r@) == all.take(i as int),
        decreases names@.len() - i,
    {
        let ghost done = views(r@);
        r.push(names[i].clone());
        assert(views(r@) =~= done.push(all[i as int]));
        assert(all.take(i as int + 1) =~= done.push(all[i as int]));
        i = i + 1;
    }
    r
}

} // verus!
