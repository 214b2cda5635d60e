//! Prompts to Codex and the parameters of the requests that carry them.
use crate::codex_app_server::wire::or_else;
use crate::json::{JsonValue, JsonView, entry_views, json_views};
use crate::text::{
    concat2, is_space, is_space_char, lemma_trim_edges, lemma_trim_idempotent,
    lemma_trim_of_trimmed, lemma_trim_start_head, lemma_trim_start_suffix, opt_str_view,
    strip_prefix, trim, trim_start, trimmed, trimmed_start,
};
use vstd::prelude::*;

verus! {

/// How a prompt wants Codex to work.
#[derive(Debug, Clone, Copy, PartialEq, Eq, Structural)]
pub enum CodexPromptCollaborationMode {
    Plan,
}

/// A prompt, and how it wants Codex to work.
#[derive(Debug, PartialEq, Eq)]
pub struct CodexPromptRequest {
    pub prompt: String,
    pub collaboration_mode: Option<CodexPromptCollaborationMode>,
}

/// The model of a `CodexPromptRequest`.
pub struct PromptView {
    pub prompt: Seq<char>,
    pub collaboration_mode: Option<CodexPromptCollaborationMode>,
}

impl CodexPromptRequest {
    pub open spec fn view(&self) -> PromptView {
        PromptView { prompt: self.prompt@, collaboration_mode: self.collaboration_mode }
    }
}

/// The model of an optional prompt.
pub open spec fn opt_prompt_view(request: Option<CodexPromptRequest>) -> Option<PromptView> {
    match request {
        Some(request) => Some(request@),
        None => None,
    }
}

/// What follows a slash command: the command is the whole prompt, or a blank stands behind it.
pub open spec fn after_command(prompt: Seq<char>, command: Seq<char>) -> Option<Seq<char>> {
    let rest = prompt.skip(command.len() as int);
    if command.is_prefix_of(prompt) && (rest.len() == 0 || is_space(rest[0])) {
        Some(rest)
    } else {
        None
    }
}

/// The prompt that the user's text stands for. `/plan` and `/codex-plan` ask for a plan; a blank
/// text is no prompt.
pub open spec fn prompt_of(text: Seq<char>) -> Option<PromptView> {
    let text = trim(text);
    if text.len() == 0 {
        None
    } else {
        match or_else(after_command(text, "/plan"@), after_command(text, "/codex-plan"@)) {
            Some(rest) => Some(
                PromptView {
                    prompt: trim_start(rest),
                    collaboration_mode: Some(CodexPromptCollaborationMode::Plan),
                },
            ),
            None => Some(PromptView { prompt: text, collaboration_mode: None }),
        }
    }
}

/// A prompt as the conversation shows it.
pub open spec fn shown_prompt(request: PromptView) -> Seq<char> {
    match request.collaboration_mode {
        Some(CodexPromptCollaborationMode::Plan) => if request.prompt.len() == 0 {
            "/plan"@
        } else {
            "/plan "@ + request.prompt
        },
        None => request.prompt,
    }
}

/// What follows a slash command.
pub fn strip_codex_command<'a>(prompt: &'a str, command: &str) -> (r: Option<&'a str>)
    ensures
        opt_str_view(r) == after_command(prompt@, command@),
{
    match strip_prefix(prompt, command) {
        Some(rest) => {
            if rest.unicode_len() == 0 || is_space_char(rest.get_char(0)) {
                Some(rest)
            } else {
                None
            }
        },
        None => None,
    }
}

/// The prompt that the user's text stands for.
pub fn parse_codex_prompt_request(prompt: &str) -> (r: Option<CodexPromptRequest>)
    ensures
        opt_prompt_view(r) == prompt_of(prompt@),
{
    let text = trimmed(prompt);
    if text.unicode_len() == 0 {
        return None;
    }
    let rest = match strip_codex_command(text, "/plan") {
        Some(rest) => Some(rest),
        None => strip_codex_command(text, "/codex-plan"),
    };
    match rest {
        Some(rest) => Some(
            CodexPromptRequest {
                prompt: trimmed_start(rest).to_owned(),
                collaboration_mode: Some(CodexPromptCollaborationMode::Plan),
            },
        ),
        None => Some(CodexPromptRequest { prompt: text.to_owned(), collaboration_mode: None }),
    }
}

/// A prompt as the conversation shows it.
pub fn display_codex_prompt_request(request: &CodexPromptRequest) -> (r: String)
    ensures
        r@ == shown_prompt(request@),
{
    match request.collaboration_mode {
        Some(CodexPromptCollaborationMode::Plan) => {
            if request.prompt.as_str().is_empty() {
                "/plan".to_owned()
            } else {
                concat2("/plan ", request.prompt.as_str())
            }
        },
        None => request.prompt.clone(),
    }
}

/// The prompt that is shown for a text stands for the same request as the text.
pub proof fn law_shown_prompt_reads_back(text: Seq<char>)
    ensures
        prompt_of(text) matches Some(request) ==> prompt_of(shown_prompt(request)) == Some(request),
{
    let t = trim(text);
    lemma_trim_idempotent(text);
    if t.len() > 0 {
        let request = prompt_of(text)->0;
        reveal_strlit("/plan");
        reveal_strlit("/plan ");
        if request.collaboration_mode is Some {
            let rest = or_else(after_command(t, "/plan"@), after_command(t, "/codex-plan"@))->0;
            let prompt = trim_start(rest);
            let shown = shown_prompt(request);
            lemma_trim_edges(text);
            lemma_trim_start_suffix(rest);
            if prompt.len() == 0 {
                assert(shown == "/plan"@);
                assert(!is_space(shown[0]) && !is_space(shown.last()));
                lemma_trim_of_trimmed(shown);
                assert(shown.skip(5).len() == 0);
                assert("/plan"@.is_prefix_of(shown));
                assert(shown.skip(5) =~= prompt);
                assert(trim_start(shown.skip(5)) == prompt);
            } else {
                assert(prompt.last() == rest.last());
                assert(rest.last() == t.last());
                assert(!is_space(t.last()));
                assert(shown.last() == prompt.last());
                assert(!is_space(shown[0]));
                lemma_trim_of_trimmed(shown);
                assert("/plan"@.is_prefix_of(shown));
                let again = shown.skip(5);
                assert(again[0] == ' ');
                assert(after_command(shown, "/plan"@) == Some(again));
                assert(again.skip(1) =~= prompt);
                assert(trim_start(again) == trim_start(prompt));
                lemma_trim_start_head(rest);
            }
        }
    }
}

/// The parameter `name`, where it has a value.
pub open spec fn optional_entry(name: Seq<char>, value: Option<Seq<char>>) -> Seq<
    (Seq<char>, JsonView),
> {
    match value {
        Some(value) => seq![(name, JsonView::Text(value))],
        None => Seq::empty(),
    }
}

/// The parameters that say who reviews approvals, and when they are asked for.
pub open spec fn approval_entries() -> Seq<(Seq<char>, JsonView)> {
    seq![
        ("approvalPolicy"@, JsonView::Text("on-request"@)),
        ("approvalsReviewer"@, JsonView::Text("user"@)),
    ]
}

/// The parameters that start a thread.
pub open spec fn thread_start_of(model_id: Option<Seq<char>>, cwd: Option<Seq<char>>) -> JsonView {
    JsonView::Object(
        approval_entries() + optional_entry("model"@, model_id) + optional_entry("cwd"@, cwd),
    )
}

/// The parameters that resume a thread.
pub open spec fn thread_resume_of(thread_id: Seq<char>, model_id: Option<Seq<char>>) -> JsonView {
    JsonView::Object(
        seq![("threadId"@, JsonView::Text(thread_id))] + approval_entries() + optional_entry(
            "model"@,
            model_id,
        ),
    )
}

/// The parameters that archive a thread.
pub open spec fn thread_archive_of(thread_id: Seq<char>) -> JsonView {
    JsonView::Object(seq![("threadId"@, JsonView::Text(thread_id))])
}

/// The setting that asks Codex for a plan.
pub open spec fn collaboration_mode_of(model_id: Seq<char>) -> JsonView {
    JsonView::Object(
        seq![
            ("mode"@, JsonView::Text("plan"@)),
            (
                "settings"@,
                JsonView::Object(
                    seq![
                        ("model"@, JsonView::Text(model_id)),
                        ("developer_instructions"@, JsonView::Null),
                        ("reasoning_effort"@, JsonView::Null),
                    ],
                ),
            ),
        ],
    )
}

/// The input of a turn: one text.
pub open spec fn turn_input_of(prompt: Seq<char>) -> JsonView {
    JsonView::Array(
        seq![
            JsonView::Object(
                seq![("type"@, JsonView::Text("text"@)), ("text"@, JsonView::Text(prompt))],
            ),
        ],
    )
}

/// The parameters that start a turn. A collaboration mode is sent only with a model: the mode's
/// own, else the thread's.
pub open spec fn turn_start_of(
    thread_id: Seq<char>,
    prompt: Seq<char>,
    model_id: Option<Seq<char>>,
    mode: Option<CodexPromptCollaborationMode>,
    mode_model_id: Option<Seq<char>>,
) -> JsonView {
    let mode_entry: Seq<(Seq<char>, JsonView)> = match (mode, or_else(mode_model_id, model_id)) {
        (Some(_), Some(model)) => seq![("collaborationMode"@, collaboration_mode_of(model))],
        _ => Seq::empty(),
    };
    JsonView::Object(
        seq![("threadId"@, JsonView::Text(thread_id))] + approval_entries() + optional_entry(
            "model"@,
            model_id,
        ) + mode_entry + seq![("input"@, turn_input_of(prompt))],
    )
}

/// The parameters with which a client introduces itself.
pub open spec fn initialize_of(version: Seq<char>) -> JsonView {
    JsonView::Object(
        seq![
            (
                "clientInfo"@,
                JsonView::Object(
                    seq![
                        ("name"@, JsonView::Text("Slipstream"@)),
                        ("version"@, JsonView::Text(version)),
                    ],
                ),
            ),
            ("capabilities"@, JsonView::Object(seq![("experimentalApi"@, JsonView::Bool(true))])),
        ],
    )
}

/// Adds a text parameter.
fn push_text(entries: &mut Vec<(String, JsonValue)>, name: &str, value: &str)
    ensures
        entry_views(final(entries)@) == entry_views(old(entries)@).push(
            (name@, JsonView::Text(value@)),
        ),
{
    let ghost before = entry_views(entries@);
    entries.push((name.to_owned(), JsonValue::Text(value.to_owned())));
    assert(entry_views(entries@) =~= before.push((name@, JsonView::Text(value@))));
}

/// Adds a text parameter, where it has a value.
fn push_optional(entries: &mut Vec<(String, JsonValue)>, name: &str, value: Option<&str>)
    ensures
        entry_views(final(entries)@) == entry_views(old(entries)@) + optional_entry(
            name@,
            opt_str_view(value),
        ),
{
    let ghost before = entry_views(entries@);
    if let Some(value) = value {
        push_text(entries, name, value);
    }
    assert(entry_views(entries@) =~= before + optional_entry(name@, opt_str_view(value)));
}

/// Adds a parameter.
fn push_value(entries: &mut Vec<(String, JsonValue)>, name: &str, value: JsonValue)
    ensures
        entry_views(final(entries)@) == entry_views(old(entries)@).push((name@, value@)),
{
    let ghost before = entry_views(entries@);
    entries.push((name.to_owned(), value));
    assert(entry_views(entries@) =~= before.push((name@, value@)));
}

/// Adds the parameters that say who reviews approvals.
fn push_approval(entries: &mut Vec<(String, JsonValue)>)
    ensures
        entry_views(final(entries)@) == entry_views(old(entries)@) + approval_entries(),
{
    let ghost before = entry_views(entries@);
    push_text(entries, "approvalPolicy", "on-request");
    push_text(entries, "approvalsReviewer", "user");
    assert(entry_views(entries@) =~= before + approval_entries());
}

/// A JSON object with the entries.
fn object_of(entries: Vec<(String, JsonValue)>) -> (r: JsonValue)
    ensures
        r@ == JsonView::Object(entry_views(entries@)),
{
    broadcast use JsonValue::lemma_object_view;

    JsonValue::Object(entries)
}

/// The parameters that start a thread.
pub fn thread_start_params(model_id: Option<&str>, cwd: Option<&str>) -> (r: JsonValue)
    ensures
        r@ == thread_start_of(opt_str_view(model_id), opt_str_view(cwd)),
{
    let mut entries: Vec<(String, JsonValue)> = Vec::new();
    let ghost none = entry_views(entries@);
    push_approval(&mut entries);
    push_optional(&mut entries, "model", model_id);
    push_optional(&mut entries, "cwd", cwd);
    assert(none + approval_entries() =~= approval_entries());
    object_of(entries)
}

/// The parameters that resume a thread.
pub fn thread_resume_params(thread_id: &str, model_id: Option<&str>) -> (r: JsonValue)
    ensures
        r@ == thread_resume_of(thread_id@, opt_str_view(model_id)),
{
    let mut entries: Vec<(String, JsonValue)> = Vec::new();
    push_text(&mut entries, "threadId", thread_id);
    assert(entry_views(entries@) =~= seq![("threadId"@, JsonView::Text(thread_id@))]);
    push_approval(&mut entries);
    push_optional(&mut entries, "model", model_id);
    object_of(entries)
}

/// The parameters that archive a thread.
pub fn thread_archive_params(thread_id: &str) -> (r: JsonValue)
    ensures
        r@ == thread_archive_of(thread_id@),
{
    let mut entries: Vec<(String, JsonValue)> = Vec::new();
    push_text(&mut entries, "threadId", thread_id);
    assert(entry_views(entries@) =~= seq![("threadId"@, JsonView::Text(thread_id@))]);
    object_of(entries)
}

/// The setting that asks Codex for a plan.
pub fn codex_collaboration_mode_params(
    collaboration_mode: CodexPromptCollaborationMode,
    model_id: &str,
) -> (r: JsonValue)
    ensures
        r@ == collaboration_mode_of(model_id@),
{
    match collaboration_mode {
        CodexPromptCollaborationMode::Plan => {
            let mut settings: Vec<(String, JsonValue)> = Vec::new();
            push_text(&mut settings, "model", model_id);
            push_value(&mut settings, "developer_instructions", JsonValue::Null);
            push_value(&mut settings, "reasoning_effort", JsonValue::Null);
            assert(entry_views(settings@) =~= seq![
                ("model"@, JsonView::Text(model_id@)),
                ("developer_instructions"@, JsonView::Null),
                ("reasoning_effort"@, JsonView::Null),
            ]);
            let settings = object_of(settings);
            let mut entries: Vec<(String, JsonValue)> = Vec::new();
            push_text(&mut entries, "mode", "plan");
            push_value(&mut entries, "settings", settings);
            let r = object_of(entries);
            assert(r@->Object_0 =~= collaboration_mode_of(model_id@)->Object_0);
            r
        },
    }
}

/// The input of a turn.
fn turn_input(prompt: &str) -> (r: JsonValue)
    ensures
        r@ == turn_input_of(prompt@),
{
    broadcast use JsonValue::lemma_array_view;

    let mut part: Vec<(String, JsonValue)> = Vec::new();
    push_text(&mut part, "type", "text");
    push_text(&mut part, "text", prompt);
    assert(entry_views(part@) =~= seq![
        ("type"@, JsonView::Text("text"@)),
        ("text"@, JsonView::Text(prompt@)),
    ]);
    let part = object_of(part);
    let mut input: Vec<JsonValue> = Vec::new();
    input.push(part);
    assert(json_views(input@) =~= seq![part@]);
    JsonValue::Array(input)
}

/// The parameters that start a turn.
pub fn turn_start_params(
    thread_id: &str,
    prompt: &str,
    model_id: Option<&str>,
    collaboration_mode: Option<CodexPromptCollaborationMode>,
    collaboration_mode_model_id: Option<&str>,
) -> (r: JsonValue)
    ensures
        r@ == turn_start_of(
            thread_id@,
            prompt@,
            opt_str_view(model_id),
            collaboration_mode,
            opt_str_view(collaboration_mode_model_id),
        ),
{
    let mut entries: Vec<(String, JsonValue)> = Vec::new();
    push_text(&mut entries, "threadId", thread_id);
    assert(entry_views(entries@) =~= seq![("threadId"@, JsonView::Text(thread_id@))]);
    push_approval(&mut entries);
    push_optional(&mut entries, "model", model_id);
    let ghost before = entry_views(entries@);
    let mode_model = match collaboration_mode_model_id {
        Some(id) => Some(id),
        None => model_id,
    };
    if let Some(mode) = collaboration_mode {
        if let Some(id) = mode_model {
            push_value(&mut entries, "collaborationMode", codex_collaboration_mode_params(mode, id));
        }
    }
    let ghost mode_entry: Seq<(Seq<char>, JsonView)> = match (
        collaboration_mode,
        or_else(opt_str_view(collaboration_mode_model_id), opt_str_view(model_id)),
    ) {
        (Some(_), Some(model)) => seq![("collaborationMode"@, collaboration_mode_of(model))],
        _ => Seq::empty(),
    };
    assert(entry_views(entries@) =~= before + mode_entry);
    push_value(&mut entries, "input", turn_input(prompt));
    assert(entry_views(entries@) =~= before + mode_entry + seq![
        ("input"@, turn_input_of(prompt@)),
    ]);
    object_of(entries)
}

/// The parameters with which a client introduces itself.
pub fn initialize_params(version: &str) -> (r: JsonValue)
    ensures
        r@ == initialize_of(version@),
{
    broadcast use JsonValue::lemma_object_view;

    let mut info: Vec<(String, JsonValue)> = Vec::new();
    push_text(&mut info, "name", "Slipstream");
    push_text(&mut info, "version", version);
    assert(entry_views(info@) =~= seq![
        ("name"@, JsonView::Text("Slipstream"@)),
        ("version"@, JsonView::Text(version@)),
    ]);
    let mut capabilities: Vec<(String, JsonValue)> = Vec::new();
    push_value(&mut capabilities, "experimentalApi", JsonValue::Bool(true));
    assert(entry_views(capabilities@) =~= seq![("experimentalApi"@, JsonView::Bool(true))]);
    let mut entries: Vec<(String, JsonValue)> = Vec::new();
    push_value(&mut entries, "clientInfo", object_of(info));
    push_value(&mut entries, "capabilities", object_of(capabilities));
    let r = object_of(entries);
    assert(r@->Object_0 =~= initialize_of(version@)->Object_0);
    r
}

} // verus!
