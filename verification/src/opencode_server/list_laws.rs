//! What holds of the messages, the models and the sessions of an OpenCode server.
use crate::json::{JsonView, compact_text, lookup};
use crate::opencode_server::catalog::{
    law_each_session_listed_once, law_session_list_in_order, matched_directories,
    new_session_directory, read_summary, session_position, session_precedes, session_with_id,
    with_sessions, with_summary,
};
use crate::opencode_server::effect::{answers_document, prompt_document};
use crate::opencode_server::message::{
    file_name, file_names, item_of, items_of_messages, message_texts, messages_of, part_text,
    patch_text, status_label, statuses_of, subtask_text, text_of_part, texts_of_parts,
    tool_state_text, tool_text,
};
use crate::opencode_server::pending::{
    Pending, first_of_session, request_with_id, sorted_out, without_request,
};
use crate::opencode_server::provider::{
    ProviderListView, ProviderModelView, ProviderView, model_list, model_precedes, offered_model,
    offered_models, provider_of, providers_of,
};
use crate::opencode_server::types::{ModelInfoView, SessionView};
use crate::opencode_server::wire::{
    Decoded, MessageWireView, SessionWireView, decoded_all, listed_summary, message_of,
};
use crate::ordered::{is_keyed, law_insert_keyed, law_sorting_keeps_items};
use crate::path::PathStyle;
use crate::text::{is_blank, join, lower, text_lt};
use crate::text_map::value_under;
use vstd::prelude::*;

verus! {

/// Every session whose status says something is listed with it, in order.
pub proof fn law_every_status_is_listed(items: Seq<(Seq<char>, JsonView)>)
    ensures
        statuses_of(items) == items.filter(
            |x: (Seq<char>, JsonView)| status_label(x.1) is Some
        ).map_values(
            |x: (Seq<char>, JsonView)| (x.0, status_label(x.1)->0),
        ),
    decreases items.len(),
{
    reveal(Seq::filter);
    let keep = |x: (Seq<char>, JsonView)| status_label(x.1) is Some;
    let make = |x: (Seq<char>, JsonView)| (x.0, status_label(x.1)->0);
    if items.len() > 0 {
        law_every_status_is_listed(items.drop_last());
        assert(items.filter(keep).map_values(make) =~= statuses_of(items));
    } else {
        assert(items.filter(keep).map_values(make) =~= Seq::empty());
    }
}

/// Every file that has a name is named, in order.
pub proof fn law_every_file_is_named(items: Seq<JsonView>)
    ensures
        file_names(items) == items.filter(|x: JsonView| file_name(x) is Some).map_values(
            |x: JsonView| file_name(x)->0,
        ),
    decreases items.len(),
{
    reveal(Seq::filter);
    let keep = |x: JsonView| file_name(x) is Some;
    let make = |x: JsonView| file_name(x)->0;
    if items.len() > 0 {
        law_every_file_is_named(items.drop_last());
        assert(items.filter(keep).map_values(make) =~= file_names(items));
    } else {
        assert(items.filter(keep).map_values(make) =~= Seq::empty());
    }
}

/// Every part that says something is told, in order.
pub proof fn law_every_part_is_told(role: Seq<char>, items: Seq<JsonView>)
    ensures
        texts_of_parts(role, items) == items.filter(
            |x: JsonView| text_of_part(role, x) is Some
        ).map_values(
            |x: JsonView| text_of_part(role, x)->0,
        ),
    decreases items.len(),
{
    reveal(Seq::filter);
    let keep = |x: JsonView| text_of_part(role, x) is Some;
    let make = |x: JsonView| text_of_part(role, x)->0;
    if items.len() > 0 {
        law_every_part_is_told(role, items.drop_last());
        assert(items.filter(keep).map_values(make) =~= texts_of_parts(role, items));
    } else {
        assert(items.filter(keep).map_values(make) =~= Seq::empty());
    }
}

/// Every message that says something is an item, in order.
pub proof fn law_every_message_is_an_item(items: Seq<MessageWireView>)
    ensures
        items_of_messages(items) == items.filter(
            |x: MessageWireView| item_of(x) is Some
        ).map_values(
            |x: MessageWireView| item_of(x)->0,
        ),
    decreases items.len(),
{
    reveal(Seq::filter);
    let keep = |x: MessageWireView| item_of(x) is Some;
    let make = |x: MessageWireView| item_of(x)->0;
    if items.len() > 0 {
        law_every_message_is_an_item(items.drop_last());
        assert(items.filter(keep).map_values(make) =~= items_of_messages(items));
    } else {
        assert(items.filter(keep).map_values(make) =~= Seq::empty());
    }
}

/// Messages are read where each of them can be, and then all of them, in order.
pub proof fn law_every_message_is_read(items: Seq<JsonView>)
    ensures
        messages_of(items) is Some <==> forall|i: int|
            0 <= i < items.len() ==> message_of(#[trigger] items[i]) is Some,
        messages_of(items) matches Some(all) ==> all.len() == items.len() && forall|i: int|
            0 <= i < items.len() ==> message_of(#[trigger] items[i]) == Some(all[i]),
    decreases items.len(),
{
    if items.len() > 0 {
        let front = items.drop_last();
        let n = items.len() - 1;
        law_every_message_is_read(front);
        assert(items[n] == items.last());
        assert(forall|i: int| 0 <= i < n ==> front[i] == #[trigger] items[i]);
        if forall|i: int| 0 <= i < items.len() ==> message_of(#[trigger] items[i]) is Some {
            assert forall|i: int| 0 <= i < front.len() implies message_of(
                #[trigger] front[i]
            ) is Some by {
                assert(front[i] == items[i]);
            }
        }
        if let Some(all) = messages_of(items) {
            let before = messages_of(front)->0;
            assert forall|i: int| 0 <= i < items.len() implies message_of(
                #[trigger] items[i]
            ) == Some(all[i]) by {
                if i < n {
                    assert(front[i] == items[i]);
                    assert(all[i] == before[i]);
                }
            }
        }
    }
}

/// Providers are read where each of them can be, and then all of them, in order.
pub proof fn law_every_provider_is_read(items: Seq<JsonView>)
    ensures
        providers_of(items) is Some <==> forall|i: int|
            0 <= i < items.len() ==> provider_of(#[trigger] items[i]) is Some,
        providers_of(items) matches Some(all) ==> all.len() == items.len() && forall|i: int|
            0 <= i < items.len() ==> provider_of(#[trigger] items[i]) == Some(all[i]),
    decreases items.len(),
{
    if items.len() > 0 {
        let front = items.drop_last();
        let n = items.len() - 1;
        law_every_provider_is_read(front);
        assert(items[n] == items.last());
        assert(forall|i: int| 0 <= i < n ==> front[i] == #[trigger] items[i]);
        if forall|i: int| 0 <= i < items.len() ==> provider_of(#[trigger] items[i]) is Some {
            assert forall|i: int| 0 <= i < front.len() implies provider_of(
                #[trigger] front[i]
            ) is Some by {
                assert(front[i] == items[i]);
            }
        }
        if let Some(all) = providers_of(items) {
            let before = providers_of(front)->0;
            assert forall|i: int| 0 <= i < items.len() implies provider_of(
                #[trigger] items[i]
            ) == Some(all[i]) by {
                if i < n {
                    assert(front[i] == items[i]);
                    assert(all[i] == before[i]);
                }
            }
        }
    }
}

/// Values are read where each of the documents writes one, and then all of them, in order.
pub proof fn law_every_value_is_read<T: Decoded>(items: Seq<JsonView>)
    ensures
        decoded_all::<T>(items) is Some <==> forall|i: int|
            0 <= i < items.len() ==> T::decoded(#[trigger] items[i]) is Some,
        decoded_all::<T>(items) matches Some(all) ==> all.len() == items.len() && forall|i: int|
            0 <= i < items.len() ==> T::decoded(#[trigger] items[i]) == Some(all[i]),
    decreases items.len(),
{
    if items.len() > 0 {
        let front = items.drop_last();
        let n = items.len() - 1;
        law_every_value_is_read::<T>(front);
        assert(items[n] == items.last());
        assert(forall|i: int| 0 <= i < n ==> front[i] == #[trigger] items[i]);
        if forall|i: int| 0 <= i < items.len() ==> T::decoded(#[trigger] items[i]) is Some {
            assert forall|i: int| 0 <= i < front.len() implies T::decoded(
                #[trigger] front[i]
            ) is Some by {
                assert(front[i] == items[i]);
            }
        }
        if let Some(all) = decoded_all::<T>(items) {
            let before = decoded_all::<T>(front)->0;
            assert forall|i: int| 0 <= i < items.len() implies T::decoded(
                #[trigger] items[i]
            ) == Some(all[i]) by {
                if i < n {
                    assert(front[i] == items[i]);
                    assert(all[i] == before[i]);
                }
            }
        }
    }
}

proof fn lemma_part_kinds()
    ensures
        "text"@ != "reasoning"@,
        "text"@ != "tool"@,
        "text"@ != "patch"@,
        "text"@ != "subtask"@,
        "text"@ != "agent"@,
        "text"@ != "error"@,
        "reasoning"@ != "tool"@,
        "reasoning"@ != "patch"@,
        "reasoning"@ != "subtask"@,
        "reasoning"@ != "agent"@,
        "reasoning"@ != "error"@,
        "tool"@ != "patch"@,
        "tool"@ != "subtask"@,
        "tool"@ != "agent"@,
        "tool"@ != "error"@,
        "patch"@ != "subtask"@,
        "patch"@ != "agent"@,
        "patch"@ != "error"@,
        "subtask"@ != "agent"@,
        "subtask"@ != "error"@,
        "agent"@ != "error"@,
{
    reveal_strlit("text");
    reveal_strlit("reasoning");
    reveal_strlit("tool");
    reveal_strlit("patch");
    reveal_strlit("subtask");
    reveal_strlit("agent");
    reveal_strlit("error");
    assert("text"@.len() == 4);
    assert("reasoning"@.len() == 9);
    assert("tool"@.len() == 4);
    assert("patch"@.len() == 5);
    assert("subtask"@.len() == 7);
    assert("agent"@.len() == 5);
    assert("error"@.len() == 5);
    assert("text"@[1] == 'e');
    assert("tool"@[1] == 'o');
    assert("patch"@[0] == 'p');
    assert("agent"@[0] == 'a');
    assert("error"@[0] == 'e');
}

/// What a part says goes by its kind: a text as it is, a thought, an agent and an error behind what
/// they are, a tool, a patch and a task by what they did.
pub proof fn law_part_by_kind(part: JsonView, text: Seq<char>)
    ensures
        part.get_text("type"@) == Some("text"@) ==> part_text(part) == part.get_text("text"@),
        part.get_text("type"@) == Some("reasoning"@) && part.get_text("text"@) == Some(text)
            ==> part_text(part) == Some("Reasoning: "@ + text),
        part.get_text("type"@) == Some("agent"@) && part.get_text("text"@) == Some(text)
            ==> part_text(part) == Some("Agent: "@ + text),
        part.get_text("type"@) == Some("error"@) && part.get_text("message"@) == Some(text)
            ==> part_text(part) == Some("Error: "@ + text),
        part.get_text("type"@) == Some("tool"@) ==> part_text(part) == tool_text(part),
        part.get_text("type"@) == Some("patch"@) ==> part_text(part) == Some(patch_text(part)),
        part.get_text("type"@) == Some("subtask"@) ==> part_text(part) == subtask_text(part),
        part.get_text("type"@) is None ==> part_text(part) is None,
{
    lemma_part_kinds();
}

/// Of the user's messages only the text is told.
pub proof fn law_parts_of_the_user(part: JsonView)
    ensures
        part.get_text("type"@) == Some("text"@) ==> text_of_part("user"@, part) == part.get_text(
            "text"@,
        ),
        part.get_text("type"@) != Some("text"@) ==> text_of_part("user"@, part) is None,
        forall|role: Seq<char>|
            role != "user"@ ==> #[trigger] text_of_part(role, part) == part_text(part),
{
}

proof fn lemma_tool_words()
    ensures
        "completed"@ != "error"@,
{
    reveal_strlit("completed");
    reveal_strlit("error");
    assert("completed"@.len() != "error"@.len());
}

/// A tool that is done tells its title and its output, a shell its command and its output, one that
/// failed its error, and any other how far it is.
pub proof fn law_tool(
    tool: Seq<char>,
    state: JsonView,
    title: Seq<char>,
    output: Seq<char>,
    command: Seq<char>,
    input: JsonView,
)
    requires
        !is_blank(output),
        !is_blank(command),
    ensures
        state.get_text("status"@) == Some("completed"@) && state.get("output"@) == Some(
            JsonView::Text(output),
        ) && state.get_text("title"@) == Some(title) && tool != "bash"@ ==> tool_state_text(
            tool,
            state,
        ) == "Tool "@ + tool + ": "@ + title + "\n"@ + output,
        state.get_text("status"@) == Some("completed"@) && state.get("output"@) is None
            && state.get_text("title"@) == Some(title) && tool != "bash"@ ==> tool_state_text(
            tool,
            state,
        ) == "Tool "@ + tool + ": "@ + title,
        state.get_text("status"@) == Some("completed"@) && state.get("output"@) == Some(
            JsonView::Text(output),
        ) && state.get_text("title"@) is None && tool != "bash"@ ==> tool_state_text(tool, state)
            == "Tool "@ + tool + " output:\n"@ + output,
        state.get_text("status"@) == Some("completed"@) && state.get("output"@) is None
            && state.get_text("title"@) is None && tool != "bash"@ ==> tool_state_text(tool, state)
            == "Tool "@ + tool + " completed."@,
        state.get_text("status"@) == Some("completed"@) && state.get("input"@) == Some(input)
            && input.get_text("command"@) == Some(command) && state.get("output"@) == Some(
            JsonView::Text(output),
        ) ==> tool_state_text("bash"@, state) == "commandExecution: "@ + command
            + "\n\ncommandExecution/output: "@ + compact_text(JsonView::Text(output)),
        state.get_text("status"@) == Some("completed"@) && state.get("input"@) == Some(input)
            && input.get_text("command"@) == Some(command) && state.get("output"@) is None
            ==> tool_state_text("bash"@, state) == "commandExecution: "@ + command,
        state.get_text("status"@) == Some("error"@) && state.get("error"@) == Some(
            JsonView::Text(output),
        ) ==> tool_state_text(tool, state) == "Tool "@ + tool + " error: "@ + output,
        state.get_text("status"@) matches Some(status) ==> (status != "completed"@ && status
            != "error"@ ==> tool_state_text(tool, state) == "Tool "@ + tool + ": "@ + status),
{
    lemma_tool_words();
}

/// A patch names all of its files, and a task what it is about.
pub proof fn law_patch_and_task(
    part: JsonView,
    files: Seq<JsonView>,
    text: Seq<char>,
    agent: Seq<char>,
)
    ensures
        part.get("files"@) == Some(JsonView::Array(files)) && file_names(files).len() > 0
            ==> patch_text(part) == "Patch applied: "@ + join(file_names(files), ", "@),
        part.get("files"@) is None ==> patch_text(part) == "Patch applied."@,
        part.get_text("description"@) == Some(text) && part.get_text("agent"@) is None
            ==> subtask_text(part) == Some("Subtask: "@ + text),
        part.get_text("description"@) == Some(text) && part.get_text("agent"@) == Some(agent)
            ==> subtask_text(part) == Some("Subtask ("@ + agent + "): "@ + text),
{
}

/// The texts of an agent's message are those of its parts, then its error, then that it was
/// aborted; those of the user's are those of its parts alone.
pub proof fn law_texts_of_a_message(message: MessageWireView, text: Seq<char>)
    ensures
        message.role == "user"@ ==> message_texts(message) == texts_of_parts(
            "user"@,
            message.parts,
        ),
        message.role != "user"@ ==> texts_of_parts(message.role, message.parts).is_prefix_of(
            message_texts(message),
        ),
        message.role != "user"@ && message.error is None && message.finish is None
            ==> message_texts(message) == texts_of_parts(message.role, message.parts),
        message.role != "user"@ && message.error == Some(JsonView::Text(text)) && message.finish
            is None ==> message_texts(message) == texts_of_parts(message.role, message.parts).push(
            "Error: "@ + text,
        ),
        message.role != "user"@ && message.error is None && message.finish == Some(
            JsonView::Text(text),
        ) && (lower(text) == "abort"@ || lower(text) == "aborted"@) ==> message_texts(message)
            == texts_of_parts(message.role, message.parts).push("Aborted."@),
{
    let texts = texts_of_parts(message.role, message.parts);
    assert(message_texts(message).take(texts.len() as int) =~= texts);
    if message.role != "user"@ {
        if message.error is None && message.finish is None {
            assert(message_texts(message) =~= texts);
        }
        if message.error == Some(JsonView::Text(text)) && message.finish is None {
            assert(message_texts(message) =~= texts.push("Error: "@ + text));
        }
        if message.error is None && message.finish == Some(JsonView::Text(text)) && (lower(text)
            == "abort"@ || lower(text) == "aborted"@) {
            assert(message_texts(message) =~= texts.push("Aborted."@));
        }
    }
}

/// An item has the role of its message, and all of its texts that say something, in order, with
/// blank lines between them.
pub proof fn law_item_of_a_message(message: MessageWireView)
    ensures
        item_of(message) matches Some(item) ==> item.role == message.role && item.text == join(
            message_texts(message).filter(|t: Seq<char>| !is_blank(t)),
            "\n\n"@,
        ) && !is_blank(item.text),
        item_of(message) is None ==> is_blank(
            join(message_texts(message).filter(|t: Seq<char>| !is_blank(t)), "\n\n"@),
        ),
{
}

/// The status of a session is what it says, else what its error says, else that it runs.
pub proof fn law_status_of_a_session(value: JsonView, text: Seq<char>)
    ensures
        status_label(JsonView::Text(text)) == Some(text),
        value is Object && value.get("status"@) == Some(
            JsonView::Text(text)
        ) ==> status_label(value)
            == Some(text),
        value is Object && value.get("status"@) is None && value.get("state"@) == Some(
            JsonView::Text(text),
        ) ==> status_label(value) == Some(text),
        value is Object && value.get("status"@) is None && value.get("state"@) is None && value.get(
            "error"@,
        ) == Some(JsonView::Text(text)) ==> status_label(value) == Some("error: "@ + text),
        value is Object && value.get("status"@) is None && value.get("state"@) is None && value.get(
            "error"@,
        ) is None ==> status_label(value) == (if value.get("running"@) == Some(
            JsonView::Bool(true),
        ) {
            Some("running"@)
        } else {
            None
        }),
{
}

/// A model is offered under its provider, by the names that are given, else by the identifiers; it
/// is the default exactly where it is the one that its provider prefers.
pub proof fn law_offered_model(
    provider: ProviderView,
    model: ProviderModelView,
    preferred: Option<Seq<char>>,
)
    ensures
        offered_model(provider, model, preferred).provider_id == provider.id,
        model.id matches Some(id) ==> offered_model(provider, model, preferred).model_id == id,
        model.id is None ==> offered_model(provider, model, preferred).model_id == model.key,
        offered_model(provider, model, preferred).id == provider.id + "/"@ + offered_model(
            provider,
            model,
            preferred,
        ).model_id,
        provider.name matches Some(a) ==> (model.name matches Some(b) ==> offered_model(
            provider,
            model,
            preferred,
        ).display_name == a + ": "@ + b),
        provider.name is None && model.name is None ==> offered_model(
            provider,
            model,
            preferred,
        ).display_name == provider.id + ": "@ + offered_model(provider, model, preferred).model_id,
        offered_model(provider, model, preferred).is_default <==> preferred == Some(
            offered_model(provider, model, preferred).model_id,
        ),
{
}

/// Every model of every provider is offered, provider by provider, in order.
pub proof fn law_every_model_is_offered(
    a: Seq<ProviderView>,
    b: Seq<ProviderView>,
    provider: ProviderView,
    default: Seq<(Seq<char>, Seq<char>)>,
)
    ensures
        offered_models(a + b, default) == offered_models(a, default) + offered_models(b, default),
        offered_models(seq![provider], default) == provider.models.map_values(
            |m: ProviderModelView|
                offered_model(provider, m, value_under(default, provider.id)),
        ),
        offered_models(Seq::empty(), default).len() == 0,
    decreases b.len(),
{
    reveal_with_fuel(offered_models, 2);
    assert(seq![provider].drop_last() =~= Seq::empty());
    assert(offered_models(seq![provider], default) =~= provider.models.map_values(
        |m: ProviderModelView| offered_model(provider, m, value_under(default, provider.id)),
    ));
    if b.len() == 0 {
        assert(a + b =~= a);
        assert(offered_models(a, default) + offered_models(b, default) =~= offered_models(
            a,
            default,
        ));
    } else {
        law_every_model_is_offered(a, b.drop_last(), provider, default);
        assert((a + b).drop_last() =~= a + b.drop_last());
        assert((a + b).last() == b.last());
        assert(offered_models(a + b, default) =~= offered_models(a, default) + offered_models(
            b,
            default,
        ));
    }
}

/// Default models come first, and models alike in that in the order of their names; none is lost.
pub proof fn law_models_in_order(a: ModelInfoView, b: ModelInfoView, list: ProviderListView)
    ensures
        a.is_default && !b.is_default ==> model_precedes(a, b) && !model_precedes(b, a),
        a.is_default == b.is_default && text_lt(a.display_name, b.display_name) ==> model_precedes(
            a,
            b,
        ),
        model_list(list).to_multiset() == offered_models(
            list.providers,
            list.default,
        ).to_multiset(),
{
    law_sorting_keeps_items(
        offered_models(list.providers, list.default),
        |a: ModelInfoView, b: ModelInfoView| model_precedes(a, b),
    );
}

/// A session that changed later comes first, one without a time last, and sessions of the same time
/// come in the order of their titles.
pub proof fn law_later_session_first(a: SessionView, b: SessionView)
    ensures
        a.updated_at is Some && b.updated_at is Some && a.updated_at->0 > b.updated_at->0
            ==> session_precedes(a, b) && !session_precedes(b, a),
        a.updated_at is Some && b.updated_at is None ==> session_precedes(a, b)
            && !session_precedes(b, a),
        a.updated_at == b.updated_at && text_lt(a.title, b.title) ==> session_precedes(a, b),
{
}

/// A session is listed in its own directory, else in the one that was asked, with its status; one
/// that another session started is not listed.
pub proof fn law_listed_session(
    session: SessionWireView,
    directory: Seq<char>,
    statuses: Seq<(Seq<char>, Seq<char>)>,
)
    ensures
        listed_summary(session, directory, statuses) is Some <==> session.parent_id is None,
        listed_summary(session, directory, statuses) matches Some(summary) ==> {
            &&& summary.id == session.id
            &&& summary.project_id == session.project_id
            &&& summary.updated_at == session.updated_at
            &&& summary.status == value_under(statuses, session.id)
            &&& (session.directory matches Some(own) ==> summary.directory == Some(own))
            &&& (session.directory is None ==> summary.directory == Some(directory))
            &&& (session.title matches Some(title) ==> (!is_blank(title) ==> summary.title
                == title))
            &&& (session.title is None ==> (session.slug matches Some(slug) ==> summary.title
                == slug))
            &&& (session.title is None && session.slug is None ==> summary.title == session.id)
        },
{
}

/// Every session that was found and is to be listed is listed, as it was found last; those known
/// before stay unless they were found again.
pub proof fn law_found_sessions_are_listed(
    known: Seq<SessionView>,
    found: Seq<SessionWireView>,
    last: SessionWireView,
    directory: Seq<char>,
    statuses: Seq<(Seq<char>, Seq<char>)>,
    other: SessionView,
)
    requires
        is_keyed(known, |m: SessionView| m.id),
    ensures
        listed_summary(last, directory, statuses) matches Some(summary) ==> with_sessions(
            known,
            found.push(last),
            directory,
            statuses,
        ).contains(summary),
        with_sessions(known, found, directory, statuses).contains(other) && other.id != last.id
            ==> with_sessions(known, found.push(last), directory, statuses).contains(other),
        with_sessions(known, Seq::empty(), directory, statuses) == known,
{
    let key = |m: SessionView| m.id;
    law_each_session_listed_once(known, found, directory, statuses);
    let before = with_sessions(known, found, directory, statuses);
    assert(found.push(last).drop_last() =~= found);
    if let Some(summary) = listed_summary(last, directory, statuses) {
        law_insert_keyed(before, summary, key);
        assert(key(summary) == last.id);
        assert(key(other) == other.id);
    }
}

/// A session that is told anew takes the place of what was known of it; no other session is
/// touched, and none is lost.
pub proof fn law_session_is_brought_up_to_date(
    style: PathStyle,
    sessions: Seq<SessionView>,
    summary: SessionView,
)
    ensures
        session_position(sessions, summary.id) is None ==> with_summary(
            style,
            sessions,
            summary,
        ).to_multiset() == sessions.push(summary).to_multiset(),
        session_position(sessions, summary.id) matches Some(i) ==> 0 <= i < sessions.len()
            && sessions[i].id == summary.id && (if sessions[i].says_same(style, summary) {
            with_summary(style, sessions, summary) == sessions
        } else {
            with_summary(style, sessions, summary).to_multiset() == sessions.update(
                i,
                summary,
            ).to_multiset()
        }),
{
    lemma_session_place(sessions, summary.id);
    law_session_list_in_order(sessions.push(summary));
    if let Some(i) = session_position(sessions, summary.id) {
        law_session_list_in_order(sessions.update(i, summary));
    }
}

proof fn lemma_session_place(sessions: Seq<SessionView>, id: Seq<char>)
    ensures
        match session_position(sessions, id) {
            Some(i) => 0 <= i < sessions.len() && sessions[i].id == id,
            None => forall|i: int| 0 <= i < sessions.len() ==> (#[trigger] sessions[i]).id != id,
        },
    decreases sessions.len(),
{
    if sessions.len() > 0 {
        let rest = sessions.skip(1);
        lemma_session_place(rest, id);
        if sessions[0].id != id && session_position(rest, id) is None {
            assert forall|i: int| 0 <= i < sessions.len() implies (#[trigger] sessions[i]).id
                != id by {
                if i > 0 {
                    assert(rest[i - 1] == sessions[i]);
                }
            }
        }
    }
}

/// A session is found by its identifier where one has it.
pub proof fn law_session_by_id(sessions: Seq<SessionView>, id: Seq<char>)
    ensures
        match session_with_id(sessions, id) {
            Some(session) => sessions.contains(session) && session.id == id,
            None => forall|i: int| 0 <= i < sessions.len() ==> (#[trigger] sessions[i]).id != id,
        },
{
    lemma_session_place(sessions, id);
}

/// A new session is begun in the first directory that matches, else in the first project of the
/// terminal, else in the first that was imported.
pub proof fn law_directory_of_a_new_session(
    style: PathStyle,
    worktrees: Seq<Seq<char>>,
    roots: Seq<Seq<char>>,
    imported: Seq<Seq<char>>,
)
    ensures
        matched_directories(style, worktrees, roots, imported).len() > 0 ==> new_session_directory(
            style,
            worktrees,
            roots,
            imported,
        ) == Some(matched_directories(style, worktrees, roots, imported)[0]),
        matched_directories(style, worktrees, roots, imported).len() == 0 && roots.len() > 0
            ==> new_session_directory(style, worktrees, roots, imported) == Some(roots[0]),
        roots.len() == 0 && imported.len() == 0 ==> new_session_directory(
            style,
            worktrees,
            roots,
            imported,
        ) is None,
        imported.len() > 0 || roots.len() > 0 ==> new_session_directory(
            style,
            worktrees,
            roots,
            imported,
        ) is Some,
{
}

/// What a session states of its directory is kept; only where it states none, the known one is
/// taken.
pub proof fn law_known_directory(session: SessionWireView, fallback: Option<SessionView>)
    ensures
        read_summary(Some(session), fallback) matches Some(summary) && summary.id == session.id && (
        session.directory is Some ==> summary.directory == session.directory) && (session.directory
            is None && fallback is Some ==> summary.directory == fallback->0.directory),
        read_summary(None, fallback) == fallback,
{
}

/// The requests of a session, and those of the others, are told apart; none is lost, and their
/// order is kept.
pub proof fn law_requests_told_apart<T: Pending>(requests: Seq<T::Model>, session: Seq<char>)
    ensures
        sorted_out::<T>(requests, session, true) == requests.filter(
            |r: T::Model| T::session_of(r) == session,
        ),
        sorted_out::<T>(requests, session, false) == requests.filter(
            |r: T::Model| T::session_of(r) != session,
        ),
    decreases requests.len(),
{
    reveal(Seq::filter);
    let own = |r: T::Model| T::session_of(r) == session;
    let other = |r: T::Model| T::session_of(r) != session;
    if requests.len() > 0 {
        law_requests_told_apart::<T>(requests.drop_last(), session);
        assert(requests.filter(own) =~= sorted_out::<T>(requests, session, true));
        assert(requests.filter(other) =~= sorted_out::<T>(requests, session, false));
    } else {
        assert(requests.filter(own) =~= Seq::empty());
        assert(requests.filter(other) =~= Seq::empty());
    }
}

/// A request that is dropped goes alone: all others stay, in order.
pub proof fn law_other_requests_stay<T: Pending>(requests: Seq<T::Model>, id: Seq<char>)
    ensures
        without_request::<T>(requests, id) == requests.filter(
            |r: T::Model| T::request_of(r) != id,
        ),
    decreases requests.len(),
{
    reveal(Seq::filter);
    let other = |r: T::Model| T::request_of(r) != id;
    if requests.len() > 0 {
        law_other_requests_stay::<T>(requests.drop_last(), id);
        assert(requests.filter(other) =~= without_request::<T>(requests, id));
    } else {
        assert(requests.filter(other) =~= Seq::empty());
    }
}

/// The first request of a session is shown, and a request is found by its identifier.
pub proof fn law_first_request<T: Pending>(requests: Seq<T::Model>, key: Seq<char>)
    ensures
        match first_of_session::<T>(requests, key) {
            Some(request) => exists|i: int|
                0 <= i < requests.len() && #[trigger] requests[i] == request && T::session_of(
                    request,
                ) == key && forall|j: int|
                    0 <= j < i ==> T::session_of(#[trigger] requests[j]) != key,
            None => forall|i: int|
                0 <= i < requests.len() ==> T::session_of(#[trigger] requests[i]) != key,
        },
        match request_with_id::<T>(requests, key) {
            Some(request) => requests.contains(request) && T::request_of(request) == key,
            None => forall|i: int|
                0 <= i < requests.len() ==> T::request_of(#[trigger] requests[i]) != key,
        },
    decreases requests.len(),
{
    if requests.len() > 0 {
        let rest = requests.skip(1);
        law_first_request::<T>(rest, key);
        assert(forall|j: int| 0 <= j < rest.len() ==> rest[j] == #[trigger] requests[j + 1]);
        assert(requests[0] == requests[0]);
        if T::session_of(requests[0]) != key {
            match first_of_session::<T>(rest, key) {
                Some(request) => {
                    let i = choose|i: int|
                        0 <= i < rest.len() && #[trigger] rest[i] == request && T::session_of(
                            request,
                        ) == key && forall|j: int|
                            0 <= j < i ==> T::session_of(#[trigger] rest[j]) != key;
                    assert(requests[i + 1] == request);
                    assert forall|j: int| 0 <= j < i + 1 implies T::session_of(
                        #[trigger] requests[j],
                    ) != key by {
                        if j > 0 {
                            assert(rest[j - 1] == requests[j]);
                        }
                    }
                },
                None => {
                    assert forall|j: int| 0 <= j < requests.len() implies T::session_of(
                        #[trigger] requests[j],
                    ) != key by {
                        if j > 0 {
                            assert(rest[j - 1] == requests[j]);
                        }
                    }
                },
            }
        }
        if T::request_of(requests[0]) != key {
            match request_with_id::<T>(rest, key) {
                Some(request) => {
                    let i = choose|i: int| 0 <= i < rest.len() && rest[i] == request;
                    assert(requests[i + 1] == request);
                },
                None => {
                    assert forall|j: int| 0 <= j < requests.len() implies T::request_of(
                        #[trigger] requests[j],
                    ) != key by {
                        if j > 0 {
                            assert(rest[j - 1] == requests[j]);
                        }
                    }
                },
            }
        }
    }
}

proof fn lemma_prompt_names()
    ensures
        "parts"@ != "model"@,
        "type"@ != "text"@,
        "providerID"@ != "modelID"@,
{
    reveal_strlit("parts");
    reveal_strlit("model");
    reveal_strlit("type");
    reveal_strlit("text");
    reveal_strlit("providerID");
    reveal_strlit("modelID");
    assert("parts"@[0] == 'p' && "model"@[0] == 'm');
    assert("type"@[1] == 'y' && "text"@[1] == 'e');
    assert("providerID"@.len() != "modelID"@.len());
}

/// A prompt is sent as it is, to the model that was chosen, or to none in particular.
pub proof fn law_prompt_is_sent(
    prompt: Seq<char>,
    selected_model: Option<(Seq<char>, Seq<char>)>,
)
    ensures
        prompt_document(prompt, selected_model).get("parts"@) matches Some(JsonView::Array(parts))
            && parts.len() == 1 && parts[0].get("text"@) == Some(JsonView::Text(prompt))
            && parts[0].get("type"@) == Some(JsonView::Text("text"@)),
        selected_model is None ==> prompt_document(prompt, selected_model).get("model"@) is None,
        selected_model matches Some((provider_id, model_id)) ==> (prompt_document(
            prompt,
            selected_model,
        ).get("model"@) matches Some(model) && model.get("providerID"@) == Some(
            JsonView::Text(provider_id),
        ) && model.get("modelID"@) == Some(JsonView::Text(model_id))),
{
    lemma_prompt_names();
    reveal_with_fuel(lookup, 3);
    let entries = prompt_document(prompt, selected_model)->Object_0;
    assert(entries[0].0 == "parts"@);
    let parts = entries[0].1->Array_0;
    let part = parts[0]->Object_0;
    assert(part[0].0 == "type"@);
    assert(part.skip(1)[0].0 == "text"@);
    match selected_model {
        Some((provider_id, model_id)) => {
            assert(entries.skip(1)[0].0 == "model"@);
            let model = entries.skip(1)[0].1->Object_0;
            assert(model[0].0 == "providerID"@);
            assert(model.skip(1)[0].0 == "modelID"@);
        },
        None => {
            assert(entries.skip(1) =~= Seq::empty());
        },
    }
}

/// The answers to questions are sent all, in order.
pub proof fn law_answers_are_sent(answers: Seq<Seq<Seq<char>>>, i: int, k: int)
    requires
        0 <= i < answers.len(),
        0 <= k < answers[i].len(),
    ensures
        answers_document(answers).get("answers"@) matches Some(JsonView::Array(sent)) && sent.len()
            == answers.len() && (sent[i] matches JsonView::Array(texts) && texts.len()
            == answers[i].len() && texts[k] == JsonView::Text(answers[i][k])),
{
}

} // verus!
