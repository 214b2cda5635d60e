//! What holds of a panel for a Codex server as it is used: what is shown, what is sent, and what
//! stays.
use crate::codex_app_server::address::{AddressErrorView, ConfigView};
use crate::codex_app_server::approval::CodexApprovalDecision;
use crate::codex_app_server::effect::{
    CodexAppServerSettings, CodexConversationTurnContext, EffectView, EventView, ReadPurpose,
    StatusView,
};
use crate::codex_app_server::history::conversation_of;
use crate::codex_app_server::machine::prompt_planned;
use crate::codex_app_server::model::{
    ActiveTurnView, ProgressView, StateView, approval_resolved, conversation_open_finished,
    conversation_opened, conversation_turn_progressed, first_default, model_with_id, open_finished,
    pending_turn, poll_due, poll_finished, prompt_submitted, refresh_finished, refreshed,
    settings_config, start_finished, thread_removed, turn_progressed, user_input_resolved,
};
use crate::codex_app_server::prompt::{PromptView, prompt_of, shown_prompt};
use crate::codex_app_server::transcript::agent_text;
use crate::codex_app_server::types::{DetailView, ItemView, ModelView, SummaryView};
use crate::conversation::AIConversationId;
use crate::json::JsonView;
use crate::text::{is_blank, views};
use crate::time::Timestamp;
use vstd::prelude::*;

verus! {

/// A model is found by its identifier where one has it, and the first of them.
pub proof fn law_model_by_id(models: Seq<ModelView>, id: Seq<char>)
    ensures
        match model_with_id(models, id) {
            Some(model) => models.contains(model) && model.id == id,
            None => forall|i: int| 0 <= i < models.len() ==> (#[trigger] models[i]).id != id,
        },
    decreases models.len(),
{
    if models.len() > 0 {
        let rest = models.skip(1);
        law_model_by_id(rest, id);
        assert(models[0] == models[0]);
        if models[0].id != id {
            match model_with_id(rest, id) {
                Some(model) => {
                    let i = choose|i: int| 0 <= i < rest.len() && rest[i] == model;
                    assert(models[i + 1] == model);
                },
                None => {
                    assert forall|i: int| 0 <= i < models.len() implies (#[trigger] models[i]).id
                        != id by {
                        if i > 0 {
                            assert(rest[i - 1] == models[i]);
                        }
                    }
                },
            }
        }
    }
}

/// The default model is one that is marked so, and there is one where any is.
pub proof fn law_default_model(models: Seq<ModelView>)
    ensures
        match first_default(models) {
            Some(model) => models.contains(model) && model.is_default,
            None => forall|i: int| 0 <= i < models.len() ==> !(#[trigger] models[i]).is_default,
        },
    decreases models.len(),
{
    if models.len() > 0 {
        let rest = models.skip(1);
        law_default_model(rest);
        assert(models[0] == models[0]);
        if !models[0].is_default {
            match first_default(rest) {
                Some(model) => {
                    let i = choose|i: int| 0 <= i < rest.len() && rest[i] == model;
                    assert(models[i + 1] == model);
                },
                None => {
                    assert forall|i: int| 0 <= i < models.len() implies !(
                    #[trigger] models[i]).is_default by {
                        if i > 0 {
                            assert(rest[i - 1] == models[i]);
                        }
                    }
                },
            }
        }
    }
}

/// A plan is made with the model that was chosen, else with a default one, else with the first.
pub proof fn law_model_of_a_plan(state: StateView, i: int)
    ensures
        state.selected_model_id is Some ==> state.plan_model_id() == state.selected_model_id,
        state.selected_model_id is None ==> (state.plan_model_id() is None <==> state.models.len()
            == 0),
        state.selected_model_id is None && 0 <= i < state.models.len() && state.models[i].is_default
            ==> exists|k: int|
            0 <= k < state.models.len() && (#[trigger] state.models[k]).is_default
                && state.plan_model_id() == Some(state.models[k].id),
        state.selected_model_id is None && state.models.len() > 0 && (forall|k: int|
            0 <= k < state.models.len() ==> !(#[trigger] state.models[k]).is_default)
            ==> state.plan_model_id() == Some(state.models[0].id),
{
    law_default_model(state.models);
    if let Some(model) = first_default(state.models) {
        let k = choose|k: int| 0 <= k < state.models.len() && state.models[k] == model;
        assert(state.models[k].is_default);
    }
}

/// What is said in a thread is added to what it shows. Nothing that it shows is lost but the sign
/// that an answer is waited for, and no other thread changes.
pub proof fn law_items_are_added(
    state: StateView,
    thread_id: Seq<char>,
    items: Seq<ItemView>,
    thread: DetailView,
)
    requires
        state.active_thread == Some(thread),
    ensures
        thread.summary.id != thread_id ==> state.with_items(thread_id, items) == state,
        thread.summary.id == thread_id ==> (state.with_items(thread_id, items).active_thread
            matches Some(shown) && shown.summary == thread.summary && items.is_suffix_of(
            shown.items,
        ) && (shown.items == thread.items + items || (thread.items.len() > 0
            && thread.items.last().text == "Waiting for Codex..."@ && shown.items
            == thread.items.drop_last() + items))),
        thread.summary.id == thread_id && (thread.items.len() == 0 || thread.items.last().text
            != "Waiting for Codex..."@) ==> state.with_items(
                thread_id,
                items,
            ).active_thread->0.items
            == thread.items + items,
        thread.summary.id == thread_id && thread.items.len() > 0 && thread.items.last().text
            == "Waiting for Codex..."@ ==> state.with_items(thread_id, items).active_thread->0.items
            == thread.items.drop_last() + items,
        state.with_items(thread_id, items).threads == state.threads,
        state.with_items(thread_id, items).status == state.status,
        state.with_items(thread_id, items).conversations == state.conversations,
        state.with_items(thread_id, items).thread_ids == state.thread_ids,
{
    if thread.summary.id == thread_id {
        let shown = state.with_items(thread_id, items).active_thread->0;
        assert(items =~= shown.items.subrange(
            shown.items.len() - items.len(),
            shown.items.len() as int,
        ));
    }
}

/// A refresh asks the server for its threads where the panel is on and its settings are right.
pub proof fn law_refresh_asks_the_server(
    state: StateView,
    settings: CodexAppServerSettings,
    config: ConfigView,
)
    ensures
        settings.enabled && settings_config(settings) == Ok::<ConfigView, AddressErrorView>(config)
            ==> refreshed(state, settings).0.status is Loading && refreshed(
            state,
            settings,
        ).0.threads == state.threads && refreshed(state, settings).1.contains(
            EffectView::ListThreads {
                config,
                project_roots: state.project_roots,
                imported_project_paths: views(settings.imported_project_paths@),
                imported_thread_ids: views(settings.imported_thread_ids@),
            },
        ),
        settings.enabled && settings_config(settings) is Err ==> refreshed(state, settings).0.status
            is Disconnected && refreshed(state, settings).0.threads.len() == 0,
        !settings.enabled ==> refreshed(state, settings).0.status is Disabled && refreshed(
            state,
            settings,
        ).0.threads.len() == 0,
{
    if settings.enabled && settings_config(settings) == Ok::<ConfigView, AddressErrorView>(config) {
        assert(refreshed(state, settings).1[1] == (EffectView::ListThreads {
            config,
            project_roots: state.project_roots,
            imported_project_paths: views(settings.imported_project_paths@),
            imported_thread_ids: views(settings.imported_thread_ids@),
        }));
    }
}

/// What the server answers to a refresh is shown; the chosen model stays chosen exactly where it is
/// still offered. Where it fails, the reason is shown and nothing of the server stays.
pub proof fn law_refresh_is_shown(
    state: StateView,
    threads: Seq<SummaryView>,
    models: Seq<ModelView>,
    error: Seq<char>,
    id: Seq<char>,
    i: int,
)
    ensures
        ({
            let next = refresh_finished(state, Ok((threads, models))).0;
            &&& next.status is Connected
            &&& next.threads == threads
            &&& next.models == models
            &&& next.active_thread == state.active_thread
            &&& next.conversations == state.conversations
            &&& (state.selected_model_id == Some(id) && 0 <= i < models.len() && models[i].id == id
                ==> next.selected_model_id == Some(id))
            &&& (next.selected_model_id is Some ==> next.selected_model_id
                == state.selected_model_id)
        }),
        ({
            let next = refresh_finished(state, Err(error)).0;
            &&& next.status == (StatusView::Disconnected { message: error })
            &&& next.threads.len() == 0
            &&& next.models.len() == 0
            &&& next.active_thread is None
            &&& next.active_turn is None
        }),
{
}

/// A thread that was read is shown and looked at again; where it could not be, the reason is shown
/// and the thread that was shown stays.
pub proof fn law_read_thread_is_shown(state: StateView, detail: DetailView, error: Seq<char>)
    ensures
        open_finished(state, Ok(detail)).0.active_thread == Some(detail),
        open_finished(state, Ok(detail)).0.threads == state.threads,
        open_finished(state, Ok(detail)).1.contains(
            EffectView::SchedulePoll {
                thread_id: detail.summary.id,
                generation: open_finished(state, Ok(detail)).0.poll_generation,
            },
        ),
        open_finished(state, Ok(detail)).0.poll_generation != state.poll_generation,
        open_finished(state, Err(error)).0.active_thread == state.active_thread,
        open_finished(state, Err(error)).0.status == (StatusView::Disconnected { message: error }),
{
    assert(open_finished(state, Ok(detail)).1[0] == (EffectView::SchedulePoll {
        thread_id: detail.summary.id,
        generation: open_finished(state, Ok(detail)).0.poll_generation,
    }));
}

/// A thread that is opened as a conversation is read, for the conversation that it has, else for
/// the fresh one, which it has from then on.
pub proof fn law_thread_has_one_conversation(
    state: StateView,
    thread_id: Seq<char>,
    fresh: AIConversationId,
    settings: CodexAppServerSettings,
)
    requires
        settings.enabled,
        settings_config(settings) is Ok,
    ensures
        ({
            let (next, told) = conversation_opened(state, thread_id, fresh, settings);
            &&& next.conversations.contains_key(thread_id)
            &&& (state.conversations.contains_key(thread_id) ==> next.conversations[thread_id]
                == state.conversations[thread_id])
            &&& (!state.conversations.contains_key(thread_id) ==> next.conversations[thread_id]
                == fresh)
            &&& next.opening_thread_id == Some(thread_id)
            &&& told.contains(
                EffectView::ReadThread {
                    config: settings_config(settings)->Ok_0,
                    thread_id,
                    fallback_summary: state.known_summary(thread_id),
                    purpose: ReadPurpose::OpenAsConversation {
                        conversation_id: next.conversations[thread_id],
                    },
                },
            )
        }),
{
    let (next, told) = conversation_opened(state, thread_id, fresh, settings);
    assert(told[1] == (EffectView::ReadThread {
        config: settings_config(settings)->Ok_0,
        thread_id,
        fallback_summary: state.known_summary(thread_id),
        purpose: ReadPurpose::OpenAsConversation { conversation_id: next.conversations[thread_id] },
    }));
}

/// The conversation of a thread holds what was read of it, and is opened; where the thread could
/// not be read, the reason is shown and none is.
pub proof fn law_conversation_is_opened(
    state: StateView,
    conversation_id: AIConversationId,
    detail: DetailView,
    error: Seq<char>,
    now: Timestamp,
)
    ensures
        ({
            let (next, told) = conversation_open_finished(state, conversation_id, Ok(detail), now);
            &&& next.active_thread == Some(detail)
            &&& next.opening_thread_id is None
            &&& next.thread_ids.contains_pair(conversation_id, detail.summary.id)
            &&& told.contains(
                EffectView::CacheConversation(conversation_of(conversation_id, detail, now)),
            )
            &&& told.contains(
                EffectView::Emit(
                    EventView::OpenConversation { conversation_id, thread_id: detail.summary.id },
                ),
            )
        }),
        ({
            let (next, told) = conversation_open_finished(state, conversation_id, Err(error), now);
            &&& next.status == (StatusView::Disconnected { message: error })
            &&& next.active_thread == state.active_thread
            &&& next.opening_thread_id is None
        }),
{
    let told = conversation_open_finished(state, conversation_id, Ok(detail), now).1;
    assert(told[0] == EffectView::CacheConversation(conversation_of(conversation_id, detail, now)));
    assert(told[3] == EffectView::Emit(
        EventView::OpenConversation { conversation_id, thread_id: detail.summary.id },
    ));
}

/// A thread that is put away goes alone: the other threads, their conversations and what is shown
/// of them stay.
pub proof fn law_other_threads_stay(
    state: StateView,
    thread_id: Seq<char>,
    other: SummaryView,
    conversation_id: AIConversationId,
)
    ensures
        ({
            let next = thread_removed(state, thread_id).0;
            &&& next.threads == state.threads.filter(|t: SummaryView| t.id != thread_id)
            &&& next.models == state.models
            &&& next.status == state.status
            &&& next.selected_model_id == state.selected_model_id
            &&& (other.id != thread_id && state.conversations.contains_pair(
                other.id,
                conversation_id,
            ) ==> next.conversations.contains_pair(other.id, conversation_id))
            &&& (state.active_thread is Some && state.active_thread->0.summary.id != thread_id
                ==> next.active_thread == state.active_thread && next.poll_generation
                == state.poll_generation)
        }),
        state.conversations.contains_pair(thread_id, conversation_id) ==> thread_removed(
            state,
            thread_id,
        ).1.contains(EffectView::DeleteConversation(conversation_id)),
{
    if state.conversations.contains_pair(thread_id, conversation_id) {
        let told = thread_removed(state, thread_id).1;
        let i: int = if state.is_active(thread_id) {
            1
        } else {
            0
        };
        assert(told[i] == EffectView::DeleteConversation(conversation_id));
    }
}

/// A thread that was started is listed, shown and opened as a conversation, and the connection that
/// started it is kept for its first turn.
pub proof fn law_started_thread_is_shown(
    state: StateView,
    started: DetailView,
    client: u64,
    fresh: AIConversationId,
    now: Timestamp,
    error: Seq<char>,
)
    ensures
        ({
            let (next, told) = start_finished(state, Ok((started, client)), fresh, now);
            let id = started.summary.id;
            &&& next.active_thread matches Some(shown) && shown.items == started.items
                && shown.summary.id == id && shown.summary.cwd == started.summary.cwd
                && shown.summary.title == (if started.summary.title == id {
                "New Codex conversation"@
            } else {
                started.summary.title
            })
            &&& next.started_client(id) == Some(client)
            &&& next.status is Connected
            &&& next.conversations.contains_key(id)
            &&& next.thread_ids.contains_pair(next.conversations[id], id)
            &&& told.contains(
                EffectView::Emit(
                    EventView::OpenConversation {
                        conversation_id: next.conversations[id],
                        thread_id: id,
                    },
                ),
            )
        }),
        start_finished(state, Err(error), fresh, now).0.status == (StatusView::Disconnected {
            message: error,
        }),
        start_finished(state, Err(error), fresh, now).0.active_thread == state.active_thread,
{
    let (next, told) = start_finished(state, Ok((started, client)), fresh, now);
    assert(told[4] == EffectView::Emit(
        EventView::OpenConversation {
            conversation_id: next.conversations[started.summary.id],
            thread_id: started.summary.id,
        },
    ));
}

/// A prompt is shown in the thread, behind all that it shows, and is sent to that thread with the
/// chosen model. Without a prompt or a thread nothing happens.
pub proof fn law_prompt_is_shown_and_sent(
    state: StateView,
    prompt: Seq<char>,
    settings: CodexAppServerSettings,
    request: PromptView,
    thread: DetailView,
    config: ConfigView,
)
    ensures
        prompt_of(prompt) is None || state.active_thread is None ==> prompt_submitted(
            state,
            prompt,
            settings,
        ) == (state, Seq::<EffectView>::empty()),
        prompt_of(prompt) == Some(request) && state.active_thread == Some(thread) ==> {
            let (next, told) = prompt_submitted(state, prompt, settings);
            &&& next.active_thread matches Some(shown) && shown.summary == thread.summary
                && shown.items.len() == thread.items.len() + 2 && thread.items.is_prefix_of(
                shown.items,
            ) && shown.items[thread.items.len() as int].role == "user"@
                && shown.items[thread.items.len() as int].text == shown_prompt(request)
            &&& next.local_turn_thread_id == Some(thread.summary.id)
            &&& (settings_config(settings) == Ok::<ConfigView, AddressErrorView>(config)
                ==> told.contains(
                EffectView::ContinueThread {
                    config,
                    thread_id: thread.summary.id,
                    prompt: request.prompt,
                    model_id: state.selected_model_id,
                    collaboration_mode: request.collaboration_mode,
                    collaboration_mode_model_id: state.plan_model_id(),
                    client: state.started_client(thread.summary.id),
                    context: None,
                },
            ))
            &&& (settings_config(settings) is Err ==> next.status is Disconnected)
        },
{
    if prompt_of(prompt) == Some(request) && state.active_thread == Some(thread) {
        let (next, told) = prompt_submitted(state, prompt, settings);
        let shown = next.active_thread->0;
        assert(thread.items =~= shown.items.subrange(0, thread.items.len() as int));
        if settings_config(settings) == Ok::<ConfigView, AddressErrorView>(config) {
            assert(told[1] == (EffectView::ContinueThread {
                config,
                thread_id: thread.summary.id,
                prompt: request.prompt,
                model_id: state.selected_model_id,
                collaboration_mode: request.collaboration_mode,
                collaboration_mode_model_id: state.plan_model_id(),
                client: state.started_client(thread.summary.id),
                context: None,
            }));
        }
    }
}

/// What a turn brought is shown in its thread. It waits for the user exactly where it asks
/// something, and is looked at again exactly where it does not.
pub proof fn law_turn_is_shown(
    state: StateView,
    thread_id: Seq<char>,
    progress: ProgressView,
    thread: DetailView,
)
    requires
        state.active_thread == Some(thread),
        thread.summary.id == thread_id,
    ensures
        ({
            let (next, told) = turn_progressed(state, thread_id, Ok(progress));
            &&& next.active_thread matches Some(shown) && progress.items.is_suffix_of(shown.items)
                && shown.items.len() + 1 >= thread.items.len() + progress.items.len()
                && shown.summary == thread.summary
            &&& next.local_turn_thread_id is None
            &&& (next.active_turn is Some <==> progress.pending is Some)
            &&& (progress.pending matches Some((client, approval)) ==> next.active_turn->0.client
                == client && next.active_turn->0.pending_approval == approval
                && next.active_turn->0.thread_id == thread_id && next.poll_generation
                == state.poll_generation)
            &&& (progress.pending is None ==> told.contains(
                EffectView::SchedulePoll { thread_id, generation: next.poll_generation },
            ) && next.wants_poll(thread_id, next.poll_generation))
        }),
{
    let (next, told) = turn_progressed(state, thread_id, Ok(progress));
    let taken = StateView {
        active_turn: pending_turn(thread_id, progress, None),
        local_turn_thread_id: None,
        ..state
    };
    law_items_are_added(taken, thread_id, progress.items, thread);
    if progress.pending is None {
        assert(told[0] == (EffectView::SchedulePoll {
            thread_id,
            generation: next.poll_generation,
        }));
    }
}

/// The error of a turn is shown in its thread, and the turn is over.
pub proof fn law_failed_turn_is_shown(
    state: StateView,
    thread_id: Seq<char>,
    error: Seq<char>,
    thread: DetailView,
)
    requires
        state.active_thread == Some(thread),
        thread.summary.id == thread_id,
    ensures
        ({
            let next = turn_progressed(state, thread_id, Err(error)).0;
            &&& next.active_thread matches Some(shown) && shown.items.len() > 0
                && shown.items.last().role == "error"@ && shown.items.last().text == error
            &&& next.active_turn is None
            &&& next.local_turn_thread_id is None
        }),
{
}

/// What a turn brought in a conversation is its answer there, and is shown in the thread. The
/// exchange is over exactly where the turn asks nothing, and in error exactly where the turn failed.
pub proof fn law_turn_of_a_conversation(
    state: StateView,
    thread_id: Seq<char>,
    context: CodexConversationTurnContext,
    result: Result<ProgressView, Seq<char>>,
)
    ensures
        ({
            let (next, told) = conversation_turn_progressed(state, thread_id, context, result);
            &&& next.local_turn_thread_id is None
            &&& (result matches Ok(progress) ==> told.contains(
                EffectView::UpdateExchange {
                    context,
                    output_text: agent_text(progress.items),
                    is_finished: progress.pending is None,
                    is_error: false,
                },
            ) && (next.active_turn is Some <==> progress.pending is Some))
            &&& (result matches Err(error) ==> told.contains(
                EffectView::UpdateExchange {
                    context,
                    output_text: "Codex app-server error: "@ + error,
                    is_finished: true,
                    is_error: true,
                },
            ) && next.active_turn is None)
            &&& (state.active_thread matches Some(thread) ==> (next.active_thread matches Some(
                shown,
            ) && thread.items.is_prefix_of(shown.items)))
        }),
        result matches Ok(progress) ==> (state.is_active(thread_id) && !is_blank(
            agent_text(progress.items),
        ) ==> conversation_turn_progressed(
            state,
            thread_id,
            context,
            result,
        ).0.active_thread->0.items.last() == (ItemView {
            role: "codex"@,
            text: agent_text(progress.items),
        })),
{
    let (next, told) = conversation_turn_progressed(state, thread_id, context, result);
    match result {
        Ok(progress) => {
            let i: int = if progress.pending is None {
                1
            } else {
                0
            };
            assert(told[i] == (EffectView::UpdateExchange {
                context,
                output_text: agent_text(progress.items),
                is_finished: progress.pending is None,
                is_error: false,
            }));
        },
        Err(error) => {
            assert(told[1] == (EffectView::UpdateExchange {
                context,
                output_text: "Codex app-server error: "@ + error,
                is_finished: true,
                is_error: true,
            }));
        },
    }
    if let Some(thread) = state.active_thread {
        let shown = next.active_thread->0;
        assert(thread.items =~= shown.items.subrange(0, thread.items.len() as int));
    }
}

/// The user's decision is sent to the connection and for the request that asked for it, and the turn
/// goes on. Where nothing was asked, nothing is sent.
pub proof fn law_decision_reaches_the_server(
    state: StateView,
    decision: CodexApprovalDecision,
    turn: ActiveTurnView,
)
    ensures
        state.active_turn is None ==> approval_resolved(state, decision) == (
            state,
            Seq::<EffectView>::empty(),
        ),
        state.active_turn == Some(turn) ==> {
            let (next, told) = approval_resolved(state, decision);
            &&& next.active_turn is None
            &&& next.local_turn_thread_id == Some(turn.thread_id)
            &&& told.contains(
                EffectView::Respond {
                    client: turn.client,
                    request_id: turn.pending_approval.request_id,
                    result: turn.pending_approval.approval_result(decision),
                    thread_id: turn.thread_id,
                    context: turn.conversation_context,
                },
            )
        },
{
    if state.active_turn == Some(turn) {
        assert(approval_resolved(state, decision).1[1] == (EffectView::Respond {
            client: turn.client,
            request_id: turn.pending_approval.request_id,
            result: turn.pending_approval.approval_result(decision),
            thread_id: turn.thread_id,
            context: turn.conversation_context,
        }));
    }
}

/// The user's answer is sent to the connection and for the request that asked for it, exactly where
/// the question was asked; else nothing happens.
pub proof fn law_answer_reaches_the_server(
    state: StateView,
    question_id: Seq<char>,
    answer: Seq<char>,
    turn: ActiveTurnView,
    result: JsonView,
)
    requires
        state.active_turn == Some(turn),
    ensures
        turn.pending_approval.user_input_result(
            question_id,
            answer,
        ) is None ==> user_input_resolved(
            state,
            question_id,
            answer,
        ) == (state, Seq::<EffectView>::empty()),
        turn.pending_approval.user_input_result(question_id, answer) == Some(result) ==> {
            let (next, told) = user_input_resolved(state, question_id, answer);
            &&& next.active_turn is None
            &&& next.local_turn_thread_id == Some(turn.thread_id)
            &&& told.contains(
                EffectView::Respond {
                    client: turn.client,
                    request_id: turn.pending_approval.request_id,
                    result,
                    thread_id: turn.thread_id,
                    context: turn.conversation_context,
                },
            )
        },
{
    if turn.pending_approval.user_input_result(question_id, answer) == Some(result) {
        assert(user_input_resolved(state, question_id, answer).1[1] == (EffectView::Respond {
            client: turn.client,
            request_id: turn.pending_approval.request_id,
            result,
            thread_id: turn.thread_id,
            context: turn.conversation_context,
        }));
    }
}

/// A thread is read again exactly where it is still shown and no turn of it runs; while one runs,
/// it is put off.
pub proof fn law_thread_is_read_again(
    state: StateView,
    thread_id: Seq<char>,
    generation: u64,
    settings: CodexAppServerSettings,
    thread: DetailView,
)
    requires
        settings.enabled,
        settings_config(settings) is Ok,
        state.active_thread == Some(thread),
    ensures
        ({
            let told = poll_due(state, thread_id, generation, settings).1;
            let shown = thread.summary.id == thread_id && state.poll_generation == generation;
            &&& (!shown ==> told.len() == 0)
            &&& (shown && state.is_busy(thread_id) ==> told == seq![
                EffectView::SchedulePoll { thread_id, generation },
            ])
            &&& (shown && !state.is_busy(thread_id) ==> told == seq![
                EffectView::ReadThread {
                    config: settings_config(settings)->Ok_0,
                    thread_id,
                    fallback_summary: Some(thread.summary),
                    purpose: ReadPurpose::Poll { generation },
                },
            ])
            &&& poll_due(state, thread_id, generation, settings).0 == state
        }),
{
}

/// A thread that was read again and could not be is read once more later, and what is shown of it
/// stays.
pub proof fn law_failed_read_is_tried_again(
    state: StateView,
    thread_id: Seq<char>,
    generation: u64,
    error: Seq<char>,
    now: Timestamp,
)
    requires
        state.wants_poll(thread_id, generation),
    ensures
        poll_finished(state, thread_id, generation, Err(error), now).0 == state,
        poll_finished(state, thread_id, generation, Err(error), now).1 == seq![
            EffectView::SchedulePoll { thread_id, generation },
        ],
{
    assert(poll_finished(state, thread_id, generation, Err(error), now).1 =~= seq![
        EffectView::SchedulePoll { thread_id, generation },
    ]);
}

/// A prompt of a conversation is planned for the thread of the conversation, in that thread's
/// directory; without a prompt, a thread or right settings none is.
pub proof fn law_prompt_is_planned(
    state: StateView,
    conversation_id: AIConversationId,
    prompt: Seq<char>,
    settings: CodexAppServerSettings,
)
    ensures
        prompt_planned(state, conversation_id, prompt, settings).2 is Some <==> prompt_of(prompt)
            is Some && state.thread_ids.contains_key(conversation_id) && settings_config(settings)
            is Ok,
        prompt_planned(state, conversation_id, prompt, settings).2 matches Some(plan) ==> {
            &&& plan.thread_id == state.thread_ids[conversation_id]
            &&& Some(plan.request) == prompt_of(prompt)
            &&& plan.shown_prompt == shown_prompt(plan.request)
            &&& settings_config(settings) == Ok::<ConfigView, AddressErrorView>(plan.config)
            &&& (state.known_summary(plan.thread_id) matches Some(summary)
                ==> plan.working_directory == summary.cwd)
        },
{
}

} // verus!
