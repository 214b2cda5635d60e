//! What holds of the Codex panel across its operations.
use crate::codex_app_server::address::ConfigView;
use crate::codex_app_server::approval::{CodexApprovalDecision, decision_label};
use crate::codex_app_server::catalog::lists_thread;
use crate::codex_app_server::effect::{
    CodexAppServerSettings, CodexConversationTurnContext, EffectView,
};
use crate::codex_app_server::model::{
    StateView, all_changed, approval_resolved, conversation_open_finished, conversation_opened,
    next_generation, offers_model, open_finished, poll_due, poll_finished, polled_applied,
    refresh_finished, refreshed, start_finished, thread_opened, thread_removed, turn_begun,
};
use crate::codex_app_server::prompt::PromptView;
use crate::codex_app_server::types::{DetailView, ItemView, ModelView, SummaryView};
use crate::conversation::AIConversationId;
use crate::time::Timestamp;
use vstd::prelude::*;

verus! {

/// A conversation and its thread point at each other.
pub open spec fn mirrors(state: StateView) -> bool {
    &&& forall|t: Seq<char>| #[trigger]
        state.conversations.contains_key(t) ==> state.thread_ids.get(state.conversations[t])
            == Some(t)
    &&& forall|c: AIConversationId| #[trigger]
        state.thread_ids.contains_key(c) ==> state.conversations.get(state.thread_ids[c]) == Some(c)
}

/// Once polling was stopped, what was scheduled before is not carried out, and what an earlier poll
/// brings is dropped.
pub proof fn law_stopped_polls_are_dropped(
    state: StateView,
    thread_id: Seq<char>,
    settings: CodexAppServerSettings,
    result: Result<DetailView, Seq<char>>,
    now: Timestamp,
)
    ensures
        ({
            let stopped = state.stop_polling();
            let generation = state.poll_generation;
            &&& !stopped.wants_poll(thread_id, generation)
            &&& poll_due(stopped, thread_id, generation, settings) == (
                stopped,
                Seq::<EffectView>::empty(),
            )
            &&& poll_finished(stopped, thread_id, generation, result, now) == (
                stopped,
                Seq::<EffectView>::empty(),
            )
        }),
{
}

/// A thread is polled by one chain of polls: the poll that an opened thread schedules is wanted, and
/// none that was scheduled before it is.
pub proof fn law_opened_thread_is_polled_once(
    state: StateView,
    detail: DetailView,
    thread_id: Seq<char>,
)
    ensures
        ({
            let (next, told) = open_finished(state, Ok(detail));
            &&& told[0] == (EffectView::SchedulePoll {
                thread_id: detail.summary.id,
                generation: next.poll_generation,
            })
            &&& next.wants_poll(detail.summary.id, next.poll_generation)
            &&& !next.wants_poll(thread_id, state.poll_generation)
        }),
{
}

/// A poll never replaces the items of the active thread by none.
pub proof fn law_poll_keeps_items(state: StateView, detail: DetailView, now: Timestamp)
    requires
        state.active_thread is Some,
        state.active_thread->0.items.len() > 0,
    ensures
        polled_applied(state, detail, now).0.active_thread is Some,
        polled_applied(state, detail, now).0.active_thread->0.items.len() > 0,
{
}

/// The connection on which a thread was started carries one turn, not two.
pub proof fn law_started_connection_used_once(
    state: StateView,
    thread_id: Seq<char>,
    request: PromptView,
    config: ConfigView,
    context: Option<CodexConversationTurnContext>,
)
    ensures
        turn_begun(state, thread_id, request, config, context).0.started_client(thread_id) is None,
{
}

/// Switched off, the integration keeps nothing but the project roots.
pub proof fn law_off_forgets_everything(state: StateView, settings: CodexAppServerSettings)
    requires
        !settings.enabled,
    ensures
        refreshed(state, settings).0 == (StateView {
            project_roots: state.project_roots,
            poll_generation: next_generation(state.poll_generation),
            ..StateView::initial(state.path_style)
        }),
        refreshed(state, settings).1 == all_changed(),
{
}

/// Switched off, the integration does not open, delete or read threads.
pub proof fn law_off_does_nothing(
    state: StateView,
    thread_id: Seq<char>,
    fresh: AIConversationId,
    settings: CodexAppServerSettings,
)
    requires
        !settings.enabled,
    ensures
        thread_opened(state, thread_id, settings) == (state, Seq::<EffectView>::empty()),
        conversation_opened(state, thread_id, fresh, settings) == (
            state,
            Seq::<EffectView>::empty(),
        ),
{
}

/// After the server's lists arrived, the selected model is one that it offers.
pub proof fn law_selected_model_is_offered(
    state: StateView,
    threads: Seq<SummaryView>,
    models: Seq<ModelView>,
)
    ensures
        refresh_finished(state, Ok((threads, models))).0.selected_model_id matches Some(id)
            ==> offers_model(models, id),
{
}

/// Opening a thread as a conversation keeps conversations and threads pointing at each other.
pub proof fn law_opening_keeps_links(
    state: StateView,
    thread_id: Seq<char>,
    fresh: AIConversationId,
    settings: CodexAppServerSettings,
)
    requires
        mirrors(state),
        !state.thread_ids.contains_key(fresh),
    ensures
        mirrors(conversation_opened(state, thread_id, fresh, settings).0),
{
    lemma_link_keeps_links(state, state.conversation_for(thread_id, fresh), thread_id);
}

/// What is read of an opened thread keeps conversations and threads pointing at each other.
pub proof fn law_reading_keeps_links(
    state: StateView,
    conversation_id: AIConversationId,
    detail: DetailView,
    now: Timestamp,
)
    requires
        mirrors(state),
        state.conversations.get(detail.summary.id) == Some(conversation_id),
    ensures
        mirrors(conversation_open_finished(state, conversation_id, Ok(detail), now).0),
{
    lemma_link_keeps_links(state, conversation_id, detail.summary.id);
}

/// Starting a thread keeps conversations and threads pointing at each other.
pub proof fn law_starting_keeps_links(
    state: StateView,
    started: (DetailView, u64),
    fresh: AIConversationId,
    now: Timestamp,
)
    requires
        mirrors(state),
        !state.thread_ids.contains_key(fresh),
    ensures
        mirrors(start_finished(state, Ok(started), fresh, now).0),
{
    lemma_link_keeps_links(
        state,
        state.conversation_for(started.0.summary.id, fresh),
        started.0.summary.id,
    );
}

proof fn lemma_link_keeps_links(
    state: StateView,
    conversation_id: AIConversationId,
    thread_id: Seq<char>,
)
    requires
        mirrors(state),
        state.conversations.get(thread_id) == Some(conversation_id) || (
        state.conversations.get(thread_id) is None && !state.thread_ids.contains_key(
            conversation_id,
        )),
    ensures
        mirrors(state.linked(conversation_id, thread_id)),
{
    let next = state.linked(conversation_id, thread_id);
    assert forall|t: Seq<char>| #[trigger] next.conversations.contains_key(t) implies next.thread_ids.get(
        next.conversations[t],
    ) == Some(t) by {
        if t != thread_id {
            assert(state.conversations.contains_key(t));
        }
    }
    assert forall|c: AIConversationId| #[trigger]
        next.thread_ids.contains_key(c) implies next.conversations.get(next.thread_ids[c]) == Some(
        c,
    ) by {
        if c != conversation_id {
            assert(state.thread_ids.contains_key(c));
            assert(state.conversations.get(state.thread_ids[c]) == Some(c));
        }
    }
}

/// A deleted thread is gone: it is not listed, not shown, not opened, has no turn, and no
/// conversation mirrors it; what is left still points at each other.
pub proof fn law_deleted_thread_is_gone(state: StateView, thread_id: Seq<char>)
    requires
        mirrors(state),
    ensures
        ({
            let next = thread_removed(state, thread_id).0;
            &&& !lists_thread(next.threads, thread_id)
            &&& !next.is_active(thread_id)
            &&& !next.is_busy(thread_id)
            &&& next.opening_thread_id != Some(thread_id)
            &&& !next.conversations.contains_key(thread_id)
            &&& mirrors(next)
        }),
{
    let next = thread_removed(state, thread_id).0;
    let other = |t: SummaryView| t.id != thread_id;
    assert forall|i: int| 0 <= i < next.threads.len() implies (#[trigger] next.threads[i]).id
        != thread_id by {
        state.threads.lemma_filter_pred(other, i);
    }
    assert forall|t: Seq<char>| #[trigger] next.conversations.contains_key(t) implies next.thread_ids.get(
        next.conversations[t],
    ) == Some(t) by {
        assert(state.conversations.contains_key(t));
        if state.conversations.contains_key(thread_id) {
            assert(state.thread_ids.get(state.conversations[thread_id]) == Some(thread_id));
        }
    }
    assert forall|c: AIConversationId| #[trigger]
        next.thread_ids.contains_key(c) implies next.conversations.get(next.thread_ids[c]) == Some(
        c,
    ) by {
        assert(state.thread_ids.contains_key(c));
        assert(state.conversations.get(state.thread_ids[c]) == Some(c));
    }
}

/// A request is answered once: when the user has decided, a second decision is not sent.
pub proof fn law_request_answered_once(
    state: StateView,
    decision: CodexApprovalDecision,
    again: CodexApprovalDecision,
)
    ensures
        approval_resolved(approval_resolved(state, decision).0, again).1 == Seq::<
            EffectView,
        >::empty(),
{
    if let Some(turn) = state.active_turn {
        let answered = StateView { active_turn: None, ..state };
        let item = ItemView { role: "approval"@, text: decision_label(decision) + "."@ };
        assert(answered.with_items(turn.thread_id, seq![item]).active_turn is None);
    }
}

/// While a turn of the active thread is under way, polls are put off and read nothing.
pub proof fn law_turn_puts_polls_off(
    state: StateView,
    thread_id: Seq<char>,
    settings: CodexAppServerSettings,
)
    requires
        state.is_active(thread_id),
        state.is_busy(thread_id),
    ensures
        poll_due(state, thread_id, state.poll_generation, settings) == (
            state,
            seq![
                EffectView::SchedulePoll { thread_id, generation: state.poll_generation },
            ],
        ),
{
}

} // verus!
