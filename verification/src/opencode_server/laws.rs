//! What holds of the OpenCode panel across its operations.
use crate::codex_app_server::model::next_generation;
use crate::conversation::AIConversationId;
use crate::opencode_server::effect::{OpenCodeServerSettings, OpenCodeTurnContext, PanelEffectView};
use crate::opencode_server::model::{
    PanelView, PromptPlanView, PromptResultView, everything_changed, model_named,
    panel_refresh_finished, panel_refreshed, pending_cleared, permission_resolved, question_settled,
    session_opened, session_poll_due, session_poll_finished, session_prompt_finished,
    session_prompt_sent, session_started, shown_answer,
};
use crate::opencode_server::pending::{
    first_of_session, law_dropped_request_is_gone, law_sorted_out_by_session, request_with_id,
    without_request,
};
use crate::opencode_server::types::{
    ModelInfoView, OpenCodePendingPermission, OpenCodePendingQuestion, OpenCodePermissionReply,
    PendingQuestionView, PermissionView, SessionDetailView, SessionView,
};
use crate::text::{is_blank, is_space};
use crate::time::Timestamp;
use vstd::prelude::*;

verus! {

/// A conversation and its session point at each other.
pub open spec fn mirrors_sessions(state: PanelView) -> bool {
    &&& forall|s: Seq<char>| #[trigger]
        state.conversations.contains_key(s) ==> state.session_ids.get(state.conversations[s])
            == Some(s)
    &&& forall|c: AIConversationId| #[trigger]
        state.session_ids.contains_key(c) ==> state.conversations.get(state.session_ids[c])
            == Some(c)
}

proof fn lemma_link_mirrors(
    state: PanelView,
    conversation_id: AIConversationId,
    session_id: Seq<char>,
)
    requires
        mirrors_sessions(state),
        state.conversations.get(session_id) == Some(conversation_id) || (state.conversations.get(
            session_id,
        ) is None && !state.session_ids.contains_key(conversation_id)),
    ensures
        mirrors_sessions(state.linked(conversation_id, session_id)),
{
    let next = state.linked(conversation_id, session_id);
    assert forall|s: Seq<char>| #[trigger] next.conversations.contains_key(s) implies next.session_ids.get(
        next.conversations[s],
    ) == Some(s) by {
        if s != session_id {
            assert(state.conversations.contains_key(s));
        }
    }
    assert forall|c: AIConversationId| #[trigger]
        next.session_ids.contains_key(c) implies next.conversations.get(next.session_ids[c]) == Some(
        c,
    ) by {
        if c != conversation_id {
            assert(state.session_ids.contains_key(c));
            assert(state.conversations.get(state.session_ids[c]) == Some(c));
        }
    }
}

/// Opening a session keeps conversations and sessions pointing at each other.
pub proof fn law_opening_session_keeps_links(
    state: PanelView,
    session_id: Seq<char>,
    fresh: AIConversationId,
    settings: OpenCodeServerSettings,
)
    requires
        mirrors_sessions(state),
        !state.session_ids.contains_key(fresh),
    ensures
        mirrors_sessions(session_opened(state, session_id, fresh, settings).0),
{
    lemma_link_mirrors(state, state.conversation_for(session_id, fresh), session_id);
}

/// Starting a session keeps conversations and sessions pointing at each other.
pub proof fn law_starting_session_keeps_links(
    state: PanelView,
    detail: SessionDetailView,
    fresh: AIConversationId,
    now: Timestamp,
)
    requires
        mirrors_sessions(state),
        !state.session_ids.contains_key(fresh),
    ensures
        mirrors_sessions(session_started(state, Ok(detail), fresh, now).0),
{
    lemma_link_mirrors(
        state,
        state.conversation_for(detail.summary.id, fresh),
        detail.summary.id,
    );
}

/// Once polling was stopped, what was scheduled before is not carried out, and what an earlier poll
/// brings is dropped.
pub proof fn law_stopped_session_polls_are_dropped(
    state: PanelView,
    session_id: Seq<char>,
    settings: OpenCodeServerSettings,
    result: Result<SessionDetailView, Seq<char>>,
    now: Timestamp,
)
    ensures
        ({
            let stopped = state.stop_polling();
            let generation = state.poll_generation;
            &&& session_poll_due(stopped, session_id, generation, settings) == (
                stopped,
                Seq::<PanelEffectView>::empty(),
            )
            &&& session_poll_finished(stopped, session_id, generation, result, now) == (
                stopped,
                Seq::<PanelEffectView>::empty(),
            )
        }),
{
}

/// Sending a prompt makes earlier looks for requests stop, and starts one for the prompt's session.
pub proof fn law_prompt_looks_for_requests(
    state: PanelView,
    plan: PromptPlanView,
    context: OpenCodeTurnContext,
    settings: OpenCodeServerSettings,
    other: Seq<char>,
)
    ensures
        ({
            let next = session_prompt_sent(state, plan, context, settings).0;
            &&& !next.wants_pending_poll(other, state.pending_generation)
            &&& next.wants_pending_poll(plan.session_id, next.pending_generation)
        }),
{
}

/// Once its prompt was answered, nothing of the session waits for the user, and no further look for
/// its requests is wanted.
pub proof fn law_answered_prompt_leaves_nothing_pending(
    state: PanelView,
    session_id: Seq<char>,
    context: OpenCodeTurnContext,
    prompt: Seq<char>,
    result: Result<PromptResultView, Seq<char>>,
    now: Timestamp,
    generation: u64,
)
    ensures
        !session_prompt_finished(
            state,
            session_id,
            context,
            prompt,
            result,
            now,
        ).0.wants_pending_poll(session_id, generation),
{
    let quiet = PanelView { local_turn_session_id: None, ..state };
    let cleared = pending_cleared(quiet, session_id).0;
    law_sorted_out_by_session::<OpenCodePendingPermission>(quiet.permissions, session_id, false);
    law_sorted_out_by_session::<OpenCodePendingQuestion>(quiet.questions, session_id, false);
    lemma_no_permission_of(cleared.permissions, session_id);
    lemma_no_question_of(cleared.questions, session_id);
}

proof fn lemma_no_permission_of(requests: Seq<PermissionView>, session_id: Seq<char>)
    requires
        forall|i: int|
            0 <= i < requests.len() ==> (#[trigger] requests[i]).session_id != session_id,
    ensures
        first_of_session::<OpenCodePendingPermission>(requests, session_id) is None,
    decreases requests.len(),
{
    if requests.len() > 0 {
        let rest = requests.skip(1);
        assert((requests[0]).session_id != session_id);
        assert forall|i: int| 0 <= i < rest.len() implies (#[trigger] rest[i]).session_id != session_id by {
            assert(rest[i] == requests[i + 1]);
        }
        lemma_no_permission_of(rest, session_id);
    }
}

proof fn lemma_no_question_of(requests: Seq<PendingQuestionView>, session_id: Seq<char>)
    requires
        forall|i: int|
            0 <= i < requests.len() ==> (#[trigger] requests[i]).session_id
                != session_id,
    ensures
        first_of_session::<OpenCodePendingQuestion>(requests, session_id) is None,
    decreases requests.len(),
{
    if requests.len() > 0 {
        let rest = requests.skip(1);
        assert((requests[0]).session_id != session_id);
        assert forall|i: int| 0 <= i < rest.len() implies (#[trigger] rest[i]).session_id != session_id by {
            assert(rest[i] == requests[i + 1]);
        }
        lemma_no_question_of(rest, session_id);
    }
}

/// A request is replied to once: a second reply to it is not sent.
pub proof fn law_permission_replied_once(
    state: PanelView,
    request_id: Seq<char>,
    reply: OpenCodePermissionReply,
    again: OpenCodePermissionReply,
    settings: OpenCodeServerSettings,
)
    ensures
        permission_resolved(
            permission_resolved(state, request_id, reply, settings).0,
            request_id,
            again,
            settings,
        ).1 == Seq::<PanelEffectView>::empty(),
{
    let left = without_request::<OpenCodePendingPermission>(state.permissions, request_id);
    law_dropped_request_is_gone::<OpenCodePendingPermission>(state.permissions, request_id);
    lemma_permission_not_found(left, request_id);
}

proof fn lemma_permission_not_found(requests: Seq<PermissionView>, id: Seq<char>)
    requires
        forall|i: int|
            0 <= i < requests.len() ==> (#[trigger] requests[i]).id != id,
    ensures
        request_with_id::<OpenCodePendingPermission>(requests, id) is None,
    decreases requests.len(),
{
    if requests.len() > 0 {
        let rest = requests.skip(1);
        assert((requests[0]).id != id);
        assert forall|i: int| 0 <= i < rest.len() implies (#[trigger] rest[i]).id != id by {
            assert(rest[i] == requests[i + 1]);
        }
        lemma_permission_not_found(rest, id);
    }
}

/// Questions are answered or turned down once.
pub proof fn law_questions_settled_once(
    state: PanelView,
    request_id: Seq<char>,
    answers: Option<Seq<Seq<Seq<char>>>>,
    again: Option<Seq<Seq<Seq<char>>>>,
    settings: OpenCodeServerSettings,
)
    ensures
        question_settled(
            question_settled(state, request_id, answers, settings).0,
            request_id,
            again,
            settings,
        ).1 == Seq::<PanelEffectView>::empty(),
{
    let left = without_request::<OpenCodePendingQuestion>(state.questions, request_id);
    law_dropped_request_is_gone::<OpenCodePendingQuestion>(state.questions, request_id);
    lemma_question_not_found(left, request_id);
}

proof fn lemma_question_not_found(requests: Seq<PendingQuestionView>, id: Seq<char>)
    requires
        forall|i: int|
            0 <= i < requests.len() ==> (#[trigger] requests[i]).id
                != id,
    ensures
        request_with_id::<OpenCodePendingQuestion>(requests, id) is None,
    decreases requests.len(),
{
    if requests.len() > 0 {
        let rest = requests.skip(1);
        assert((requests[0]).id != id);
        assert forall|i: int| 0 <= i < rest.len() implies (#[trigger] rest[i]).id != id by {
            assert(rest[i] == requests[i + 1]);
        }
        lemma_question_not_found(rest, id);
    }
}

/// Switched off, the integration keeps nothing but the project roots.
pub proof fn law_panel_off_forgets_everything(state: PanelView, settings: OpenCodeServerSettings)
    requires
        !settings.enabled,
    ensures
        panel_refreshed(state, settings).0 == (PanelView {
            project_roots: state.project_roots,
            poll_generation: next_generation(state.poll_generation),
            pending_generation: state.pending_generation,
            ..PanelView::initial(state.path_style)
        }),
        panel_refreshed(state, settings).1 == everything_changed(),
{
}

/// After the server's lists arrived, the selected model is one that it offers.
pub proof fn law_selected_model_is_listed(
    state: PanelView,
    sessions: Seq<SessionView>,
    models: Seq<ModelInfoView>,
)
    ensures
        panel_refresh_finished(state, Ok((sessions, models))).0.selected_model_id matches Some(id)
            ==> model_named(models, id) is Some,
{
}

/// An answer is always shown: it is never blank.
pub proof fn law_answer_is_shown(result: PromptResultView, prompt: Seq<char>)
    ensures
        !is_blank(shown_answer(Ok(result), prompt)),
{
    reveal_strlit("OpenCode returned no response text.");
    assert("OpenCode returned no response text."@[0] == 'O');
    assert(!is_space('O'));
}

} // verus!
