//! The panel that lists the Codex conversations.
use crate::codex_app_server::address::{codex_start_command, start_command};
use crate::codex_app_server::approval::CodexApprovalDecision;
use crate::codex_app_server::effect::{CodexAppServerStatus, StatusView};
use crate::codex_app_server::types::{CodexThreadSummary, SummaryView, summary_views};
use crate::conversation_list::{is_listed, lists};
use crate::ordered::{kept, lemma_kept};
use crate::text::{concat2, opt_view};
use vstd::prelude::*;

verus! {

/// What the user asks for.
#[derive(Debug, PartialEq, Eq)]
pub enum CodexConversationsAction {
    Refresh,
    NewConversation,
    OpenThread(String),
    ResolveApproval(CodexApprovalDecision),
}

/// The threads that a search finds.
pub open spec fn found_threads(all: Seq<SummaryView>, query: Seq<char>) -> Seq<SummaryView> {
    kept(all, |t: SummaryView| is_listed(t.title, t.id, t.cwd, query))
}

/// A search finds exactly the threads that it is about.
pub proof fn law_found_threads(all: Seq<SummaryView>, query: Seq<char>, x: SummaryView)
    ensures
        found_threads(all, query).contains(x) <==> all.contains(x) && is_listed(
            x.title,
            x.id,
            x.cwd,
            query,
        ),
{
    lemma_kept(all, |t: SummaryView| is_listed(t.title, t.id, t.cwd, query), x);
}

/// The threads that are shown for a search.
pub fn visible_threads(threads: &Vec<CodexThreadSummary>, query: &str) -> (r: Vec<CodexThreadSummary>)
    ensures
        summary_views(r@) == found_threads(summary_views(threads@), query@),
{
    let ghost all = summary_views(threads@);
    let mut r: Vec<CodexThreadSummary> = Vec::new();
    let mut i: usize = 0;
    assert(summary_views(r@) =~= found_threads(all.take(0), query@));
    while i < threads.len()
        invariant
            i <= threads@.len(),
            all == summary_views(threads@),
            summary_views(r@) == found_threads(all.take(i as int), query@),
        decreases threads@.len() - i,
    {
        let ghost done = summary_views(r@);
        proof {
            assert(all.take(i as int + 1).drop_last() =~= all.take(i as int));
            assert(all.take(i as int + 1).last() == threads@[i as int]@);
        }
        let thread = &threads[i];
        if lists(thread.title.as_str(), thread.id.as_str(), &thread.cwd, query) {
            r.push(thread.clone());
            assert(summary_views(r@) =~= done.push(threads@[i as int]@));
        }
        i = i + 1;
    }
    assert(all.take(i as int) =~= all);
    r
}

/// What is said where nothing is shown.
pub const NO_CODEX_CONVERSATIONS: &'static str = "No Codex conversations found for this project.";

/// How to start the server, where there is no connection to it.
pub open spec fn thread_start_hint(status: StatusView, server_url: Seq<char>) -> Option<Seq<char>> {
    match status {
        StatusView::Disconnected { .. } => Some("Start server: "@ + start_command(server_url)),
        _ => None,
    }
}

/// How to start the server, where there is no connection to it.
pub fn start_hint(status: &CodexAppServerStatus, server_url: &str) -> (r: Option<String>)
    ensures
        opt_view(r) == thread_start_hint(status@, server_url@),
{
    match status {
        CodexAppServerStatus::Disconnected { .. } => Some(
            concat2("Start server: ", codex_start_command(server_url).as_str()),
        ),
        _ => None,
    }
}

} // verus!
