//! The panel that lists the sessions of an OpenCode server.
use crate::conversation_list::{is_listed, lists};
use crate::modeled::contents;
use crate::opencode_server::address::{opencode_start_command, serve_command};
use crate::opencode_server::types::{
    OpenCodeServerStatus, OpenCodeSessionSummary, ServerStatusView, SessionView,
};
use crate::ordered::{kept, lemma_kept};
use crate::text::{concat2, opt_view, same};
use vstd::prelude::*;

verus! {

/// What the user asks for.
#[derive(Debug, PartialEq, Eq)]
pub enum OpenCodeConversationsAction {
    Refresh,
    NewConversation,
    OpenSession(String),
    ToggleSessionMenu(String),
    DeleteSession(String),
}

/// The sessions that a search finds.
pub open spec fn found_sessions(all: Seq<SessionView>, query: Seq<char>) -> Seq<SessionView> {
    kept(all, |s: SessionView| is_listed(s.title, s.id, s.directory, query))
}

/// A search finds exactly the sessions that it is about.
pub proof fn law_found_sessions(all: Seq<SessionView>, query: Seq<char>, x: SessionView)
    ensures
        found_sessions(all, query).contains(x) <==> all.contains(x) && is_listed(
            x.title,
            x.id,
            x.directory,
            query,
        ),
{
    lemma_kept(all, |s: SessionView| is_listed(s.title, s.id, s.directory, query), x);
}

/// The sessions that are shown for a search.
pub fn visible_sessions(sessions: &Vec<OpenCodeSessionSummary>, query: &str) -> (r: Vec<OpenCodeSessionSummary>)
    ensures
        contents(r@) == found_sessions(contents(sessions@), query@),
{
    let ghost all = contents(sessions@);
    let mut r: Vec<OpenCodeSessionSummary> = Vec::new();
    let mut i: usize = 0;
    assert(contents(r@) =~= found_sessions(all.take(0), query@));
    while i < sessions.len()
        invariant
            i <= sessions@.len(),
            all == contents(sessions@),
            contents(r@) == found_sessions(all.take(i as int), query@),
        decreases sessions@.len() - i,
    {
        let ghost done = contents(r@);
        proof {
            assert(all.take(i as int + 1).drop_last() =~= all.take(i as int));
            assert(all.take(i as int + 1).last() == sessions@[i as int]@);
        }
        let session = &sessions[i];
        if lists(session.title.as_str(), session.id.as_str(), &session.directory, query) {
            r.push(session.clone());
            assert(contents(r@) =~= done.push(sessions@[i as int]@));
        }
        i = i + 1;
    }
    assert(all.take(i as int) =~= all);
    r
}

/// What is said where nothing is shown.
pub const NO_OPENCODE_CONVERSATIONS: &'static str = "No OpenCode conversations found for this project.";

/// How to start the server, where there is no connection to it.
pub open spec fn session_start_hint(status: ServerStatusView, server_url: Seq<char>) -> Option<Seq<char>> {
    match status {
        ServerStatusView::Disconnected { .. } => Some("Start server: "@ + serve_command(server_url)),
        _ => None,
    }
}

/// How to start the server, where there is no connection to it.
pub fn start_hint(status: &OpenCodeServerStatus, server_url: &str) -> (r: Option<String>)
    ensures
        opt_view(r) == session_start_hint(status@, server_url@),
{
    match status {
        OpenCodeServerStatus::Disconnected { .. } => Some(
            concat2("Start server: ", opencode_start_command(server_url).as_str()),
        ),
        _ => None,
    }
}

/// What stands at the end of a row: the status of the session, or else its age.
pub open spec fn trailing_of(status: Option<Seq<char>>, age: Option<Seq<char>>) -> Option<Seq<char>> {
    match status {
        Some(status) => Some(status),
        None => age,
    }
}

/// What stands at the end of a row.
pub fn row_trailing(session: &OpenCodeSessionSummary, age: Option<String>) -> (r: Option<String>)
    ensures
        opt_view(r) == trailing_of(session@.status, opt_view(age)),
{
    match &session.status {
        Some(status) => Some(status.clone()),
        None => age,
    }
}

/// What the panel asks of its surroundings. The first four are asked of the model behind it.
#[derive(Debug, PartialEq, Eq)]
pub enum OpenCodePanelEffect {
    Refresh,
    StartNewConversation,
    OpenSession { session_id: String },
    DeleteSession { session_id: String },
    /// Offer to delete a session in the menu.
    OfferDelete { session_id: String },
    /// Draw the panel again.
    Notify,
}

/// The model of an `OpenCodePanelEffect`.
pub enum PanelActionView {
    Refresh,
    StartNewConversation,
    OpenSession { session_id: Seq<char> },
    DeleteSession { session_id: Seq<char> },
    OfferDelete { session_id: Seq<char> },
    Notify,
}

impl OpenCodePanelEffect {
    pub open spec fn view(&self) -> PanelActionView {
        match self {
            OpenCodePanelEffect::Refresh => PanelActionView::Refresh,
            OpenCodePanelEffect::StartNewConversation => PanelActionView::StartNewConversation,
            OpenCodePanelEffect::OpenSession { session_id } => PanelActionView::OpenSession {
                session_id: session_id@,
            },
            OpenCodePanelEffect::DeleteSession { session_id } => PanelActionView::DeleteSession {
                session_id: session_id@,
            },
            OpenCodePanelEffect::OfferDelete { session_id } => PanelActionView::OfferDelete {
                session_id: session_id@,
            },
            OpenCodePanelEffect::Notify => PanelActionView::Notify,
        }
    }
}

/// The models of a list of effects.
pub open spec fn panel_actions(effects: Seq<OpenCodePanelEffect>) -> Seq<PanelActionView> {
    effects.map_values(|e: OpenCodePanelEffect| e@)
}

/// The session whose menu is open after an action, and what is asked for.
pub open spec fn menu_after(menu: Option<Seq<char>>, action: OpenCodeConversationsAction) -> (
    Option<Seq<char>>,
    Seq<PanelActionView>,
) {
    match action {
        OpenCodeConversationsAction::Refresh => (menu, seq![PanelActionView::Refresh]),
        OpenCodeConversationsAction::NewConversation => (
            menu,
            seq![PanelActionView::StartNewConversation],
        ),
        OpenCodeConversationsAction::OpenSession(id) => (
            menu,
            seq![PanelActionView::OpenSession { session_id: id@ }],
        ),
        OpenCodeConversationsAction::ToggleSessionMenu(id) => if menu == Some(id@) {
            (None, seq![PanelActionView::Notify])
        } else {
            (
                Some(id@),
                seq![PanelActionView::OfferDelete { session_id: id@ }, PanelActionView::Notify],
            )
        },
        OpenCodeConversationsAction::DeleteSession(id) => (
            None,
            seq![PanelActionView::DeleteSession { session_id: id@ }, PanelActionView::Notify],
        ),
    }
}

/// The panel: the session whose menu is open.
#[derive(Debug)]
pub struct OpenCodeConversationsView {
    menu_open_for: Option<String>,
}

impl OpenCodeConversationsView {
    pub closed spec fn view(&self) -> Option<Seq<char>> {
        opt_view(self.menu_open_for)
    }

    /// A panel without an open menu.
    pub fn new() -> (r: Self)
        ensures
            r@ is None,
    {
        OpenCodeConversationsView { menu_open_for: None }
    }

    /// The menu of a session is open.
    pub fn is_menu_open(&self, session_id: &str) -> (r: bool)
        ensures
            r == (self@ == Some(session_id@)),
    {
        match &self.menu_open_for {
            Some(id) => same(id.as_str(), session_id),
            None => false,
        }
    }

    /// The menu was closed.
    pub fn close_menu(&mut self)
        ensures
            final(self)@ is None,
    {
        self.menu_open_for = None;
    }

    /// Does what the user asks for.
    pub fn handle_action(&mut self, action: OpenCodeConversationsAction) -> (r: Vec<
        OpenCodePanelEffect,
    >)
        ensures
            (final(self)@, panel_actions(r@)) == menu_after(old(self)@, action),
    {
        let ghost result = menu_after(self@, action);
        let mut effects: Vec<OpenCodePanelEffect> = Vec::new();
        match action {
            OpenCodeConversationsAction::Refresh => {
                effects.push(OpenCodePanelEffect::Refresh);
            },
            OpenCodeConversationsAction::NewConversation => {
                effects.push(OpenCodePanelEffect::StartNewConversation);
            },
            OpenCodeConversationsAction::OpenSession(session_id) => {
                effects.push(OpenCodePanelEffect::OpenSession { session_id });
            },
            OpenCodeConversationsAction::ToggleSessionMenu(session_id) => {
                if self.is_menu_open(session_id.as_str()) {
                    self.menu_open_for = None;
                } else {
                    effects.push(
                        OpenCodePanelEffect::OfferDelete { session_id: session_id.clone() },
                    );
                    self.menu_open_for = Some(session_id);
                }
                effects.push(OpenCodePanelEffect::Notify);
            },
            OpenCodeConversationsAction::DeleteSession(session_id) => {
                self.menu_open_for = None;
                effects.push(OpenCodePanelEffect::DeleteSession { session_id });
                effects.push(OpenCodePanelEffect::Notify);
            },
        }
        assert(panel_actions(effects@) =~= result.1);
        effects
    }
}

} // verus!
