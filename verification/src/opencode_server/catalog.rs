//! The sessions, projects and models that an OpenCode server offers.
use crate::modeled::{contents, opt_content};
use crate::opencode_server::types::{OpenCodeSessionSummary, SessionView, same_number};
use crate::opencode_server::wire::{
    OpenCodeProjectWire, OpenCodeSessionWire, SessionWireView, listed_summary,
    session_summary_for_directory, summary_of,
};
use crate::ordered::{
    Keyed, Ranked, entries, insert_by_key, insert_keyed, is_keyed, is_order, is_sorted,
    law_insert_keyed, law_sorted_in_order, law_sorting_keeps_items, models, sorted_by, stable_sort,
};
use crate::path::{
    PathStyle, add_path, components, components_of, inside, is_inside, lemma_with_path,
    no_path_twice, with_path,
};
use crate::text::{
    clone_option, lemma_text_lt_total, lemma_text_lt_trans, less, opt_str_view, same, text_lt,
    views,
};
use crate::text_map::pair_views;
use vstd::prelude::*;

verus! {

/// An absent time comes before any other.
pub open spec fn earlier_time(a: Option<i64>, b: Option<i64>) -> bool {
    match (a, b) {
        (None, Some(_)) => true,
        (Some(a), Some(b)) => a < b,
        _ => false,
    }
}

/// The order of the list of sessions: the latest first, then by title.
pub open spec fn session_precedes(a: SessionView, b: SessionView) -> bool {
    earlier_time(b.updated_at, a.updated_at) || (a.updated_at == b.updated_at && text_lt(
        a.title,
        b.title,
    ))
}

/// The list of sessions can be put in its order.
pub proof fn lemma_session_order()
    ensures
        is_order(|a: SessionView, b: SessionView| session_precedes(a, b)),
{
    let precedes = |a: SessionView, b: SessionView| session_precedes(a, b);
    assert forall|a: SessionView, b: SessionView| #[trigger] precedes(a, b) implies !precedes(
        b,
        a,
    ) by {
        lemma_text_lt_total(a.title, b.title);
    }
    assert forall|a: SessionView, b: SessionView, c: SessionView|
        !#[trigger] precedes(b, a) && !#[trigger] precedes(c, b) implies !precedes(c, a) by {
        lemma_text_lt_total(a.title, b.title);
        lemma_text_lt_total(b.title, c.title);
        lemma_text_lt_total(a.title, c.title);
        if text_lt(a.title, b.title) && text_lt(b.title, c.title) {
            lemma_text_lt_trans(a.title, b.title, c.title);
        }
    }
}

/// The sessions in the order of their list.
pub open spec fn session_list(sessions: Seq<SessionView>) -> Seq<SessionView> {
    sorted_by(sessions, |a: SessionView, b: SessionView| session_precedes(a, b))
}

/// The list of sessions is in its order, whatever was found: no session stands behind one that is
/// older, nor, of two of the same time, behind one with a later title.
pub proof fn law_session_list_in_order(found: Seq<SessionView>)
    ensures
        is_sorted(
            session_list(found),
            |a: SessionView, b: SessionView| session_precedes(a, b),
        ),
        session_list(found).to_multiset() == found.to_multiset(),
{
    lemma_session_order();
    law_sorted_in_order(found, |a: SessionView, b: SessionView| session_precedes(a, b));
    law_sorting_keeps_items(found, |a: SessionView, b: SessionView| session_precedes(a, b));
}

fn time_less(a: Option<i64>, b: Option<i64>) -> (r: bool)
    ensures
        r == earlier_time(a, b),
{
    match (a, b) {
        (None, Some(_)) => true,
        (Some(a), Some(b)) => a < b,
        _ => false,
    }
}

impl Ranked for OpenCodeSessionSummary {
    type Model = SessionView;

    open spec fn model(&self) -> SessionView {
        self@
    }

    open spec fn precedes(a: SessionView, b: SessionView) -> bool {
        session_precedes(a, b)
    }

    fn is_before(&self, other: &Self) -> (r: bool) {
        time_less(other.updated_at, self.updated_at) || (same_number(
            self.updated_at,
            other.updated_at,
        ) && less(self.title.as_str(), other.title.as_str()))
    }
}

impl Keyed for OpenCodeSessionSummary {
    type Model = SessionView;

    open spec fn entry(&self) -> SessionView {
        self@
    }

    open spec fn key_of(m: SessionView) -> Seq<char> {
        m.id
    }

    fn key(&self) -> (r: &str) {
        self.id.as_str()
    }
}

/// The sessions in the order of their list.
pub fn sort_sessions(sessions: Vec<OpenCodeSessionSummary>) -> (r: Vec<OpenCodeSessionSummary>)
    ensures
        contents(r@) == session_list(contents(sessions@)),
{
    let ghost before = contents(sessions@);
    let r = stable_sort(sessions);
    proof {
        assert(models(sessions@) =~= before);
        assert(models(r@) =~= contents(r@));
        assert((|a: SessionView, b: SessionView| OpenCodeSessionSummary::precedes(a, b)) =~= (
        |a: SessionView, b: SessionView| session_precedes(a, b)));
    }
    r
}

/// The sessions known, with those of one directory. A session of a later directory takes the place
/// of one with the same identifier.
pub open spec fn with_sessions(
    known: Seq<SessionView>,
    found: Seq<SessionWireView>,
    directory: Seq<char>,
    statuses: Seq<(Seq<char>, Seq<char>)>,
) -> Seq<SessionView>
    decreases found.len(),
{
    if found.len() == 0 {
        known
    } else {
        let before = with_sessions(known, found.drop_last(), directory, statuses);
        match listed_summary(found.last(), directory, statuses) {
            Some(summary) => insert_keyed(before, summary, |m: SessionView| m.id),
            None => before,
        }
    }
}

/// The list of sessions names each session once.
pub proof fn law_each_session_listed_once(
    known: Seq<SessionView>,
    found: Seq<SessionWireView>,
    directory: Seq<char>,
    statuses: Seq<(Seq<char>, Seq<char>)>,
)
    requires
        is_keyed(known, |m: SessionView| m.id),
    ensures
        is_keyed(with_sessions(known, found, directory, statuses), |m: SessionView| m.id),
    decreases found.len(),
{
    if found.len() > 0 {
        law_each_session_listed_once(known, found.drop_last(), directory, statuses);
        let before = with_sessions(known, found.drop_last(), directory, statuses);
        if let Some(summary) = listed_summary(found.last(), directory, statuses) {
            law_insert_keyed(before, summary, |m: SessionView| m.id);
        }
    }
}

/// The sessions found so far, in the order of their identifiers.
pub struct OpenCodeSessionCatalog {
    sessions: Vec<OpenCodeSessionSummary>,
}

impl OpenCodeSessionCatalog {
    pub closed spec fn view(&self) -> Seq<SessionView> {
        contents(self.sessions@)
    }

    /// No sessions.
    pub fn new() -> (r: Self)
        ensures
            r@ == Seq::<SessionView>::empty(),
    {
        let r = OpenCodeSessionCatalog { sessions: Vec::new() };
        assert(r@ =~= Seq::empty());
        r
    }

    fn insert(&mut self, summary: OpenCodeSessionSummary)
        ensures
            final(self)@ == insert_keyed(old(self)@, summary@, |m: SessionView| m.id),
    {
        let ghost before = entries(self.sessions@);
        assert(before =~= contents(self.sessions@));
        insert_by_key(&mut self.sessions, summary);
        proof {
            assert(entries(self.sessions@) =~= contents(self.sessions@));
            assert((|m: SessionView| OpenCodeSessionSummary::key_of(m)) =~= (|m: SessionView|
                m.id));
        }
    }

    /// Adds the sessions of a directory.
    pub fn add_directory(
        &mut self,
        found: &Vec<OpenCodeSessionWire>,
        directory: &str,
        statuses: &Vec<(String, String)>,
    )
        ensures
            final(self)@ == with_sessions(
                old(self)@,
                contents(found@),
                directory@,
                pair_views(statuses@),
            ),
    {
        let ghost start = self@;
        let ghost all = contents(found@);
        let mut i: usize = 0;
        while i < found.len()
            invariant
                i <= found@.len(),
                all == contents(found@),
                self@ == with_sessions(
                    start,
                    all.take(i as int),
                    directory@,
                    pair_views(statuses@),
                ),
            decreases found@.len() - i,
        {
            proof {
                assert(all.take(i as int + 1).drop_last() =~= all.take(i as int));
                assert(all.take(i as int + 1).last() == found@[i as int]@);
            }
            let session = copy_session(&found[i]);
            if let Some(summary) = session_summary_for_directory(session, directory, statuses) {
                self.insert(summary);
            }
            i = i + 1;
        }
        assert(all.take(i as int) =~= all);
    }

    /// The list of sessions: the latest first, then by title.
    pub fn into_sessions(self) -> (r: Vec<OpenCodeSessionSummary>)
        ensures
            contents(r@) == session_list(self@),
    {
        sort_sessions(self.sessions)
    }
}

fn copy_session(session: &OpenCodeSessionWire) -> (r: OpenCodeSessionWire)
    ensures
        r@ == session@,
{
    OpenCodeSessionWire {
        id: session.id.clone(),
        parent_id: clone_option(&session.parent_id),
        title: clone_option(&session.title),
        slug: clone_option(&session.slug),
        project_id: clone_option(&session.project_id),
        directory: clone_option(&session.directory),
        updated_at: session.updated_at,
    }
}

/// The position of the first session with an identifier.
pub open spec fn session_position(sessions: Seq<SessionView>, id: Seq<char>) -> Option<int>
    decreases sessions.len(),
{
    if sessions.len() == 0 {
        None
    } else if sessions[0].id == id {
        Some(0)
    } else {
        match session_position(sessions.skip(1), id) {
            Some(i) => Some(i + 1),
            None => None,
        }
    }
}

/// The first session with an identifier.
pub open spec fn session_with_id(sessions: Seq<SessionView>, id: Seq<char>) -> Option<SessionView> {
    match session_position(sessions, id) {
        Some(i) => Some(sessions[i]),
        None => None,
    }
}

/// The position of the first session with an identifier.
pub fn find_session(sessions: &Vec<OpenCodeSessionSummary>, id: &str) -> (r: Option<usize>)
    ensures
        match r {
            Some(i) => i < sessions@.len() && session_position(contents(sessions@), id@) == Some(
                i as int,
            ),
            None => session_position(contents(sessions@), id@) is None,
        },
{
    let ghost all = contents(sessions@);
    let mut i: usize = 0;
    assert(all.skip(0) =~= all);
    while i < sessions.len()
        invariant
            i <= sessions@.len(),
            all == contents(sessions@),
            session_position(all, id@) == (match session_position(all.skip(i as int), id@) {
                Some(j) => Some(i + j),
                None => None,
            }),
        decreases sessions@.len() - i,
    {
        assert(all.skip(i as int)[0] == sessions@[i as int]@);
        assert(all.skip(i as int).skip(1) =~= all.skip(i as int + 1));
        if same(sessions[i].id.as_str(), id) {
            return Some(i);
        }
        i = i + 1;
    }
    None
}

/// The list of sessions with a session's latest summary. A summary that says nothing new changes
/// nothing.
pub open spec fn with_summary(
    style: PathStyle,
    sessions: Seq<SessionView>,
    summary: SessionView,
) -> Seq<
    SessionView,
> {
    match session_position(sessions, summary.id) {
        Some(i) => if sessions[i].says_same(style, summary) {
            sessions
        } else {
            session_list(sessions.update(i, summary))
        },
        None => session_list(sessions.push(summary)),
    }
}

/// The summary says something that the list of sessions does not say.
pub open spec fn is_new_summary(
    style: PathStyle,
    sessions: Seq<SessionView>,
    summary: SessionView,
) -> bool {
    match session_with_id(sessions, summary.id) {
        Some(known) => !known.says_same(style, summary),
        None => true,
    }
}

/// Puts a session's latest summary into the list, and says whether the list changed.
pub fn upsert_session_summary(
    style: PathStyle,
    sessions: &mut Vec<OpenCodeSessionSummary>,
    summary: OpenCodeSessionSummary,
) -> (changed: bool)
    ensures
        contents(final(sessions)@) == with_summary(style, contents(old(sessions)@), summary@),
        changed == is_new_summary(style, contents(old(sessions)@), summary@),
{
    let ghost before = contents(sessions@);
    let mut list: Vec<OpenCodeSessionSummary> = Vec::new();
    match find_session(sessions, summary.id.as_str()) {
        Some(i) => {
            assert(before[i as int] == sessions@[i as int]@);
            if sessions[i].says_same(style, &summary) {
                return false;
            }
            std::mem::swap(&mut list, sessions);
            list.set(i, summary);
            assert(contents(list@) =~= before.update(i as int, summary@));
        },
        None => {
            std::mem::swap(&mut list, sessions);
            list.push(summary);
            assert(contents(list@) =~= before.push(summary@));
        },
    }
    *sessions = sort_sessions(list);
    true
}

/// The project that a path belongs to: of the projects that it lies inside, the one that is nested
/// deepest, and of several such the last.
pub open spec fn project_of_path(
    style: PathStyle,
    worktrees: Seq<Seq<char>>,
    path: Seq<char>,
) -> Option<Seq<char>>
    decreases worktrees.len(),
{
    if worktrees.len() == 0 {
        None
    } else {
        let before = project_of_path(style, worktrees.drop_last(), path);
        let worktree = worktrees.last();
        if !is_inside(style, path, worktree) {
            before
        } else {
            match before {
                Some(best) => if components(
                    style,
                    worktree,
                ).len() >= components(style, best).len() {
                    Some(worktree)
                } else {
                    before
                },
                None => Some(worktree),
            }
        }
    }
}

/// A path lies inside the project that it belongs to, and inside no project that is nested deeper.
pub proof fn law_deepest_project(style: PathStyle, worktrees: Seq<Seq<char>>, path: Seq<char>)
    ensures
        match project_of_path(style, worktrees, path) {
            Some(best) => worktrees.contains(best) && is_inside(style, path, best) && forall|i: int|
                0 <= i < worktrees.len() && is_inside(style, path, #[trigger] worktrees[i])
                    ==> components(style, worktrees[i]).len() <= components(style, best).len(),
            None => forall|i: int|
                0 <= i < worktrees.len() ==> !is_inside(style, path, #[trigger] worktrees[i]),
        },
    decreases worktrees.len(),
{
    if worktrees.len() > 0 {
        let front = worktrees.drop_last();
        law_deepest_project(style, front, path);
        let n = worktrees.len() - 1;
        assert(worktrees[n] == worktrees.last());
        if let Some(best) = project_of_path(style, front, path) {
            let k = choose|k: int| 0 <= k < front.len() && front[k] == best;
            assert(worktrees[k] == best);
        }
        assert forall|i: int|
            0 <= i < worktrees.len() && is_inside(style, path, #[trigger] worktrees[i]) implies (
        project_of_path(
            style,
            worktrees,
            path,
        ) is Some && components(style, worktrees[i]).len() <= components(
            style,
            project_of_path(style, worktrees, path)->0,
        ).len()) by {
            if i < n {
                assert(front[i] == worktrees[i]);
            }
        }
    }
}

/// The directories of the projects that the open project roots belong to.
pub open spec fn root_directories(
    style: PathStyle,
    worktrees: Seq<Seq<char>>,
    roots: Seq<Seq<char>>,
) -> Seq<
    Seq<char>,
>
    decreases roots.len(),
{
    if roots.len() == 0 {
        Seq::empty()
    } else {
        let before = root_directories(style, worktrees, roots.drop_last());
        match project_of_path(style, worktrees, roots.last()) {
            Some(worktree) => with_path(style, before, worktree),
            None => before,
        }
    }
}

/// The directories, with those of the imported projects: of the project that an imported path
/// belongs to, else the path itself.
pub open spec fn imported_directories(
    style: PathStyle,
    worktrees: Seq<Seq<char>>,
    known: Seq<Seq<char>>,
    imported: Seq<Seq<char>>,
) -> Seq<Seq<char>>
    decreases imported.len(),
{
    if imported.len() == 0 {
        known
    } else {
        with_path(
            style,
            imported_directories(style, worktrees, known, imported.drop_last()),
            match project_of_path(style, worktrees, imported.last()) {
                Some(worktree) => worktree,
                None => imported.last(),
            },
        )
    }
}

/// The directories whose sessions are listed.
pub open spec fn matched_directories(
    style: PathStyle,
    worktrees: Seq<Seq<char>>,
    roots: Seq<Seq<char>>,
    imported: Seq<Seq<char>>,
) -> Seq<Seq<char>> {
    imported_directories(style, worktrees, root_directories(style, worktrees, roots), imported)
}

/// The directories of projects.
pub open spec fn worktrees_of(projects: Seq<OpenCodeProjectWire>) -> Seq<Seq<char>> {
    projects.map_values(|p: OpenCodeProjectWire| p.worktree@)
}

fn find_project<'a>(
    style: PathStyle,
    projects: &'a Vec<OpenCodeProjectWire>,
    path: &str,
) -> (r: Option<&'a str>)
    ensures
        opt_str_view(r) == project_of_path(style, worktrees_of(projects@), path@),
{
    let ghost all = worktrees_of(projects@);
    let mut best: Option<&'a str> = None;
    let mut i: usize = 0;
    while i < projects.len()
        invariant
            i <= projects@.len(),
            all == worktrees_of(projects@),
            opt_str_view(best) == project_of_path(style, all.take(i as int), path@),
        decreases projects@.len() - i,
    {
        let worktree = projects[i].worktree.as_str();
        proof {
            assert(all.take(i as int + 1).drop_last() =~= all.take(i as int));
            assert(all.take(i as int + 1).last() == worktree@);
        }
        if inside(style, path, worktree) {
            let deeper = match best {
                Some(known) => {
                    let depth = components_of(style, worktree);
                    let known_depth = components_of(style, known);
                    assert(components(style, worktree@).len() == depth@.len());
                    assert(components(style, known@).len() == known_depth@.len());
                    depth.len() >= known_depth.len()
                },
                None => true,
            };
            if deeper {
                best = Some(worktree);
            }
        }
        i = i + 1;
    }
    assert(all.take(i as int) =~= all);
    best
}

/// The directories whose sessions are listed.
pub fn matched_project_directories(
    style: PathStyle,
    projects: &Vec<OpenCodeProjectWire>,
    project_roots: &Vec<String>,
    imported_project_paths: &Vec<String>,
) -> (r: Vec<String>)
    ensures
        views(r@) == matched_directories(
            style,
            worktrees_of(projects@),
            views(project_roots@),
            views(imported_project_paths@),
        ),
{
    let ghost worktrees = worktrees_of(projects@);
    let ghost roots = views(project_roots@);
    let ghost imported = views(imported_project_paths@);
    let mut r: Vec<String> = Vec::new();
    let mut i: usize = 0;
    assert(views(r@) =~= root_directories(style, worktrees, roots.take(0)));
    while i < project_roots.len()
        invariant
            i <= project_roots@.len(),
            worktrees == worktrees_of(projects@),
            roots == views(project_roots@),
            views(r@) == root_directories(style, worktrees, roots.take(i as int)),
        decreases project_roots@.len() - i,
    {
        proof {
            assert(roots.take(i as int + 1).drop_last() =~= roots.take(i as int));
            assert(roots.take(i as int + 1).last() == project_roots@[i as int]@);
        }
        if let Some(worktree) = find_project(style, projects, project_roots[i].as_str()) {
            add_path(style, &mut r, worktree);
        }
        i = i + 1;
    }
    assert(roots.take(i as int) =~= roots);
    let ghost known = views(r@);
    let mut j: usize = 0;
    assert(imported.take(0) =~= Seq::empty());
    while j < imported_project_paths.len()
        invariant
            j <= imported_project_paths@.len(),
            worktrees == worktrees_of(projects@),
            imported == views(imported_project_paths@),
            views(r@) == imported_directories(style, worktrees, known, imported.take(j as int)),
        decreases imported_project_paths@.len() - j,
    {
        let path = imported_project_paths[j].as_str();
        proof {
            assert(imported.take(j as int + 1).drop_last() =~= imported.take(j as int));
            assert(imported.take(j as int + 1).last() == path@);
        }
        match find_project(style, projects, path) {
            Some(worktree) => {
                add_path(style, &mut r, worktree);
            },
            None => {
                add_path(style, &mut r, path);
            },
        }
        j = j + 1;
    }
    assert(imported.take(j as int) =~= imported);
    r
}

/// No directory is listed twice.
pub proof fn law_directories_distinct(
    style: PathStyle,
    worktrees: Seq<Seq<char>>,
    roots: Seq<Seq<char>>,
    imported: Seq<Seq<char>>,
)
    ensures
        no_path_twice(style, matched_directories(style, worktrees, roots, imported)),
{
    lemma_roots_distinct(style, worktrees, roots);
    lemma_imports_distinct(style, worktrees, root_directories(style, worktrees, roots), imported);
}

proof fn lemma_roots_distinct(style: PathStyle, worktrees: Seq<Seq<char>>, roots: Seq<Seq<char>>)
    ensures
        no_path_twice(style, root_directories(style, worktrees, roots)),
    decreases roots.len(),
{
    if roots.len() > 0 {
        lemma_roots_distinct(style, worktrees, roots.drop_last());
        if let Some(worktree) = project_of_path(style, worktrees, roots.last()) {
            lemma_with_path(style, root_directories(style, worktrees, roots.drop_last()), worktree);
        }
    }
}

proof fn lemma_imports_distinct(
    style: PathStyle,
    worktrees: Seq<Seq<char>>,
    known: Seq<Seq<char>>,
    imported: Seq<Seq<char>>,
)
    requires
        no_path_twice(style, known),
    ensures
        no_path_twice(style, imported_directories(style, worktrees, known, imported)),
    decreases imported.len(),
{
    if imported.len() > 0 {
        lemma_imports_distinct(style, worktrees, known, imported.drop_last());
        lemma_with_path(
            style,
            imported_directories(style, worktrees, known, imported.drop_last()),
            match project_of_path(style, worktrees, imported.last()) {
                Some(worktree) => worktree,
                None => imported.last(),
            },
        );
    }
}

/// The directory of a new session: the first whose sessions are listed, else the first project
/// root, else the first imported path.
pub open spec fn new_session_directory(
    style: PathStyle,
    worktrees: Seq<Seq<char>>,
    roots: Seq<Seq<char>>,
    imported: Seq<Seq<char>>,
) -> Option<Seq<char>> {
    let matched = matched_directories(style, worktrees, roots, imported);
    if matched.len() > 0 {
        Some(matched[0])
    } else if roots.len() > 0 {
        Some(roots[0])
    } else if imported.len() > 0 {
        Some(imported[0])
    } else {
        None
    }
}

/// The directory of a new session.
pub fn directory_for_new_session(
    style: PathStyle,
    projects: &Vec<OpenCodeProjectWire>,
    project_roots: &Vec<String>,
    imported_project_paths: &Vec<String>,
) -> (r: Result<String, String>)
    ensures
        match new_session_directory(
            style,
            worktrees_of(projects@),
            views(project_roots@),
            views(imported_project_paths@),
        ) {
            Some(directory) => r is Ok && r->Ok_0@ == directory,
            None => r is Err && r->Err_0@ == "No OpenCode project directory is available"@,
        },
{
    let matched = matched_project_directories(
        style,
        projects,
        project_roots,
        imported_project_paths,
    );
    assert(views(matched@).len() == matched@.len());
    if matched.len() > 0 {
        Ok(matched[0].clone())
    } else if project_roots.len() > 0 {
        Ok(project_roots[0].clone())
    } else if imported_project_paths.len() > 0 {
        Ok(imported_project_paths[0].clone())
    } else {
        Err("No OpenCode project directory is available".to_owned())
    }
}

/// The session's own directory stands where the server states none.
pub open spec fn with_directory_of(
    summary: SessionView,
    fallback: Option<SessionView>,
) -> SessionView {
    SessionView {
        directory: match summary.directory {
            Some(directory) => Some(directory),
            None => match fallback {
                Some(fallback) => fallback.directory,
                None => None,
            },
        },
        ..summary
    }
}

/// The summary of a session that was read: what the server says, else what is known of it.
pub open spec fn read_summary(
    session: Option<SessionWireView>,
    fallback: Option<SessionView>,
) -> Option<SessionView> {
    match session {
        Some(session) => Some(with_directory_of(summary_of(session), fallback)),
        None => fallback,
    }
}

/// The summary of a session that was read; `None` where the server's error is to be told.
pub fn session_summary_or_fallback(
    session: Option<OpenCodeSessionWire>,
    fallback: Option<OpenCodeSessionSummary>,
) -> (r: Option<OpenCodeSessionSummary>)
    ensures
        opt_content(r) == read_summary(opt_content(session), opt_content(fallback)),
{
    match session {
        Some(session) => {
            let mut summary = session.into_summary();
            if summary.directory.is_none() {
                if let Some(fallback) = fallback {
                    summary.directory = fallback.directory;
                }
            }
            Some(summary)
        },
        None => fallback,
    }
}

} // verus!
