//! The panel that lists the running Docker containers.
use crate::docker_containers::{
    ContainerView, DockerContainerSortColumn, DockerContainerSummary, DockerContainersAction,
    DockerContainersEvent, DockerLogTarget, LogTargetView, SortDirection, column_name,
    container_views, containers_result, direction_name, docker_log_tail_command,
    docker_logs_command, log_tail_command, logs_command,
};
use crate::ordered::{
    Ranked, insert_ranked, is_order, is_sorted, kept, law_sorted_in_order, law_sorting_keeps_items,
    lemma_kept, models, sorted_by, stable_sort,
};
use crate::text::{
    clone_option, concat2, concat3, contains, contains_same, contains_text, decimal, decimal_of,
    lemma_text_lt_total, lemma_text_lt_trans, less, lower, lowered, opt_str_view, opt_view, same,
    text_lt, text_result, trim, trimmed, views,
};
use crate::time::is_earlier;
use vstd::prelude::*;

verus! {

/// What the containers are sorted by where that is a text.
pub open spec fn sort_text(c: ContainerView, column: DockerContainerSortColumn) -> Seq<char> {
    match column {
        DockerContainerSortColumn::Image => lower(c.image_name + ":"@ + c.image_tag),
        _ => lower(c.name),
    }
}

/// The container comes before the other. Those of unknown age come last.
pub open spec fn container_before(
    a: ContainerView,
    b: ContainerView,
    column: DockerContainerSortColumn,
) -> bool {
    match column {
        DockerContainerSortColumn::Age => match (a.created_at, b.created_at) {
            (Some(a), Some(b)) => a.before(b),
            (Some(_), None) => true,
            _ => false,
        },
        _ => text_lt(sort_text(a, column), sort_text(b, column)),
    }
}

/// The order of containers by a column.
pub open spec fn container_order(column: DockerContainerSortColumn) -> spec_fn(
    ContainerView,
    ContainerView,
) -> bool {
    |a: ContainerView, b: ContainerView| container_before(a, b, column)
}

/// The containers are in an order by each column.
pub proof fn law_container_order(column: DockerContainerSortColumn)
    ensures
        is_order(container_order(column)),
{
    let order = container_order(column);
    assert forall|a: ContainerView, b: ContainerView| #[trigger] order(a, b) implies !order(
        b,
        a,
    ) by {
        lemma_text_lt_total(sort_text(a, column), sort_text(b, column));
    }
    assert forall|a: ContainerView, b: ContainerView, c: ContainerView|
        !#[trigger] order(b, a) && !#[trigger] order(c, b) implies !order(c, a) by {
        let (x, y, z) = (sort_text(a, column), sort_text(b, column), sort_text(c, column));
        lemma_text_lt_total(x, y);
        lemma_text_lt_total(y, z);
        lemma_text_lt_total(x, z);
        if text_lt(x, y) && text_lt(y, z) {
            lemma_text_lt_trans(x, y, z);
        }
    }
}

/// The search finds the container: by its name, its image, its tag or its identifier, in capitals
/// or not.
pub open spec fn is_found(c: ContainerView, query: Seq<char>) -> bool {
    let query = lower(trim(query));
    query.len() == 0 || contains_text(lower(c.name), query) || contains_text(
        lower(c.image_name),
        query,
    ) || contains_text(lower(c.image_tag), query) || contains_text(lower(c.id), query)
}

/// The containers that a search finds.
pub open spec fn found_containers(all: Seq<ContainerView>, query: Seq<char>) -> Seq<ContainerView> {
    kept(all, |c: ContainerView| is_found(c, query))
}

/// The containers that are shown: those that the search finds, sorted by a column, one way or the
/// other.
pub open spec fn shown_containers(
    all: Seq<ContainerView>,
    query: Seq<char>,
    column: DockerContainerSortColumn,
    direction: SortDirection,
) -> Seq<ContainerView> {
    let sorted = sorted_by(found_containers(all, query), container_order(column));
    match direction {
        SortDirection::Asc => sorted,
        SortDirection::Desc => sorted.reverse(),
    }
}

/// What is shown is in the order of the column, and is what the search finds, each container as
/// often as it is listed.
pub proof fn law_shown_containers(
    all: Seq<ContainerView>,
    query: Seq<char>,
    column: DockerContainerSortColumn,
)
    ensures
        is_sorted(
            shown_containers(all, query, column, SortDirection::Asc),
            container_order(column),
        ),
        shown_containers(all, query, column, SortDirection::Asc).to_multiset()
            == found_containers(all, query).to_multiset(),
        shown_containers(all, query, column, SortDirection::Desc) == shown_containers(
            all,
            query,
            column,
            SortDirection::Asc,
        ).reverse(),
{
    law_container_order(column);
    law_sorted_in_order(found_containers(all, query), container_order(column));
    law_sorting_keeps_items(found_containers(all, query), container_order(column));
}

/// A search finds exactly the containers that it is about.
pub proof fn law_found_containers(all: Seq<ContainerView>, query: Seq<char>, c: ContainerView)
    ensures
        found_containers(all, query).contains(c) <==> all.contains(c) && is_found(c, query),
{
    lemma_kept(all, |c: ContainerView| is_found(c, query), c);
}

/// A container with the column that it is sorted by.
struct SortedContainer {
    container: DockerContainerSummary,
    column: DockerContainerSortColumn,
}

/// The container comes before the other, by the column of the first.
spec fn pair_before(
    a: (ContainerView, DockerContainerSortColumn),
    b: (ContainerView, DockerContainerSortColumn),
) -> bool {
    container_before(a.0, b.0, a.1)
}

impl Ranked for SortedContainer {
    type Model = (ContainerView, DockerContainerSortColumn);

    closed spec fn model(&self) -> (ContainerView, DockerContainerSortColumn) {
        (self.container@, self.column)
    }

    closed spec fn precedes(
        a: (ContainerView, DockerContainerSortColumn),
        b: (ContainerView, DockerContainerSortColumn),
    ) -> bool {
        pair_before(a, b)
    }

    fn is_before(&self, other: &Self) -> (r: bool) {
        match self.column {
            DockerContainerSortColumn::Age => {
                match (self.container.created_at, other.container.created_at) {
                    (Some(a), Some(b)) => is_earlier(a, b),
                    (Some(_), None) => true,
                    _ => false,
                }
            },
            DockerContainerSortColumn::Name => {
                let a = lowered(self.container.name.as_str());
                let b = lowered(other.container.name.as_str());
                less(a.as_str(), b.as_str())
            },
            DockerContainerSortColumn::Image => {
                let a = image_text(&self.container);
                let b = image_text(&other.container);
                less(a.as_str(), b.as_str())
            },
        }
    }
}

fn image_text(c: &DockerContainerSummary) -> (r: String)
    ensures
        r@ == sort_text(c@, DockerContainerSortColumn::Image),
{
    lowered(concat3(c.image_name.as_str(), ":", c.image_tag.as_str()).as_str())
}

/// The containers, each with the column that they are sorted by.
spec fn with_column(all: Seq<ContainerView>, column: DockerContainerSortColumn) -> Seq<
    (ContainerView, DockerContainerSortColumn),
> {
    all.map_values(|c: ContainerView| (c, column))
}

proof fn lemma_insert_with_column(
    s: Seq<ContainerView>,
    x: ContainerView,
    column: DockerContainerSortColumn,
)
    ensures
        insert_ranked(
            with_column(s, column),
            (x, column),
            |
                a: (ContainerView, DockerContainerSortColumn),
                b: (ContainerView, DockerContainerSortColumn),
            | SortedContainer::precedes(a, b),
        ) == with_column(insert_ranked(s, x, container_order(column)), column),
    decreases s.len(),
{
    let pairs = with_column(s, column);
    if s.len() == 0 {
        assert(pairs.push((x, column)) =~= with_column(s.push(x), column));
    } else {
        assert(pairs.last() == (s.last(), column));
        if !container_before(x, s.last(), column) {
            assert(pairs.push((x, column)) =~= with_column(s.push(x), column));
        } else {
            lemma_insert_with_column(s.drop_last(), x, column);
            assert(pairs.drop_last() =~= with_column(s.drop_last(), column));
            let front = insert_ranked(s.drop_last(), x, container_order(column));
            assert(with_column(front, column).push((s.last(), column)) =~= with_column(
                front.push(s.last()),
                column,
            ));
        }
    }
}

proof fn lemma_sort_with_column(s: Seq<ContainerView>, column: DockerContainerSortColumn)
    ensures
        sorted_by(
            with_column(s, column),
            |
                a: (ContainerView, DockerContainerSortColumn),
                b: (ContainerView, DockerContainerSortColumn),
            | SortedContainer::precedes(a, b),
        ) == with_column(sorted_by(s, container_order(column)), column),
    decreases s.len(),
{
    if s.len() == 0 {
        assert(with_column(s, column) =~= Seq::empty());
        assert(with_column(sorted_by(s, container_order(column)), column) =~= Seq::empty());
    } else {
        lemma_sort_with_column(s.drop_last(), column);
        lemma_insert_with_column(
            sorted_by(s.drop_last(), container_order(column)),
            s.last(),
            column,
        );
        assert(with_column(s, column).drop_last() =~= with_column(s.drop_last(), column));
        assert(with_column(s, column).last() == (s.last(), column));
    }
}

fn finds(c: &DockerContainerSummary, query: &str) -> (r: bool)
    ensures
        r == is_found(c@, query@),
{
    let query = lowered(trimmed(query));
    let query = query.as_str();
    query.unicode_len() == 0 || contains(lowered(c.name.as_str()).as_str(), query) || contains(
        lowered(c.image_name.as_str()).as_str(),
        query,
    ) || contains(lowered(c.image_tag.as_str()).as_str(), query) || contains(
        lowered(c.id.as_str()).as_str(),
        query,
    )
}

/// The containers that are shown.
pub fn visible_containers(
    containers: &Vec<DockerContainerSummary>,
    query: &str,
    column: DockerContainerSortColumn,
    direction: SortDirection,
) -> (r: Vec<DockerContainerSummary>)
    ensures
        container_views(r@) == shown_containers(
            container_views(containers@),
            query@,
            column,
            direction,
        ),
{
    let ghost all = container_views(containers@);
    let mut kept: Vec<SortedContainer> = Vec::new();
    let mut i: usize = 0;
    assert(models(kept@) =~= with_column(found_containers(all.take(0), query@), column));
    while i < containers.len()
        invariant
            i <= containers@.len(),
            all == container_views(containers@),
            models(kept@) == with_column(found_containers(all.take(i as int), query@), column),
        decreases containers@.len() - i,
    {
        let ghost done = models(kept@);
        let ghost before = found_containers(all.take(i as int), query@);
        proof {
            assert(all.take(i as int + 1).drop_last() =~= all.take(i as int));
            assert(all.take(i as int + 1).last() == containers@[i as int]@);
        }
        if finds(&containers[i], query) {
            kept.push(SortedContainer { container: containers[i].clone(), column });
            assert(models(kept@) =~= done.push((containers@[i as int]@, column)));
            assert(with_column(before.push(containers@[i as int]@), column) =~= done.push(
                (containers@[i as int]@, column),
            ));
        }
        i = i + 1;
    }
    assert(all.take(i as int) =~= all);
    let ghost found = found_containers(all, query@);
    proof {
        lemma_sort_with_column(found, column);
    }
    let sorted = stable_sort(kept);
    let ghost order = sorted_by(found, container_order(column));
    assert(models(sorted@) == with_column(order, column));
    let mut r: Vec<DockerContainerSummary> = Vec::new();
    let n: usize = sorted.len();
    assert(models(sorted@).len() == n);
    let mut k: usize = 0;
    while k < n
        invariant
            k <= n,
            n == sorted@.len(),
            models(sorted@) == with_column(order, column),
            order.len() == n,
            r@.len() == k,
            forall|j: int|
                0 <= j < k ==> #[trigger] r@[j]@ == (match direction {
                    SortDirection::Asc => order[j],
                    SortDirection::Desc => order[n - 1 - j],
                }),
        decreases n - k,
    {
        let at: usize = match direction {
            SortDirection::Asc => k,
            SortDirection::Desc => n - 1 - k,
        };
        proof {
            assert(models(sorted@)[at as int] == sorted@[at as int].model());
            assert(with_column(order, column)[at as int] == (order[at as int], column));
        }
        r.push(sorted[at].container.clone());
        k = k + 1;
    }
    assert(container_views(r@) =~= shown_containers(all, query@, column, direction));
    r
}

/// How far the list has come.
#[derive(Clone, Copy, Debug, PartialEq, Eq, Structural)]
pub enum DockerContainersLoadState {
    Idle,
    Loading,
    Loaded,
}

/// Where and how a command for Docker is run.
#[derive(Debug, PartialEq, Eq)]
pub struct DockerCommandContext {
    pub session_id: u64,
    pub current_dir: Option<String>,
    pub path: Option<String>,
    pub log_target: DockerLogTarget,
}

/// The model of a `DockerCommandContext`.
pub struct CommandContextView {
    pub session_id: u64,
    pub current_dir: Option<Seq<char>>,
    pub path: Option<Seq<char>>,
    pub log_target: LogTargetView,
}

impl DockerCommandContext {
    pub open spec fn view(&self) -> CommandContextView {
        CommandContextView {
            session_id: self.session_id,
            current_dir: opt_view(self.current_dir),
            path: opt_view(self.path),
            log_target: self.log_target@,
        }
    }
}

impl Clone for DockerCommandContext {
    fn clone(&self) -> (r: Self)
        ensures
            r@ == self@,
    {
        DockerCommandContext {
            session_id: self.session_id,
            current_dir: clone_option(&self.current_dir),
            path: clone_option(&self.path),
            log_target: self.log_target.clone(),
        }
    }
}

/// The model of an optional context.
pub open spec fn opt_context_view(context: Option<DockerCommandContext>) -> Option<
    CommandContextView,
> {
    match context {
        Some(context) => Some(context@),
        None => None,
    }
}

/// What looking for the active session came to.
#[derive(Debug, PartialEq, Eq)]
pub enum SessionLookup {
    NoPaneGroup,
    NoTerminal,
    NoSession,
    SessionGone,
    Found(DockerCommandContext),
}

/// The context of the active session, or why there is none.
pub open spec fn session_context(lookup: SessionLookup) -> Result<CommandContextView, Seq<char>> {
    match lookup {
        SessionLookup::NoPaneGroup => Err("No active pane group."@),
        SessionLookup::NoTerminal => {
            Err("Open a terminal session before listing Docker containers."@)
        },
        SessionLookup::NoSession => Err("No active terminal session."@),
        SessionLookup::SessionGone => {
            Err("The active terminal session is no longer available."@)
        },
        SessionLookup::Found(context) => Ok(context@),
    }
}

/// The model of a context or an error.
pub open spec fn context_result(r: Result<DockerCommandContext, String>) -> Result<
    CommandContextView,
    Seq<char>,
> {
    match r {
        Ok(context) => Ok(context@),
        Err(error) => Err(error@),
    }
}

/// The context of the active session.
pub fn active_session_context(lookup: SessionLookup) -> (r: Result<DockerCommandContext, String>)
    ensures
        context_result(r) == session_context(lookup),
{
    match lookup {
        SessionLookup::NoPaneGroup => Err("No active pane group.".to_owned()),
        SessionLookup::NoTerminal => Err(
            "Open a terminal session before listing Docker containers.".to_owned(),
        ),
        SessionLookup::NoSession => Err("No active terminal session.".to_owned()),
        SessionLookup::SessionGone => Err(
            "The active terminal session is no longer available.".to_owned(),
        ),
        SessionLookup::Found(context) => Ok(context),
    }
}

/// What the panel asks of its surroundings.
#[derive(Debug, PartialEq, Eq)]
pub enum DockerPanelEffect {
    /// Draw the panel again.
    Notify,
    /// List the running containers.
    ListContainers { context: DockerCommandContext },
    /// Stop a container.
    StopContainer { context: DockerCommandContext, container_id: String },
    /// Offer to stop a container in the menu.
    OfferStop { container_id: String },
    Emit { event: DockerContainersEvent },
}

/// The model of a `DockerPanelEffect`.
pub enum DockerEffectView {
    Notify,
    ListContainers { context: CommandContextView },
    StopContainer { context: CommandContextView, container_id: Seq<char> },
    OfferStop { container_id: Seq<char> },
    OpenLogs { container_id: Seq<char>, container_name: Seq<char>, command: Seq<char> },
}

impl DockerPanelEffect {
    pub open spec fn view(&self) -> DockerEffectView {
        match self {
            DockerPanelEffect::Notify => DockerEffectView::Notify,
            DockerPanelEffect::ListContainers { context } => DockerEffectView::ListContainers {
                context: context@,
            },
            DockerPanelEffect::StopContainer { context, container_id } => {
                DockerEffectView::StopContainer { context: context@, container_id: container_id@ }
            },
            DockerPanelEffect::OfferStop { container_id } => DockerEffectView::OfferStop {
                container_id: container_id@,
            },
            DockerPanelEffect::Emit {
                event: DockerContainersEvent::OpenLogs { container_id, container_name, command },
            } => DockerEffectView::OpenLogs {
                container_id: container_id@,
                container_name: container_name@,
                command: command@,
            },
        }
    }
}

/// The models of a list of effects.
pub open spec fn docker_effects(effects: Seq<DockerPanelEffect>) -> Seq<DockerEffectView> {
    effects.map_values(|e: DockerPanelEffect| e@)
}

/// The state of the panel.
pub struct DockerPanelView {
    pub containers: Seq<ContainerView>,
    pub stopping: Set<Seq<char>>,
    pub last_context: Option<CommandContextView>,
    pub load_state: DockerContainersLoadState,
    pub last_error: Option<Seq<char>>,
    pub sort_column: DockerContainerSortColumn,
    pub sort_direction: SortDirection,
    pub menu_open_for: Option<Seq<char>>,
}

/// The first container with an identifier.
pub open spec fn container_with_id(all: Seq<ContainerView>, id: Seq<char>) -> Option<ContainerView>
    decreases all.len(),
{
    if all.len() == 0 {
        None
    } else if all[0].id == id {
        Some(all[0])
    } else {
        container_with_id(all.skip(1), id)
    }
}

impl DockerPanelView {
    /// The containers are listed anew, where there is a session.
    pub open spec fn refreshed(self, context: Result<CommandContextView, Seq<char>>) -> (
        DockerPanelView,
        Seq<DockerEffectView>,
    ) {
        match context {
            Err(error) => (
                DockerPanelView {
                    last_error: Some(error),
                    load_state: DockerContainersLoadState::Loaded,
                    ..self
                },
                seq![DockerEffectView::Notify],
            ),
            Ok(context) => (
                DockerPanelView {
                    load_state: DockerContainersLoadState::Loading,
                    last_error: None,
                    ..self
                },
                seq![DockerEffectView::Notify, DockerEffectView::ListContainers { context }],
            ),
        }
    }

    /// The list is there, or the reason why it is not.
    pub open spec fn refresh_finished(
        self,
        context: CommandContextView,
        result: Result<Seq<ContainerView>, Seq<char>>,
    ) -> (DockerPanelView, Seq<DockerEffectView>) {
        let loaded = DockerPanelView { load_state: DockerContainersLoadState::Loaded, ..self };
        (
            match result {
                Ok(containers) => DockerPanelView {
                    containers,
                    last_context: Some(context),
                    last_error: None,
                    ..loaded
                },
                Err(error) => DockerPanelView { last_error: Some(error), ..loaded },
            },
            seq![DockerEffectView::Notify],
        )
    }

    /// A column was chosen: the chosen one turns its direction, another begins upwards.
    pub open spec fn sorted_by_column(self, column: DockerContainerSortColumn) -> DockerPanelView {
        if self.sort_column == column {
            DockerPanelView {
                sort_direction: match self.sort_direction {
                    SortDirection::Asc => SortDirection::Desc,
                    SortDirection::Desc => SortDirection::Asc,
                },
                ..self
            }
        } else {
            DockerPanelView { sort_column: column, sort_direction: SortDirection::Asc, ..self }
        }
    }

    /// The context for a command: that of the last list, or that of the active session.
    pub open spec fn command_context(self, active: Result<CommandContextView, Seq<char>>) -> Result<
        CommandContextView,
        Seq<char>,
    > {
        match self.last_context {
            Some(context) => Ok(context),
            None => active,
        }
    }

    /// The log of a container is asked for.
    pub open spec fn logs_opened(
        self,
        id: Seq<char>,
        active: Result<CommandContextView, Seq<char>>,
    ) -> Seq<DockerEffectView> {
        match container_with_id(self.containers, id) {
            None => Seq::empty(),
            Some(container) => seq![
                DockerEffectView::OpenLogs {
                    container_id: container.id,
                    container_name: container.name,
                    command: match self.command_context(active) {
                        Ok(context) => log_tail_command(container.id, context.log_target),
                        Err(_) => logs_command(container.id),
                    },
                },
            ],
        }
    }

    /// The menu of a container is opened, or closed where it is open.
    pub open spec fn menu_toggled(self, id: Seq<char>) -> (DockerPanelView, Seq<DockerEffectView>) {
        if self.menu_open_for == Some(id) {
            (DockerPanelView { menu_open_for: None, ..self }, seq![DockerEffectView::Notify])
        } else {
            (
                DockerPanelView { menu_open_for: Some(id), ..self },
                seq![DockerEffectView::OfferStop { container_id: id }, DockerEffectView::Notify],
            )
        }
    }

    /// A container is to be stopped.
    pub open spec fn stop_asked(
        self,
        id: Seq<char>,
        active: Result<CommandContextView, Seq<char>>,
    ) -> (DockerPanelView, Seq<DockerEffectView>) {
        match self.command_context(active) {
            Err(error) => (
                DockerPanelView { last_error: Some(error), ..self },
                seq![DockerEffectView::Notify],
            ),
            Ok(context) => (
                DockerPanelView {
                    menu_open_for: None,
                    stopping: self.stopping.insert(id),
                    ..self
                },
                seq![
                    DockerEffectView::Notify,
                    DockerEffectView::StopContainer { context, container_id: id },
                ],
            ),
        }
    }

    /// A container was stopped, or the reason why not is known.
    pub open spec fn stop_finished(
        self,
        result: Result<Seq<char>, Seq<char>>,
        active: Result<CommandContextView, Seq<char>>,
    ) -> (DockerPanelView, Seq<DockerEffectView>) {
        match result {
            Ok(id) => {
                let (next, effects) = DockerPanelView {
                    stopping: self.stopping.remove(id),
                    last_error: None,
                    ..self
                }.refreshed(active);
                (next, effects.push(DockerEffectView::Notify))
            },
            Err(error) => (
                DockerPanelView { stopping: Set::empty(), last_error: Some(error), ..self },
                seq![DockerEffectView::Notify],
            ),
        }
    }
}

/// Choosing a column twice turns the list round; choosing it three times is as choosing it once.
pub proof fn law_sorting_toggles(panel: DockerPanelView, column: DockerContainerSortColumn)
    ensures
        panel.sorted_by_column(column).sort_column == column,
        panel.sorted_by_column(column).sorted_by_column(column).sort_direction
            != panel.sorted_by_column(column).sort_direction,
        panel.sorted_by_column(column).sorted_by_column(column).sorted_by_column(column)
            == panel.sorted_by_column(column),
{
}

/// A menu that is opened and closed again leaves the panel as it was, where no menu was open.
pub proof fn law_menu_toggles(panel: DockerPanelView, id: Seq<char>)
    requires
        panel.menu_open_for is None,
    ensures
        panel.menu_toggled(id).0.menu_open_for == Some(id),
        panel.menu_toggled(id).0.menu_toggled(id).0 == panel,
{
}

/// A container that is being stopped is marked until it is stopped; then the mark is gone, and the
/// list is read anew.
pub proof fn law_stopped_container(
    panel: DockerPanelView,
    id: Seq<char>,
    context: CommandContextView,
)
    ensures
        ({
            let asked = panel.stop_asked(id, Ok(context)).0;
            let done = asked.stop_finished(Ok(id), Ok(context));
            asked.stopping.contains(id) && !done.0.stopping.contains(id) && done.0.load_state
                == DockerContainersLoadState::Loading && done.1.contains(
                DockerEffectView::ListContainers { context },
            )
        }),
{
    let asked = panel.stop_asked(id, Ok(context)).0;
    let done = asked.stop_finished(Ok(id), Ok(context));
    assert(done.1[1] == DockerEffectView::ListContainers { context });
}

/// The panel.
#[derive(Debug)]
pub struct DockerContainersView {
    containers: Vec<DockerContainerSummary>,
    stopping_containers: Vec<String>,
    last_successful_command_context: Option<DockerCommandContext>,
    load_state: DockerContainersLoadState,
    last_error: Option<String>,
    sort_column: DockerContainerSortColumn,
    sort_direction: SortDirection,
    menu_open_for: Option<String>,
}

fn effects_of_notify() -> (r: Vec<DockerPanelEffect>)
    ensures
        docker_effects(r@) == seq![DockerEffectView::Notify],
{
    let mut r: Vec<DockerPanelEffect> = Vec::new();
    r.push(DockerPanelEffect::Notify);
    assert(docker_effects(r@) =~= seq![DockerEffectView::Notify]);
    r
}

fn push_docker_effect(effects: &mut Vec<DockerPanelEffect>, effect: DockerPanelEffect)
    ensures
        docker_effects(final(effects)@) == docker_effects(old(effects)@).push(effect@),
{
    let ghost before = docker_effects(effects@);
    effects.push(effect);
    assert(docker_effects(effects@) =~= before.push(effect@));
}

/// The texts without one of them.
spec fn without(texts: Seq<Seq<char>>, text: Seq<char>) -> Seq<Seq<char>>
    decreases texts.len(),
{
    if texts.len() == 0 {
        Seq::empty()
    } else if texts.last() == text {
        without(texts.drop_last(), text)
    } else {
        without(texts.drop_last(), text).push(texts.last())
    }
}

proof fn lemma_without(texts: Seq<Seq<char>>, text: Seq<char>, other: Seq<char>)
    ensures
        without(texts, text).contains(other) <==> texts.contains(other) && other != text,
    decreases texts.len(),
{
    if texts.len() > 0 {
        let front = texts.drop_last();
        lemma_without(front, text, other);
        let before = without(front, text);
        let r = without(texts, text);
        if before.contains(other) {
            let i = choose|i: int| 0 <= i < before.len() && before[i] == other;
            assert(r[i] == other);
        }
        if front.contains(other) {
            let i = choose|i: int| 0 <= i < front.len() && front[i] == other;
            assert(texts[i] == other);
        }
        if texts.contains(other) && !front.contains(other) {
            let i = choose|i: int| 0 <= i < texts.len() && texts[i] == other;
            if i < front.len() {
                assert(front[i] == other);
            }
            assert(texts.last() == other);
        }
        assert(texts.contains(texts.last()));
        if texts.last() != text {
            assert(r.last() == texts.last());
            assert(r.contains(texts.last()));
            if r.contains(other) && !before.contains(other) {
                let i = choose|i: int| 0 <= i < r.len() && r[i] == other;
                if i < before.len() {
                    assert(before[i] == other);
                }
            }
        }
    }
}

fn remove_text(texts: &Vec<String>, text: &str) -> (r: Vec<String>)
    ensures
        views(r@).to_set() == views(texts@).to_set().remove(text@),
{
    let ghost all = views(texts@);
    let mut r: Vec<String> = Vec::new();
    let mut i: usize = 0;
    assert(views(r@) =~= without(all.take(0), text@));
    while i < texts.len()
        invariant
            i <= texts@.len(),
            all == views(texts@),
            views(r@) == without(all.take(i as int), text@),
        decreases texts@.len() - i,
    {
        let ghost done = views(r@);
        proof {
            assert(all.take(i as int + 1).drop_last() =~= all.take(i as int));
            assert(all.take(i as int + 1).last() == texts@[i as int]@);
        }
        if !same(texts[i].as_str(), text) {
            r.push(texts[i].clone());
            assert(views(r@) =~= done.push(texts@[i as int]@));
        }
        i = i + 1;
    }
    assert(all.take(i as int) =~= all);
    proof {
        assert forall|t: Seq<char>| #[trigger] views(r@).to_set().contains(t) <==> all.to_set().remove(
            text@,
        ).contains(t) by {
            lemma_without(all, text@, t);
        }
        assert(views(r@).to_set() =~= all.to_set().remove(text@));
    }
    r
}

impl DockerContainersView {
    pub closed spec fn view(&self) -> DockerPanelView {
        DockerPanelView {
            containers: container_views(self.containers@),
            stopping: views(self.stopping_containers@).to_set(),
            last_context: opt_context_view(self.last_successful_command_context),
            load_state: self.load_state,
            last_error: opt_view(self.last_error),
            sort_column: self.sort_column,
            sort_direction: self.sort_direction,
            menu_open_for: opt_view(self.menu_open_for),
        }
    }

    /// A panel that has not listed anything yet.
    pub fn new() -> (r: Self)
        ensures
            r@ == (DockerPanelView {
                containers: Seq::empty(),
                stopping: Set::empty(),
                last_context: None,
                load_state: DockerContainersLoadState::Idle,
                last_error: None,
                sort_column: DockerContainerSortColumn::Name,
                sort_direction: SortDirection::Asc,
                menu_open_for: None,
            }),
    {
        let r = DockerContainersView {
            containers: Vec::new(),
            stopping_containers: Vec::new(),
            last_successful_command_context: None,
            load_state: DockerContainersLoadState::Idle,
            last_error: None,
            sort_column: DockerContainerSortColumn::Name,
            sort_direction: SortDirection::Asc,
            menu_open_for: None,
        };
        assert(container_views(r.containers@) =~= Seq::empty());
        assert(views(r.stopping_containers@).to_set() =~= Set::empty());
        r
    }

    /// Another pane group became active: a list that was read is read anew.
    pub fn set_active_pane_group(&mut self, context: Result<DockerCommandContext, String>) -> (r:
        Vec<DockerPanelEffect>)
        ensures
            old(self)@.load_state == DockerContainersLoadState::Loaded ==> (
                final(self)@,
                docker_effects(r@),
            ) == old(self)@.refreshed(context_result(context)),
            old(self)@.load_state != DockerContainersLoadState::Loaded ==> final(self)@
                == old(self)@ && r@.len() == 0,
    {
        if self.load_state == DockerContainersLoadState::Loaded {
            self.refresh(context)
        } else {
            Vec::new()
        }
    }

    /// Lists the containers where that was not done yet.
    pub fn refresh_if_needed(&mut self, context: Result<DockerCommandContext, String>) -> (r: Vec<
        DockerPanelEffect,
    >)
        ensures
            old(self)@.load_state == DockerContainersLoadState::Idle ==> (
                final(self)@,
                docker_effects(r@),
            ) == old(self)@.refreshed(context_result(context)),
            old(self)@.load_state != DockerContainersLoadState::Idle ==> final(self)@ == old(self)@
                && r@.len() == 0,
    {
        if self.load_state == DockerContainersLoadState::Idle {
            self.refresh(context)
        } else {
            Vec::new()
        }
    }

    /// Lists the containers anew.
    pub fn refresh(&mut self, context: Result<DockerCommandContext, String>) -> (r: Vec<
        DockerPanelEffect,
    >)
        ensures
            (final(self)@, docker_effects(r@)) == old(self)@.refreshed(context_result(context)),
    {
        let ghost told = self@.refreshed(context_result(context)).1;
        let mut effects = effects_of_notify();
        match context {
            Err(error) => {
                self.last_error = Some(error);
                self.load_state = DockerContainersLoadState::Loaded;
            },
            Ok(context) => {
                self.load_state = DockerContainersLoadState::Loading;
                self.last_error = None;
                push_docker_effect(
                    &mut effects,
                    DockerPanelEffect::ListContainers { context },
                );
            },
        }
        assert(docker_effects(effects@) =~= told);
        effects
    }

    /// Takes up the list.
    pub fn finish_refresh(
        &mut self,
        context: DockerCommandContext,
        result: Result<Vec<DockerContainerSummary>, String>,
    ) -> (r: Vec<DockerPanelEffect>)
        ensures
            (final(self)@, docker_effects(r@)) == old(self)@.refresh_finished(
                context@,
                containers_result(result),
            ),
    {
        match result {
            Ok(containers) => {
                self.containers = containers;
                self.last_successful_command_context = Some(context);
                self.last_error = None;
            },
            Err(error) => {
                self.last_error = Some(error);
            },
        }
        self.load_state = DockerContainersLoadState::Loaded;
        effects_of_notify()
    }

    /// How the list is doing.
    pub fn status_text(&self) -> (r: String)
        ensures
            r@ == (match self@.load_state {
                DockerContainersLoadState::Idle => "Not loaded"@,
                DockerContainersLoadState::Loading => "Loading..."@,
                DockerContainersLoadState::Loaded => decimal(self@.containers.len())
                    + " running"@,
            }),
    {
        match self.load_state {
            DockerContainersLoadState::Idle => "Not loaded".to_owned(),
            DockerContainersLoadState::Loading => "Loading...".to_owned(),
            DockerContainersLoadState::Loaded => {
                let count: usize = self.containers.len();
                concat2(decimal_of(count as u128).as_str(), " running")
            },
        }
    }

    /// What the button of a column says.
    pub fn sort_label(&self, column: DockerContainerSortColumn) -> (r: String)
        ensures
            r@ == (if self@.sort_column == column {
                column_name(column) + " "@ + direction_name(self@.sort_direction)
            } else {
                column_name(column)
            }),
    {
        if self.sort_column == column {
            concat3(column.label(), " ", self.sort_direction.label())
        } else {
            column.label().to_owned()
        }
    }

    /// What went wrong last.
    pub fn last_error(&self) -> (r: Option<&str>)
        ensures
            opt_str_view(r) == self@.last_error,
    {
        match &self.last_error {
            Some(error) => Some(error.as_str()),
            None => None,
        }
    }

    /// What stands behind a container's name: that it is being stopped, or its age.
    pub fn trailing_text(&self, container: &DockerContainerSummary, age: Option<String>) -> (r:
        String)
        ensures
            r@ == (if self@.stopping.contains(container@.id) {
                "Stopping..."@
            } else {
                match age {
                    Some(age) => age@,
                    None => "unknown age"@,
                }
            }),
    {
        if contains_same(&self.stopping_containers, container.id.as_str()) {
            "Stopping...".to_owned()
        } else {
            match age {
                Some(age) => age,
                None => "unknown age".to_owned(),
            }
        }
    }

    /// The menu of a container is open.
    pub fn is_menu_open(&self, container_id: &str) -> (r: bool)
        ensures
            r == (self@.menu_open_for == Some(container_id@)),
    {
        match &self.menu_open_for {
            Some(id) => same(id.as_str(), container_id),
            None => false,
        }
    }

    /// The menu was closed.
    pub fn close_menu(&mut self) -> (r: Vec<DockerPanelEffect>)
        ensures
            final(self)@ == (DockerPanelView { menu_open_for: None, ..old(self)@ }),
            docker_effects(r@) == seq![DockerEffectView::Notify],
    {
        self.menu_open_for = None;
        effects_of_notify()
    }

    /// The containers that are shown for a search.
    pub fn visible_containers(&self, query: &str) -> (r: Vec<DockerContainerSummary>)
        ensures
            container_views(r@) == shown_containers(
                self@.containers,
                query@,
                self@.sort_column,
                self@.sort_direction,
            ),
    {
        visible_containers(&self.containers, query, self.sort_column, self.sort_direction)
    }

    /// What is said where nothing is shown.
    pub fn empty_message(&self) -> (r: &'static str)
        ensures
            r@ == (if self@.containers.len() == 0 {
                "No running Docker containers found."@
            } else {
                "No Docker containers match the search."@
            }),
    {
        if self.containers.len() == 0 {
            "No running Docker containers found."
        } else {
            "No Docker containers match the search."
        }
    }

    fn find_container(&self, id: &str) -> (r: Option<&DockerContainerSummary>)
        ensures
            match r {
                Some(container) => container_with_id(self@.containers, id@) == Some(container@),
                None => container_with_id(self@.containers, id@) is None,
            },
    {
        let ghost all = container_views(self.containers@);
        let mut i: usize = 0;
        assert(all.skip(0) =~= all);
        while i < self.containers.len()
            invariant
                i <= self.containers@.len(),
                all == container_views(self.containers@),
                container_with_id(all, id@) == container_with_id(all.skip(i as int), id@),
            decreases self.containers@.len() - i,
        {
            assert(all.skip(i as int)[0] == self.containers@[i as int]@);
            assert(all.skip(i as int).skip(1) =~= all.skip(i as int + 1));
            if same(self.containers[i].id.as_str(), id) {
                return Some(&self.containers[i]);
            }
            i = i + 1;
        }
        None
    }

    fn context_for_command(&self, active: Result<DockerCommandContext, String>) -> (r: Result<
        DockerCommandContext,
        String,
    >)
        ensures
            context_result(r) == self@.command_context(context_result(active)),
    {
        match &self.last_successful_command_context {
            Some(context) => Ok(context.clone()),
            None => active,
        }
    }

    fn open_logs(&self, container_id: &str, active: Result<DockerCommandContext, String>) -> (r:
        Vec<DockerPanelEffect>)
        ensures
            docker_effects(r@) == self@.logs_opened(container_id@, context_result(active)),
    {
        let ghost told = self@.logs_opened(container_id@, context_result(active));
        let mut effects: Vec<DockerPanelEffect> = Vec::new();
        if let Some(container) = self.find_container(container_id) {
            let command = match self.context_for_command(active) {
                Ok(context) => docker_log_tail_command(
                    container.id.as_str(),
                    &context.log_target,
                ),
                Err(_) => docker_logs_command(container.id.as_str()),
            };
            effects.push(
                DockerPanelEffect::Emit {
                    event: DockerContainersEvent::OpenLogs {
                        container_id: container.id.clone(),
                        container_name: container.name.clone(),
                        command,
                    },
                },
            );
        }
        assert(docker_effects(effects@) =~= told);
        effects
    }

    fn toggle_menu(&mut self, container_id: String) -> (r: Vec<DockerPanelEffect>)
        ensures
            (final(self)@, docker_effects(r@)) == old(self)@.menu_toggled(container_id@),
    {
        let ghost told = self@.menu_toggled(container_id@).1;
        if self.is_menu_open(container_id.as_str()) {
            return self.close_menu();
        }
        let mut effects: Vec<DockerPanelEffect> = Vec::new();
        effects.push(DockerPanelEffect::OfferStop { container_id: container_id.clone() });
        effects.push(DockerPanelEffect::Notify);
        self.menu_open_for = Some(container_id);
        assert(docker_effects(effects@) =~= told);
        effects
    }

    fn stop_container(
        &mut self,
        container_id: String,
        active: Result<DockerCommandContext, String>,
    ) -> (r: Vec<DockerPanelEffect>)
        ensures
            (final(self)@, docker_effects(r@)) == old(self)@.stop_asked(
                container_id@,
                context_result(active),
            ),
    {
        let ghost told = self@.stop_asked(container_id@, context_result(active)).1;
        let ghost stopping = views(self.stopping_containers@);
        match self.context_for_command(active) {
            Err(error) => {
                self.last_error = Some(error);
                effects_of_notify()
            },
            Ok(context) => {
                self.menu_open_for = None;
                if !contains_same(&self.stopping_containers, container_id.as_str()) {
                    self.stopping_containers.push(container_id.clone());
                    proof {
                        let now = views(self.stopping_containers@);
                        assert(now =~= stopping.push(container_id@));
                        assert forall|t: Seq<char>| #[trigger] now.to_set().contains(t)
                            <==> stopping.to_set().insert(container_id@).contains(t) by {
                            if stopping.contains(t) {
                                let i = choose|i: int| 0 <= i < stopping.len() && stopping[i] == t;
                                assert(now[i] == t);
                            }
                            if t == container_id@ {
                                assert(now.last() == t);
                            }
                            if now.contains(t) && t != container_id@ {
                                let i = choose|i: int| 0 <= i < now.len() && now[i] == t;
                                assert(stopping[i] == t);
                            }
                        }
                        assert(now.to_set() =~= stopping.to_set().insert(container_id@));
                    }
                } else {
                    assert(stopping.to_set().insert(container_id@) =~= stopping.to_set());
                }
                let mut effects = effects_of_notify();
                push_docker_effect(
                    &mut effects,
                    DockerPanelEffect::StopContainer { context, container_id },
                );
                assert(docker_effects(effects@) =~= told);
                effects
            },
        }
    }

    /// Takes up that a container was stopped, or why not. The list is then read anew with the
    /// active session.
    pub fn finish_stop(
        &mut self,
        result: Result<String, String>,
        active: Result<DockerCommandContext, String>,
    ) -> (r: Vec<DockerPanelEffect>)
        ensures
            (final(self)@, docker_effects(r@)) == old(self)@.stop_finished(
                text_result(result),
                context_result(active),
            ),
    {
        let ghost told = self@.stop_finished(text_result(result), context_result(active)).1;
        match result {
            Ok(container_id) => {
                self.stopping_containers = remove_text(
                    &self.stopping_containers,
                    container_id.as_str(),
                );
                self.last_error = None;
                let mut effects = self.refresh(active);
                push_docker_effect(&mut effects, DockerPanelEffect::Notify);
                assert(docker_effects(effects@) =~= told);
                effects
            },
            Err(error) => {
                self.stopping_containers = Vec::new();
                assert(views(self.stopping_containers@).to_set() =~= Set::empty());
                self.last_error = Some(error);
                effects_of_notify()
            },
        }
    }

    /// Does what the user asks for.
    pub fn handle_action(
        &mut self,
        action: DockerContainersAction,
        active: Result<DockerCommandContext, String>,
    ) -> (r: Vec<DockerPanelEffect>)
        ensures
            match action {
                DockerContainersAction::Refresh => (final(self)@, docker_effects(r@)) == old(
                    self,
                )@.refreshed(context_result(active)),
                DockerContainersAction::SortBy(column) => final(self)@ == old(
                    self,
                )@.sorted_by_column(column) && docker_effects(r@) == seq![DockerEffectView::Notify],
                DockerContainersAction::OpenLogs(id) => final(self)@ == old(self)@
                    && docker_effects(r@) == old(self)@.logs_opened(id@, context_result(active)),
                DockerContainersAction::ToggleContainerMenu(id) => (
                    final(self)@,
                    docker_effects(r@),
                ) == old(self)@.menu_toggled(id@),
                DockerContainersAction::StopContainer(id) => (
                    final(self)@,
                    docker_effects(r@),
                ) == old(self)@.stop_asked(id@, context_result(active)),
            },
    {
        match action {
            DockerContainersAction::Refresh => self.refresh(active),
            DockerContainersAction::SortBy(column) => {
                if self.sort_column == column {
                    self.sort_direction = match self.sort_direction {
                        SortDirection::Asc => SortDirection::Desc,
                        SortDirection::Desc => SortDirection::Asc,
                    };
                } else {
                    self.sort_column = column;
                    self.sort_direction = SortDirection::Asc;
                }
                effects_of_notify()
            },
            DockerContainersAction::OpenLogs(id) => self.open_logs(id.as_str(), active),
            DockerContainersAction::ToggleContainerMenu(id) => self.toggle_menu(id),
            DockerContainersAction::StopContainer(id) => self.stop_container(id, active),
        }
    }
}

} // verus!
