//! Actions that an agent asks for: in which order they run, and in which order their results are
//! reported.
use crate::json::JsonValue;
use crate::ordered::{Ranked, models, sorted_by, stable_sort};
use crate::text::same;
use vstd::prelude::*;

verus! {

/// The identifier of an action.
#[derive(Debug, PartialEq, Eq)]
pub struct AIAgentActionId {
    pub text: String,
}

/// The identifier of a block of the terminal.
#[derive(Debug, Clone, Copy, PartialEq, Eq, Structural)]
pub struct BlockId {
    pub value: u64,
}

/// The exit code of a command.
#[derive(Debug, Clone, Copy, PartialEq, Eq, Structural)]
pub struct ExitCode {
    pub code: i32,
}

/// What came of a command that an agent asked for.
#[derive(Debug, PartialEq, Eq)]
pub enum RequestCommandOutputResult {
    Completed { block_id: BlockId, command: String, output: String, exit_code: ExitCode },
    CancelledBeforeExecution,
}

/// What came of an action.
#[derive(Debug, PartialEq, Eq)]
pub enum AIAgentActionResultType {
    RequestCommandOutput(RequestCommandOutputResult),
    InitProject,
}

/// An action with what came of it.
#[derive(Debug, PartialEq, Eq)]
pub struct AIAgentActionResult {
    pub id: AIAgentActionId,
    pub result: AIAgentActionResultType,
}

/// What an agent asks for.
#[derive(Debug, PartialEq)]
pub enum AIAgentActionType {
    RequestCommandOutput { command: String },
    CallMCPTool { server_id: Option<String>, name: String, input: JsonValue },
}

/// What actions that run side by side may do.
#[derive(Debug, Clone, Copy, PartialEq, Eq, Structural)]
pub enum ParallelExecutionPolicy {
    ReadOnlyLocalContext,
}

/// How an action runs: by itself, or side by side with others.
#[derive(Debug, Clone, Copy, PartialEq, Eq, Structural)]
pub enum RunningActionPhase {
    Serial,
    Parallel(ParallelExecutionPolicy),
}

/// How an action runs, where its kind alone says that it can run side by side with others.
pub fn static_parallel_phase_for_action(action: &AIAgentActionType) -> (r: Option<
    RunningActionPhase,
>)
    ensures
        r == (if action is CallMCPTool {
            Some(RunningActionPhase::Parallel(ParallelExecutionPolicy::ReadOnlyLocalContext))
        } else {
            None
        }),
{
    match action {
        AIAgentActionType::CallMCPTool { .. } => Some(
            RunningActionPhase::Parallel(ParallelExecutionPolicy::ReadOnlyLocalContext),
        ),
        AIAgentActionType::RequestCommandOutput { .. } => None,
    }
}

/// An action may join those that are running: both run side by side under one policy, and the
/// action needs no confirmation.
pub open spec fn joins(
    current: RunningActionPhase,
    next: RunningActionPhase,
    can_autoexecute: bool,
) -> bool {
    current is Parallel && current == next && can_autoexecute
}

/// An action may join those that are running.
pub fn can_start_action_with_current_phase(
    current: RunningActionPhase,
    next: RunningActionPhase,
    can_autoexecute: bool,
) -> (r: bool)
    ensures
        r == joins(current, next, can_autoexecute),
{
    match (current, next) {
        (RunningActionPhase::Parallel(a), RunningActionPhase::Parallel(b)) => a == b
            && can_autoexecute,
        _ => false,
    }
}

/// The number of actions that follow `current` and may join it, one after the other.
pub open spec fn joining(
    current: RunningActionPhase,
    actions: Seq<(RunningActionPhase, bool)>,
) -> nat
    decreases actions.len(),
{
    if actions.len() == 0 || !joins(current, actions[0].0, actions[0].1) {
        0
    } else {
        1 + joining(actions[0].0, actions.skip(1))
    }
}

/// The number of actions at the head of the queue that start in one pass.
pub open spec fn startable(actions: Seq<(RunningActionPhase, bool)>) -> nat {
    if actions.len() == 0 {
        0
    } else {
        1 + joining(actions[0].0, actions.skip(1))
    }
}

/// The number of actions at the head of the queue that start in one pass.
pub fn count_startable_actions_for_pass(actions: &[(RunningActionPhase, bool)]) -> (r: usize)
    ensures
        r == startable(actions@),
{
    if actions.len() == 0 {
        return 0;
    }
    let mut current = actions[0].0;
    let mut count: usize = 1;
    while count < actions.len()
        invariant
            1 <= count <= actions@.len(),
            startable(actions@) == count + joining(current, actions@.skip(count as int)),
        decreases actions@.len() - count,
    {
        let next = actions[count];
        let ghost rest = actions@.skip(count as int);
        assert(rest[0] == next);
        if !can_start_action_with_current_phase(current, next.0, next.1) {
            return count;
        }
        assert(rest.skip(1) =~= actions@.skip(count + 1));
        current = next.0;
        count = count + 1;
    }
    count
}

/// An action that runs by itself is a barrier: what is queued behind it does not start with what is
/// before it.
pub proof fn law_serial_action_is_a_barrier(actions: Seq<(RunningActionPhase, bool)>, i: int)
    requires
        0 <= i < actions.len(),
        actions[i].0 is Serial,
    ensures
        startable(actions) <= if i == 0 {
            1
        } else {
            i
        },
{
    if i > 0 {
        assert(actions.skip(1)[i - 1] == actions[i]);
        lemma_joining_stops(actions[0].0, actions.skip(1), i - 1);
    }
}

proof fn lemma_joining_stops(
    current: RunningActionPhase,
    actions: Seq<(RunningActionPhase, bool)>,
    i: int,
)
    requires
        0 <= i < actions.len(),
        actions[i].0 is Serial,
    ensures
        joining(current, actions) <= i,
    decreases actions.len(),
{
    if i > 0 && joins(current, actions[0].0, actions[0].1) {
        assert(actions.skip(1)[i - 1] == actions[i]);
        lemma_joining_stops(actions[0].0, actions.skip(1), i - 1);
    }
}

/// The models of pairs of an identifier and a place.
pub open spec fn place_views(places: Seq<(String, usize)>) -> Seq<(Seq<char>, usize)> {
    places.map_values(|p: (String, usize)| (p.0@, p.1))
}

/// The place of an action: the first one that is given, or the last of all.
pub open spec fn place_of(places: Seq<(Seq<char>, usize)>, id: Seq<char>) -> usize
    decreases places.len(),
{
    if places.len() == 0 {
        usize::MAX
    } else if places[0].0 == id {
        places[0].1
    } else {
        place_of(places.skip(1), id)
    }
}

/// A result with its place.
struct PlacedResult {
    place: usize,
    result: AIAgentActionResult,
}

/// A place comes before another.
pub open spec fn earlier_place(
    a: (usize, AIAgentActionResult),
    b: (usize, AIAgentActionResult),
) -> bool {
    a.0 < b.0
}

impl Ranked for PlacedResult {
    type Model = (usize, AIAgentActionResult);

    closed spec fn model(&self) -> (usize, AIAgentActionResult) {
        (self.place, self.result)
    }

    open spec fn precedes(
        a: (usize, AIAgentActionResult),
        b: (usize, AIAgentActionResult),
    ) -> bool {
        earlier_place(a, b)
    }

    fn is_before(&self, other: &Self) -> (r: bool) {
        self.place < other.place
    }
}

/// The results with their places.
pub open spec fn placed(
    results: Seq<AIAgentActionResult>,
    places: Seq<(Seq<char>, usize)>,
) -> Seq<(usize, AIAgentActionResult)> {
    results.map_values(|r: AIAgentActionResult| (place_of(places, r.id.text@), r))
}

/// The results in the order of their places; results with one place keep their order.
pub open spec fn in_place_order(
    results: Seq<AIAgentActionResult>,
    places: Seq<(Seq<char>, usize)>,
) -> Seq<AIAgentActionResult> {
    sorted_by(
        placed(results, places),
        |a: (usize, AIAgentActionResult), b: (usize, AIAgentActionResult)| earlier_place(a, b),
    ).map_values(|p: (usize, AIAgentActionResult)| p.1)
}

fn find_place(places: &Vec<(String, usize)>, id: &str) -> (r: usize)
    ensures
        r == place_of(place_views(places@), id@),
{
    let ghost all = place_views(places@);
    let mut i: usize = 0;
    assert(all.skip(0) =~= all);
    while i < places.len()
        invariant
            i <= places@.len(),
            all == place_views(places@),
            place_of(all, id@) == place_of(all.skip(i as int), id@),
        decreases places@.len() - i,
    {
        assert(all.skip(i as int)[0] == (places@[i as int].0@, places@[i as int].1));
        assert(all.skip(i as int).skip(1) =~= all.skip(i as int + 1));
        if same(places[i].0.as_str(), id) {
            return places[i].1;
        }
        i = i + 1;
    }
    usize::MAX
}

/// The results in the order in which their actions were asked for.
pub fn order_finished_results(
    results: Vec<AIAgentActionResult>,
    action_order: &Vec<(String, usize)>,
) -> (r: Vec<AIAgentActionResult>)
    ensures
        r@ == in_place_order(results@, place_views(action_order@)),
{
    let ghost all = results@;
    let ghost places = place_views(action_order@);
    let mut results = results;
    let mut items: Vec<PlacedResult> = Vec::new();
    assert(results@ =~= all.skip(0));
    while results.len() > 0
        invariant
            items@.len() + results@.len() == all.len(),
            results@ == all.skip(items@.len() as int),
            places == place_views(action_order@),
            models(items@) == placed(all, places).take(items@.len() as int),
        decreases results@.len(),
    {
        let ghost k = items@.len() as int;
        let ghost done = models(items@);
        let result = results.remove(0);
        assert(result == all[k]);
        assert(results@ =~= all.skip(k + 1));
        let place: usize = find_place(action_order, result.id.text.as_str());
        items.push(PlacedResult { place, result });
        assert(models(items@) =~= done.push(placed(all, places)[k]));
        assert(placed(all, places).take(k + 1) =~= done.push(placed(all, places)[k]));
    }
    assert(placed(all, places).take(all.len() as int) =~= placed(all, places));
    let sorted = stable_sort(items);
    let ghost order = models(sorted@);
    assert(order == sorted_by(
        placed(all, places),
        |a: (usize, AIAgentActionResult), b: (usize, AIAgentActionResult)| earlier_place(a, b),
    )) by {
        assert((|a: (usize, AIAgentActionResult), b: (usize, AIAgentActionResult)|
            PlacedResult::precedes(a, b)) =~= (|
            a: (usize, AIAgentActionResult),
            b: (usize, AIAgentActionResult),
        | earlier_place(a, b)));
    }
    let mut sorted = sorted;
    let mut r: Vec<AIAgentActionResult> = Vec::new();
    let ghost wanted = order.map_values(|p: (usize, AIAgentActionResult)| p.1);
    let ghost source = sorted@;
    assert(sorted@ =~= source.skip(0));
    while sorted.len() > 0
        invariant
            r@.len() + sorted@.len() == source.len(),
            sorted@ == source.skip(r@.len() as int),
            order == models(source),
            wanted == order.map_values(|p: (usize, AIAgentActionResult)| p.1),
            r@ == wanted.take(r@.len() as int),
        decreases sorted@.len(),
    {
        let ghost k = r@.len() as int;
        let item = sorted.remove(0);
        assert(item == source[k]);
        assert(sorted@ =~= source.skip(k + 1));
        assert(wanted[k] == item.result);
        r.push(item.result);
        assert(wanted.take(k + 1) =~= wanted.take(k).push(wanted[k]));
    }
    assert(wanted.take(r@.len() as int) =~= wanted);
    r
}

} // verus!
