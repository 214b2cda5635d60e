//! The order in which an agent's actions run.
use slipstream::agent_action::{
    can_start_action_with_current_phase, count_startable_actions_for_pass, order_finished_results,
    static_parallel_phase_for_action, AIAgentActionId, AIAgentActionResult,
    AIAgentActionResultType, AIAgentActionType, ParallelExecutionPolicy, RunningActionPhase,
};
use slipstream::json::JsonValue;

fn make_action_result(id: &str) -> AIAgentActionResult {
    AIAgentActionResult {
        id: AIAgentActionId { text: id.to_owned() },
        result: AIAgentActionResultType::InitProject,
    }
}

fn call_mcp_tool_action() -> AIAgentActionType {
    AIAgentActionType::CallMCPTool {
        server_id: None,
        name: "list_tools".to_string(),
        input: JsonValue::parse("{}").unwrap(),
    }
}

#[test]
fn call_mcp_tool_action_phase_is_parallel_readonly() {
    let phase = static_parallel_phase_for_action(&call_mcp_tool_action());
    assert_eq!(
        phase,
        Some(RunningActionPhase::Parallel(
            ParallelExecutionPolicy::ReadOnlyLocalContext
        ))
    );
}

#[test]
fn multiple_call_mcp_tool_actions_run_in_same_parallel_batch() {
    let phase = static_parallel_phase_for_action(&call_mcp_tool_action())
        .expect("callMCPTool should be read-only parallel");
    let actions = vec![(phase, true), (phase, true), (phase, true)];
    let actions_with_confirmation_block = vec![(phase, true), (phase, false), (phase, true)];

    assert_eq!(count_startable_actions_for_pass(&actions), 3);
    assert_eq!(
        count_startable_actions_for_pass(&actions_with_confirmation_block),
        1
    );
}

#[test]
fn parallel_phase_only_admits_matching_autoexecutable_actions() {
    let phase = RunningActionPhase::Parallel(ParallelExecutionPolicy::ReadOnlyLocalContext);

    assert!(can_start_action_with_current_phase(phase, phase, true));
    assert!(!can_start_action_with_current_phase(phase, phase, false));
    assert!(!can_start_action_with_current_phase(
        phase,
        RunningActionPhase::Serial,
        true
    ));
    assert!(!can_start_action_with_current_phase(
        RunningActionPhase::Serial,
        phase,
        true
    ));
}

#[test]
fn phased_scheduling_stops_at_serial_barrier_and_resumes_afterward() {
    let read_only_phase =
        RunningActionPhase::Parallel(ParallelExecutionPolicy::ReadOnlyLocalContext);
    let actions = vec![
        (read_only_phase, true),
        (read_only_phase, true),
        (RunningActionPhase::Serial, true),
        (read_only_phase, true),
        (read_only_phase, true),
    ];

    assert_eq!(count_startable_actions_for_pass(&actions), 2);
    assert_eq!(count_startable_actions_for_pass(&actions[2..]), 1);
    assert_eq!(count_startable_actions_for_pass(&actions[3..]), 2);
}

#[test]
fn finished_results_stay_in_original_action_order() {
    let action_order = vec![
        ("first".to_owned(), 0),
        ("second".to_owned(), 1),
        ("third".to_owned(), 2),
    ];
    let finished_results = order_finished_results(
        vec![
            make_action_result("third"),
            make_action_result("first"),
            make_action_result("second"),
        ],
        &action_order,
    );

    assert_eq!(finished_results[0].id.text, "first");
    assert_eq!(finished_results[1].id.text, "second");
    assert_eq!(finished_results[2].id.text, "third");
}

#[test]
fn results_without_a_place_come_last() {
    let ordered = order_finished_results(
        vec![make_action_result("unknown"), make_action_result("known")],
        &vec![("known".to_owned(), 4)],
    );

    assert_eq!(ordered[0].id.text, "known");
    assert_eq!(ordered[1].id.text, "unknown");
}

#[test]
fn other_actions_have_no_parallel_phase() {
    assert_eq!(
        static_parallel_phase_for_action(&AIAgentActionType::RequestCommandOutput {
            command: "ls".to_string(),
        }),
        None
    );
}
