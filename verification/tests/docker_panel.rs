//! The panel of Docker containers.
use slipstream::docker_containers::{
    docker_command_result, docker_log_target_for_session, docker_logs_command,
    docker_stop_command, parse_docker_container, parse_docker_created_at,
    reusable_non_interactive_ssh_command, short_container_id, DockerCommandOutcome,
    DockerContainerSortColumn, DockerContainerSummary, DockerContainersAction,
    DockerContainersEvent, DockerLogTarget, SessionFacts, SortDirection,
};
use slipstream::docker_panel::{
    active_session_context, visible_containers, DockerCommandContext, DockerContainersView,
    DockerPanelEffect, SessionLookup,
};
use slipstream::time::Timestamp;

fn container(id: &str, name: &str, seconds: Option<i64>) -> DockerContainerSummary {
    DockerContainerSummary {
        id: id.to_string(),
        name: name.to_string(),
        image_name: "postgres".to_string(),
        image_tag: "16".to_string(),
        created_at: seconds.map(|seconds| Timestamp { seconds, nanos: 0 }),
    }
}

fn context() -> DockerCommandContext {
    DockerCommandContext {
        session_id: 1,
        current_dir: Some("/tmp".to_string()),
        path: None,
        log_target: DockerLogTarget::Local,
    }
}

fn loaded() -> DockerContainersView {
    let mut view = DockerContainersView::new();
    view.refresh(Ok(context()));
    view.finish_refresh(
        context(),
        Ok(vec![
            container("aaa", "web", Some(5)),
            container("bbb", "Api", Some(9)),
        ]),
    );
    view
}

fn names(containers: &[DockerContainerSummary]) -> Vec<&str> {
    containers
        .iter()
        .map(|container| container.name.as_str())
        .collect()
}

#[test]
fn containers_are_sorted_by_column() {
    let all = vec![
        container("aaa", "web", Some(5)),
        container("bbb", "Api", Some(9)),
    ];
    let by_name = visible_containers(
        &all,
        "",
        DockerContainerSortColumn::Name,
        SortDirection::Asc,
    );
    assert_eq!(names(&by_name), vec!["Api", "web"]);
    let by_name_down = visible_containers(
        &all,
        "",
        DockerContainerSortColumn::Name,
        SortDirection::Desc,
    );
    assert_eq!(names(&by_name_down), vec!["web", "Api"]);
    let found = visible_containers(
        &all,
        "POSTGRES",
        DockerContainerSortColumn::Name,
        SortDirection::Asc,
    );
    assert_eq!(found.len(), 2);
    let none = visible_containers(
        &all,
        "redis",
        DockerContainerSortColumn::Age,
        SortDirection::Asc,
    );
    assert!(none.is_empty());
}

#[test]
fn sorting_by_the_same_column_turns_the_order() {
    let mut view = loaded();
    let before = names(&view.visible_containers(""))
        .into_iter()
        .map(str::to_string)
        .collect::<Vec<_>>();
    view.handle_action(
        DockerContainersAction::SortBy(DockerContainerSortColumn::Name),
        Ok(context()),
    );
    let first = view.visible_containers("");
    view.handle_action(
        DockerContainersAction::SortBy(DockerContainerSortColumn::Name),
        Ok(context()),
    );
    let second = view.visible_containers("");
    assert_eq!(before.len(), 2);
    assert_ne!(names(&first), names(&second));
}

#[test]
fn stopping_a_container_runs_its_command() {
    let mut view = loaded();
    let effects = view.handle_action(
        DockerContainersAction::StopContainer("aaa".to_string()),
        Ok(context()),
    );
    assert!(effects.iter().any(|effect| matches!(
        effect,
        DockerPanelEffect::StopContainer { container_id, .. } if container_id == "aaa"
    )));
    let stopping = container("aaa", "web", None);
    let age = || Some("5m ago".to_string());
    assert_ne!(
        view.trailing_text(&stopping, age()),
        view.trailing_text(&container("bbb", "Api", None), age())
    );

    let effects = view.finish_stop(Ok("aaa".to_string()), Ok(context()));
    assert!(effects
        .iter()
        .any(|effect| matches!(effect, DockerPanelEffect::ListContainers { .. })));
}

#[test]
fn logs_open_with_their_command() {
    let mut view = loaded();
    let effects = view.handle_action(
        DockerContainersAction::OpenLogs("aaa".to_string()),
        Ok(context()),
    );
    assert!(effects.contains(&DockerPanelEffect::Emit {
        event: DockerContainersEvent::OpenLogs {
            container_id: "aaa".to_string(),
            container_name: "web".to_string(),
            command: "docker logs --tail 200 -f aaa".to_string(),
        }
    }));
}

#[test]
fn container_menu_opens_and_closes() {
    let mut view = loaded();
    let toggle = || DockerContainersAction::ToggleContainerMenu("aaa".to_string());
    view.handle_action(toggle(), Ok(context()));
    assert!(view.is_menu_open("aaa"));
    view.handle_action(toggle(), Ok(context()));
    assert!(!view.is_menu_open("aaa"));
}

#[test]
fn failed_listing_is_shown() {
    let mut view = DockerContainersView::new();
    view.refresh(Ok(context()));
    view.finish_refresh(context(), Err("no docker".to_string()));
    assert_eq!(view.last_error(), Some("no docker"));
    assert!(view.visible_containers("").is_empty());
}

#[test]
fn missing_session_is_an_error() {
    for lookup in [
        SessionLookup::NoPaneGroup,
        SessionLookup::NoTerminal,
        SessionLookup::NoSession,
        SessionLookup::SessionGone,
    ] {
        assert!(active_session_context(lookup).is_err());
    }
    assert_eq!(
        active_session_context(SessionLookup::Found(context())),
        Ok(context())
    );
}

#[test]
fn outcomes_of_commands() {
    assert_eq!(
        docker_command_result(DockerCommandOutcome::Finished {
            success: true,
            output: "out".to_string()
        }),
        Ok("out".to_string())
    );
    assert!(docker_command_result(DockerCommandOutcome::Finished {
        success: false,
        output: "bad".to_string()
    })
    .unwrap_err()
    .contains("bad"));
    assert!(docker_command_result(DockerCommandOutcome::TimedOut).is_err());
    assert!(docker_command_result(DockerCommandOutcome::Failed {
        error: "gone".to_string()
    })
    .unwrap_err()
    .contains("gone"));
}

#[test]
fn commands_quote_what_the_shell_would_read() {
    assert_eq!(docker_stop_command("abc"), "docker stop abc");
    assert_eq!(docker_stop_command("a b"), "docker stop 'a b'");
    assert_eq!(
        docker_logs_command("it's"),
        r"docker logs --tail 200 -f 'it'\''s'"
    );
}

#[test]
fn ssh_commands_are_reused_without_a_terminal() {
    assert_eq!(
        reusable_non_interactive_ssh_command("ssh root@host").as_deref(),
        Some("ssh -T root@host")
    );
    assert_eq!(reusable_non_interactive_ssh_command("mosh root@host"), None);
}

#[test]
fn local_sessions_read_local_logs() {
    let facts = SessionFacts {
        is_remote: false,
        control_path: None,
        ssh_host: None,
        ssh_port: None,
        spawning_command: None,
        user: "me".to_string(),
        hostname: "here".to_string(),
    };
    assert_eq!(docker_log_target_for_session(&facts), DockerLogTarget::Local);
}

#[test]
fn creation_times_are_read() {
    assert_eq!(
        parse_docker_created_at("2026-06-05 12:34:56 +0000 UTC"),
        Some(Timestamp {
            seconds: 1_780_662_896,
            nanos: 0
        })
    );
    assert_eq!(
        parse_docker_created_at("2026-06-05T12:34:56.123456789Z"),
        Some(Timestamp {
            seconds: 1_780_662_896,
            nanos: 123_456_789
        })
    );
    assert_eq!(parse_docker_created_at("long ago"), None);
    assert_eq!(short_container_id("abc1234567890def"), "abc123456789");
}

#[test]
fn lines_that_are_no_container_are_refused() {
    assert!(parse_docker_container("not json").is_err());
    assert!(parse_docker_container("[]").is_err());
}

#[test]
fn panel_texts() {
    let mut view = DockerContainersView::new();
    assert_eq!(view.empty_message(), "No running Docker containers found.");
    assert!(view.set_active_pane_group(Ok(context())).is_empty());
    let mut view = loaded();
    let effects = view.set_active_pane_group(Ok(context()));
    assert!(effects
        .iter()
        .any(|effect| matches!(effect, DockerPanelEffect::ListContainers { .. })));
    let view = loaded();
    assert_eq!(
        view.empty_message(),
        "No Docker containers match the search."
    );
    let labels = [
        view.sort_label(DockerContainerSortColumn::Name),
        view.sort_label(DockerContainerSortColumn::Age),
        view.sort_label(DockerContainerSortColumn::Image),
    ];
    assert_eq!(
        labels.iter().filter(|label| label.contains(' ')).count(),
        1
    );
}
