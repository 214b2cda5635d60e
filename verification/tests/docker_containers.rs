//! Docker containers of a session.
use slipstream::docker_containers::{
    docker_log_tail_command, parse_docker_containers, split_image_name_and_tag, DockerLogTarget,
    DOCKER_LIST_COMMAND,
};

#[test]
fn split_image_name_and_tag_handles_registry_ports() {
    assert_eq!(
        split_image_name_and_tag("localhost:5000/team/api:1.2.3"),
        ("localhost:5000/team/api".to_string(), "1.2.3".to_string())
    );
}

#[test]
fn split_image_name_and_tag_defaults_missing_tag_to_latest() {
    assert_eq!(
        split_image_name_and_tag("postgres"),
        ("postgres".to_string(), "latest".to_string())
    );
}

#[test]
fn parse_docker_containers_reads_inspect_json_lines() {
    let output = r#"{"Id":"abc1234567890","Name":"/web","Created":"2026-06-05T12:34:56.123456789Z","Config":{"Image":"registry.local:5000/team/web:2.0"}}"#;

    let containers = parse_docker_containers(output).unwrap();

    assert_eq!(containers.len(), 1);
    assert_eq!(containers[0].id, "abc1234567890");
    assert_eq!(containers[0].name, "web");
    assert_eq!(containers[0].image_name, "registry.local:5000/team/web");
    assert_eq!(containers[0].image_tag, "2.0");
    assert!(containers[0].created_at.is_some());
}

#[test]
fn list_command_uses_single_docker_ps_call() {
    assert!(DOCKER_LIST_COMMAND.contains("docker ps --format"));
    assert!(!DOCKER_LIST_COMMAND.contains("docker inspect"));
}

#[test]
fn parse_docker_containers_reads_ps_json_lines() {
    let output = r#"{"ID":"69ac6863e73d","Image":"registry.local:5000/team/web:2.0","Names":"web","CreatedAt":"2026-06-05 12:34:56 +0000 UTC"}"#;

    let containers = parse_docker_containers(output).unwrap();

    assert_eq!(containers.len(), 1);
    assert_eq!(containers[0].id, "69ac6863e73d");
    assert_eq!(containers[0].name, "web");
    assert_eq!(containers[0].image_name, "registry.local:5000/team/web");
    assert_eq!(containers[0].image_tag, "2.0");
    assert!(containers[0].created_at.is_some());
}

#[test]
fn docker_log_tail_command_uses_remote_ssh_target() {
    let command = docker_log_tail_command(
        "69ac6863e73d",
        &DockerLogTarget::RemoteSsh {
            spawning_command: Some("ssh root@adm19.nt.vc".to_string()),
            control_path: None,
            host: "root@adm19.nt.vc".to_string(),
            port: None,
        },
    );

    assert_eq!(
        command,
        "ssh -T root@adm19.nt.vc 'docker logs --tail 200 -f 69ac6863e73d'"
    );
}

#[test]
fn docker_log_tail_command_prefers_control_path() {
    let command = docker_log_tail_command(
        "69ac6863e73d",
        &DockerLogTarget::RemoteSsh {
            spawning_command: Some("ssh root@adm19.nt.vc".to_string()),
            control_path: Some(String::from("/tmp/warp ssh/control.sock")),
            host: "root@adm19.nt.vc".to_string(),
            port: None,
        },
    );

    assert_eq!(
        command,
        "ssh -T -S '/tmp/warp ssh/control.sock' root@adm19.nt.vc 'docker logs --tail 200 -f 69ac6863e73d'"
    );
}

#[test]
fn docker_log_tail_command_preserves_ssh_port_when_no_reusable_command_exists() {
    let command = docker_log_tail_command(
        "69ac6863e73d",
        &DockerLogTarget::RemoteSsh {
            spawning_command: None,
            control_path: None,
            host: "root@adm19.nt.vc".to_string(),
            port: Some("2222".to_string()),
        },
    );

    assert_eq!(
        command,
        "ssh -T -p 2222 root@adm19.nt.vc 'docker logs --tail 200 -f 69ac6863e73d'"
    );
}



#[test]
fn containers_state_their_members_once() {
    assert!(parse_docker_containers(r#"{"ID":"a","ID":"b"}"#).is_err());
    let listed = parse_docker_containers(r#"["abc","redis:7","cache",null]"#).unwrap();
    assert_eq!(listed[0].id, "abc");
    assert_eq!(listed[0].name, "cache");
    assert_eq!(listed[0].image_tag.as_str(), "7");
    let inspected = parse_docker_containers(r#"["abc","/cache",null,["redis:7"]]"#).unwrap();
    assert_eq!(inspected[0].name, "cache");
}

#[test]
fn unreadable_containers_name_their_fault() {
    let fault = |line: &str| parse_docker_containers(line).unwrap_err();
    assert_eq!(
        fault("{"),
        "Could not parse Docker output: EOF while parsing an object at line 1 column 1"
    );
    assert_eq!(fault("{}"), "Could not parse Docker output: missing field `Id`");
    assert_eq!(
        fault(r#"{"Id": 1}"#),
        "Could not parse Docker output: invalid type: integer, expected a string in field `Id`"
    );
    assert_eq!(
        fault(r#"{"Id": "a", "Id": "b"}"#),
        "Could not parse Docker output: duplicate field `Id`"
    );
    assert_eq!(
        fault(r#"{"Id": "a", "Config": true}"#),
        "Could not parse Docker output: invalid type: boolean, expected struct DockerInspectConfig"
    );
    assert_eq!(
        fault(r#"{"Id": "a", "Config": {"Image": []}}"#),
        "Could not parse Docker output: invalid type: sequence, expected a string in field `Image`"
    );
    assert_eq!(
        fault("\"a\""),
        "Could not parse Docker output: invalid type: string, expected struct \
         DockerInspectContainer"
    );
}
