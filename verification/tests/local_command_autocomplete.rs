//! Suggestions for the command line.
use slipstream::local_command_autocomplete::LocalCommandAutocompleteResponse;

#[test]
fn command_suggestion_requires_current_prefix() {
    let response = LocalCommandAutocompleteResponse {
        most_likely_action: "git checkout feature/local".to_string(),
        ..Default::default()
    };

    assert_eq!(
        response.command_suggestion("git checkout "),
        Some("git checkout feature/local")
    );
    assert_eq!(response.command_suggestion("cargo "), None);
    assert_eq!(
        LocalCommandAutocompleteResponse {
            most_likely_action: "git checkout ".to_string(),
            ..Default::default()
        }
        .command_suggestion("git checkout "),
        None
    );
}

#[test]
fn command_suggestion_rejects_multiline_output() {
    let response = LocalCommandAutocompleteResponse {
        most_likely_action: "git status\ngit diff".to_string(),
        ..Default::default()
    };

    assert_eq!(response.command_suggestion("git "), None);
}

#[test]
fn context_sourced_responses_skip_completion_spec_validation() {
    for source in ["deterministic", "fallback"] {
        let response = LocalCommandAutocompleteResponse {
            source: source.to_string(),
            ..Default::default()
        };
        assert!(response.should_skip_completion_spec_validation());
    }

    for source in ["model", "none", ""] {
        let response = LocalCommandAutocompleteResponse {
            source: source.to_string(),
            ..Default::default()
        };
        assert!(!response.should_skip_completion_spec_validation());
    }
}

#[test]
fn answers_of_the_service_are_read_or_refused() {
    let response = LocalCommandAutocompleteResponse::from_json_text(
        r#"{"commands": ["ls"], "most_likely_action": "ls", "raw_output": "ls", "source": "model"}"#,
    )
    .unwrap();
    assert_eq!(response.commands, vec!["ls".to_string()]);
    assert_eq!(response.source, "model");
    assert_eq!(response.parse_status, "");

    let fault = |text: &str| LocalCommandAutocompleteResponse::from_json_text(text).unwrap_err();
    assert_eq!(
        fault("["),
        "error decoding response body: EOF while parsing a list at line 1 column 1"
    );
    assert_eq!(
        fault(r#"{"commands": [], "raw_output": ""}"#),
        "error decoding response body: missing field `most_likely_action`"
    );
    assert_eq!(
        fault(r#"{"commands": [1]}"#),
        "error decoding response body: invalid type: integer, expected a string in field `commands`"
    );
    assert_eq!(
        fault(r#"[[], ""]"#),
        "error decoding response body: invalid length 2, expected struct \
         LocalCommandAutocompleteResponse with 5 elements"
    );
}
