//! JSON documents.
use slipstream::json::JsonValue;
use slipstream::members::read_stated;

fn json(text: &str) -> JsonValue {
    JsonValue::parse(text).unwrap()
}

#[test]
fn documents_are_read_and_written() {
    let value = json(r#" { "b" : [1, -2, true, null], "a" : "x\ny" } "#);
    assert_eq!(value.compact(), r#"{"a":"x\ny","b":[1,-2,true,null]}"#);
    assert_eq!(
        json(r#"{"a": [1]}"#).pretty(),
        "{\n  \"a\": [\n    1\n  ]\n}"
    );
    assert!(JsonValue::parse("{").is_err());
}

#[test]
fn text_reads_back() {
    let value = JsonValue::Text("say \"hi\"\n".to_string());
    assert_eq!(JsonValue::parse(&value.compact()).unwrap(), value);
}

#[test]
fn last_of_two_equal_keys_counts() {
    assert_eq!(json(r#"{"a": 1, "a": 2}"#).compact(), r#"{"a":2}"#);
}

#[test]
fn numbers_keep_their_value() {
    assert_eq!(JsonValue::number(7).compact(), "7");
    assert_eq!(JsonValue::signed(-7).compact(), "-7");
    assert_eq!(json("7"), JsonValue::number(7));
    let parts = json("-3").as_number().unwrap();
    assert_eq!(parts.unsigned, None);
    assert_eq!(parts.signed, Some(-3));
    assert_eq!(parts.text, "-3");
    assert_eq!(json("2.75").as_number().unwrap().truncated, Some(2));
    assert!(json("true").as_number().is_none());
}

#[test]
fn members_are_found() {
    let value = json(r#"{"name": "x", "list": ["a", "b"]}"#);
    assert_eq!(value.get_str("name"), Some("x"));
    assert_eq!(value.get("list").unwrap().as_array().unwrap().len(), 2);
    assert!(value.get("other").is_none());
    assert!(value.get_str("list").is_none());
    assert_eq!(json(r#""s""#).as_str(), Some("s"));
}

#[test]
fn documents_pass_through_serde() {
    let text = r#"{"a":{"b":[1,"two",false,null]}}"#;
    let value: serde_json::Value = serde_json::from_str(text).unwrap();
    let ours = JsonValue::from_serde(value.clone());
    assert_eq!(ours.to_serde(), value);
    assert_eq!(ours.compact(), text);
}

#[test]
fn repeated_members_are_kept_in_order() {
    let text = r#"{"b":1,"a":"x \" y","b":[{"c":null,"c":true}],"a":"\u0041"}"#;
    let value = JsonValue::parse_members(text).unwrap();
    let JsonValue::Object(entries) = &value else {
        panic!("an object");
    };
    let names: Vec<&str> = entries.iter().map(|entry| entry.0.as_str()).collect();
    assert_eq!(names, vec!["b", "a", "b", "a"]);
    assert_eq!(entries[1].1, JsonValue::Text("x \" y".to_string()));
    assert_eq!(entries[3].1, JsonValue::Text("A".to_string()));
    assert_eq!(value.settled(), json(text));
    assert!(JsonValue::parse_members("{").is_err());
}

#[test]
fn a_shape_is_stated_by_an_object_or_an_array() {
    let names = ["a", "b"];
    let stated = |text: &str, needed: usize| {
        read_stated(&JsonValue::parse_members(text).unwrap(), &names, needed)
    };
    assert_eq!(
        stated(r#"{"a":1,"c":2,"c":3}"#, 2),
        Some(JsonValue::parse_members(r#"{"a":1,"c":2,"c":3}"#).unwrap()),
    );
    assert_eq!(stated(r#"{"a":1,"a":1}"#, 2), None);
    assert_eq!(stated("[1,2]", 2), Some(json(r#"{"a":1,"b":2}"#)));
    assert_eq!(stated("[1]", 2), None);
    assert_eq!(stated("[1]", 1), Some(json(r#"{"a":1}"#)));
    assert_eq!(stated("[1,2,3]", 1), None);
    assert_eq!(stated("7", 0), None);
}
