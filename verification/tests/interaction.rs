use ccg_bot::{
    CommandInteraction, InteractionError, JsonNumber, JsonValue, LocalCommandOptionType,
};

/// The library's tree for a serde_json value, member order kept.
fn tree(value: serde_json::Value) -> JsonValue {
    match value {
        serde_json::Value::Null => JsonValue::Null,
        serde_json::Value::Bool(b) => JsonValue::Bool(b),
        serde_json::Value::Number(n) => JsonValue::Number(if let Some(u) = n.as_u64() {
            JsonNumber::PosInt(u)
        } else if let Some(i) = n.as_i64() {
            JsonNumber::NegInt(i)
        } else {
            JsonNumber::Float(n.as_f64().unwrap().to_bits())
        }),
        serde_json::Value::String(s) => JsonValue::String(s),
        serde_json::Value::Array(items) => JsonValue::Array(items.into_iter().map(tree).collect()),
        serde_json::Value::Object(map) => {
            JsonValue::Object(map.into_iter().map(|(k, v)| (k, tree(v))).collect())
        },
    }
}

fn object(members: Vec<(&str, JsonValue)>) -> JsonValue {
    JsonValue::Object(members.into_iter().map(|(k, v)| (k.to_string(), v)).collect())
}

fn decode(text: &str) -> Result<CommandInteraction, InteractionError> {
    CommandInteraction::from_json(tree(serde_json::from_str(text).unwrap()))
}

#[test]
fn decodes_a_plain_option() {
    let ci = decode(r#"{"name": "colour", "type": 3, "value": "red"}"#).unwrap();
    assert_eq!(ci.name, "colour");
    assert_eq!(ci.kind, LocalCommandOptionType::String);
    assert!(matches!(ci.value, Some(JsonValue::String(ref s)) if s == "red"));
    assert!(ci.options.is_empty());
    assert!(ci.resolved.is_none());
    assert!(!ci.focused);
}

#[test]
fn decodes_the_empty_option_of_the_derives_test() {
    // An option with every member present, in the form the encoder writes.
    let ci = decode(r#"{
        "name": "", "value": null, "type": 3, "options": [], "resolved": null, "focused": false
    }"#)
    .unwrap();
    assert_eq!(ci.name, "");
    assert!(matches!(ci.value, Some(JsonValue::Null)));
    assert_eq!(ci.kind, LocalCommandOptionType::String);
    assert!(ci.options.is_empty());
    assert!(ci.resolved.is_none());
    assert!(!ci.focused);
}

#[test]
fn missing_value_stays_missing() {
    let ci = decode(r#"{"name": "n", "type": 4}"#).unwrap();
    assert!(ci.value.is_none());
    assert_eq!(ci.kind, LocalCommandOptionType::Integer);
}

#[test]
fn focused_flag_is_read() {
    let ci = decode(r#"{"name": "q", "type": 3, "focused": true}"#).unwrap();
    assert!(ci.focused);
}

#[test]
fn unknown_type_number_decodes_to_unknown() {
    let ci = decode(r#"{"name": "n", "type": 99}"#).unwrap();
    assert_eq!(ci.kind, LocalCommandOptionType::Unknown);
}

#[test]
fn nested_options_decode_in_order() {
    let ci = decode(r#"{
        "name": "group", "type": 2, "options": [
            {"name": "sub", "type": 1, "options": [{"name": "x", "type": 10, "value": 1.5}]},
            {"name": "other", "type": 1}
        ]
    }"#)
    .unwrap();
    assert_eq!(ci.kind, LocalCommandOptionType::SubCommandGroup);
    assert_eq!(ci.options.len(), 2);
    assert_eq!(ci.options[0].name, "sub");
    assert_eq!(ci.options[0].kind, LocalCommandOptionType::SubCommand);
    assert_eq!(ci.options[0].options.len(), 1);
    let x = &ci.options[0].options[0];
    assert_eq!(x.name, "x");
    assert_eq!(x.kind, LocalCommandOptionType::Number);
    assert!(matches!(x.value, Some(JsonValue::Number(JsonNumber::Float(b))) if f64::from_bits(b) == 1.5));
    assert_eq!(ci.options[1].name, "other");
    assert!(ci.options[1].options.is_empty());
}

#[test]
fn not_an_object_is_refused() {
    assert_eq!(decode(r#"[1, 2]"#).unwrap_err(), InteractionError::ExpectedObject);
    assert_eq!(decode(r#""name""#).unwrap_err(), InteractionError::ExpectedObject);
    assert_eq!(decode(r#"null"#).unwrap_err(), InteractionError::ExpectedObject);
}

#[test]
fn missing_name_is_refused() {
    assert_eq!(decode(r#"{"type": 3}"#).unwrap_err(), InteractionError::MissingName);
}

#[test]
fn non_string_name_is_refused() {
    assert_eq!(decode(r#"{"name": 5, "type": 3}"#).unwrap_err(), InteractionError::NameNotString);
    assert_eq!(decode(r#"{"name": null, "type": 3}"#).unwrap_err(), InteractionError::NameNotString);
}

#[test]
fn missing_type_is_refused() {
    assert_eq!(decode(r#"{"name": "n"}"#).unwrap_err(), InteractionError::MissingType);
}

#[test]
fn type_must_be_a_non_negative_integer() {
    for t in ["-1", "3.0", "\"3\"", "null", "true"] {
        assert_eq!(
            decode(&format!(r#"{{"name": "n", "type": {}}}"#, t)).unwrap_err(),
            InteractionError::TypeNotUnsigned
        );
    }
}

#[test]
fn options_must_be_an_array() {
    for o in ["{}", "null", "\"x\""] {
        assert_eq!(
            decode(&format!(r#"{{"name": "n", "type": 1, "options": {}}}"#, o)).unwrap_err(),
            InteractionError::OptionsNotArray
        );
    }
}

#[test]
fn first_bad_nested_option_decides_the_error() {
    let e = decode(r#"{
        "name": "g", "type": 2, "options": [
            {"name": "ok", "type": 1},
            {"type": 1},
            {"name": "t"}
        ]
    }"#)
    .unwrap_err();
    assert_eq!(e, InteractionError::MissingName);
    let e = decode(r#"{"name": "g", "type": 2, "options": [5]}"#).unwrap_err();
    assert_eq!(e, InteractionError::ExpectedObject);
}

#[test]
fn focused_must_be_a_boolean() {
    for f in ["null", "1", "\"true\""] {
        assert_eq!(
            decode(&format!(r#"{{"name": "n", "type": 3, "focused": {}}}"#, f)).unwrap_err(),
            InteractionError::FocusedNotBool
        );
    }
}

#[test]
fn errors_come_in_member_order() {
    // Everything is wrong: the name is reported first.
    assert_eq!(
        decode(r#"{"type": "x", "options": 1, "focused": 1}"#).unwrap_err(),
        InteractionError::MissingName
    );
    assert_eq!(
        decode(r#"{"name": "n", "options": 1, "focused": 1}"#).unwrap_err(),
        InteractionError::MissingType
    );
    assert_eq!(
        decode(r#"{"name": "n", "type": 1, "options": 1, "focused": 1}"#).unwrap_err(),
        InteractionError::OptionsNotArray
    );
    assert_eq!(
        decode(r#"{"name": "n", "type": 1, "options": [{"name": "m"}], "focused": 1}"#)
            .unwrap_err(),
        InteractionError::MissingType
    );
}

#[test]
fn other_members_are_ignored() {
    let ci = decode(r#"{"name": "n", "type": 5, "resolved": {"x": 1}, "extra": [1]}"#).unwrap();
    assert_eq!(ci.kind, LocalCommandOptionType::Boolean);
    assert!(ci.resolved.is_none());
}

#[test]
fn last_member_of_a_repeated_key_wins() {
    let value = object(vec![
        ("name", JsonValue::String("first".to_string())),
        ("type", JsonValue::Number(JsonNumber::PosInt(3))),
        ("name", JsonValue::String("second".to_string())),
    ]);
    let ci = CommandInteraction::from_json(value).unwrap();
    assert_eq!(ci.name, "second");
    let value = object(vec![
        ("name", JsonValue::String("n".to_string())),
        ("type", JsonValue::Number(JsonNumber::PosInt(3))),
        ("type", JsonValue::Null),
    ]);
    assert_eq!(CommandInteraction::from_json(value).unwrap_err(), InteractionError::TypeNotUnsigned);
}
