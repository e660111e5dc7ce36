use job_engine::output::{serialize_job_output, JobOutputVariable};

#[test]
fn should_serialize_json_to_job_output_variable_with_string_value() {
    // given
    let json_output_with_string_values = r#"
        {"foo": { "value": "bar", "sensitive": true }, "foo_2": {"value": "bar_2"} }
        "#;

    // when
    let output = serialize_job_output(json_output_with_string_values).unwrap();

    // then
    assert_eq!(
        output.get("foo").unwrap(),
        &JobOutputVariable {
            value: "bar".to_string(),
            sensitive: true,
            description: "".to_string(),
        }
    );
    assert_eq!(
        output.get("foo_2").unwrap(),
        &JobOutputVariable {
            value: "bar_2".to_string(),
            sensitive: false,
            description: "".to_string(),
        }
    );
}

#[test]
fn should_serialize_json_to_job_output_variable_with_numeric_value() {
    // given
    let json_output_with_numeric_values = r#"
        {"foo": { "value": 123, "sensitive": true }, "foo_2": {"value": 123.456} }
        "#;

    // when
    let output = serialize_job_output(json_output_with_numeric_values).unwrap();

    // then
    assert_eq!(
        output.get("foo").unwrap(),
        &JobOutputVariable {
            value: "123".to_string(),
            sensitive: true,
            description: "".to_string(),
        }
    );
    assert_eq!(
        output.get("foo_2").unwrap(),
        &JobOutputVariable {
            value: "123.456".to_string(),
            sensitive: false,
            description: "".to_string(),
        }
    );
    let json_final = output.to_json_string();
    println!("{json_final}");
}

#[test]
fn should_serialize_json_to_job_output_variable_with_description() {
    // given
    let json_output_with_numeric_values = r#"
        {"foo": { "value": 123, "description": "a description" }}
        "#;

    // when
    let output = serialize_job_output(json_output_with_numeric_values).unwrap();

    // then
    assert_eq!(
        output.get("foo").unwrap(),
        &JobOutputVariable {
            value: "123".to_string(),
            sensitive: false,
            description: "a description".to_string(),
        }
    );
    let json_final = output.to_json_string();
    println!("{json_final}");
}

#[test]
fn output_keys_are_uppercased_with_defaults() {
    let input = r#"{"foo": {"value": "bar", "sensitive": true}, "foo_2": {"value": "bar_2"}}"#;
    let output = serialize_job_output(input).unwrap().uppercase_keys();
    assert_eq!(
        output.get("FOO").unwrap(),
        &JobOutputVariable {
            value: "bar".to_string(),
            sensitive: true,
            description: "".to_string(),
        }
    );
    assert_eq!(
        output.get("FOO_2").unwrap(),
        &JobOutputVariable {
            value: "bar_2".to_string(),
            sensitive: false,
            description: "".to_string(),
        }
    );
    assert!(output.get("foo").is_none());
}

#[test]
fn string_values_round_trip_through_serialization() {
    let input = r#"{"key": {"value": "with \"quotes\", a \\ backslash and a\nnewline", "sensitive": false, "description": "d"}}"#;
    let output = serialize_job_output(input).unwrap();
    let serialized = output.to_json_string();

    // Re-parse the library's own serialization with an independent decoder:
    // the string value must come back unchanged.
    let reparsed: serde_json::Map<String, serde_json::Value> = serde_json::from_str(&serialized).unwrap();
    let entry = reparsed.get("key").unwrap().as_object().unwrap();
    assert_eq!(
        entry.get("value").unwrap().as_str().unwrap(),
        "with \"quotes\", a \\ backslash and a\nnewline"
    );
    assert_eq!(entry.get("sensitive").unwrap().as_bool().unwrap(), false);
    assert_eq!(entry.get("description").unwrap().as_str().unwrap(), "d");
}

#[test]
fn numeric_values_keep_their_canonical_text() {
    let input = r#"{"int": {"value": 123}, "float": {"value": 123.456}, "nested": {"value": {"a": 1}}}"#;
    let output = serialize_job_output(input).unwrap();
    assert_eq!(output.get("int").unwrap().value, "123");
    assert_eq!(output.get("float").unwrap().value, "123.456");
    assert_eq!(output.get("nested").unwrap().value, "{\"a\":1}");
}

#[test]
fn entries_missing_fields_take_defaults_and_non_objects_are_dropped() {
    let input = r#"{"plain": "not an object", "kept": {"value": "v"}, "bare": {}}"#;
    let output = serialize_job_output(input).unwrap();
    // the non-object entry is dropped without affecting its siblings
    assert!(output.get("plain").is_none());
    let kept = output.get("kept").unwrap();
    assert_eq!(kept.sensitive, false);
    assert_eq!(kept.description, "");
    // an object without any known field still yields a variable: the value
    // reads as the canonical text of an absent field
    let bare = output.get("bare").unwrap();
    assert_eq!(bare.value, "null");
    assert_eq!(bare.sensitive, false);
}

#[test]
fn malformed_top_level_document_is_a_hard_error() {
    assert!(serialize_job_output("not json at all").is_err());
    assert!(serialize_job_output("[1, 2, 3]").is_err());
    assert!(serialize_job_output("42").is_err());
    assert!(serialize_job_output("").is_err());
}

#[test]
fn empty_document_parses_to_empty_output() {
    let output = serialize_job_output("{}").unwrap();
    assert_eq!(output.len(), 0);
    assert_eq!(output.to_json_string(), "{}");
}

#[test]
fn default_variable_is_sensitive_and_empty() {
    let v = JobOutputVariable::default();
    assert_eq!(v.value, "");
    assert_eq!(v.sensitive, true);
    assert_eq!(v.description, "");
}
