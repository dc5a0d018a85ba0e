use tomlq::json_text_to_toml_text;
use tomlq::load_toml_from_str;
use tomlq::render_output;
use tomlq::OutputType;
use tomlq::ToError;
use tomlq::Value;

#[test]
fn parse_error_is_wrapped_with_file_name() {
    let r = load_toml_from_str("broken.toml", "this is [not toml");
    let e = r.unwrap_err();
    assert!(matches!(e, ToError::TomlParseError { .. }));
    assert!(e
        .message()
        .starts_with("Failed to parse TOML file \"broken.toml\": "));
}

#[test]
fn file_open_error_message_renders() {
    let e = ToError::FileOpenError {
        file_name: "missing.toml".to_string(),
        cause: "gone".to_string(),
    };
    assert_eq!(
        e.message(),
        "Failed to open file \"missing.toml\": gone"
    );
}

#[test]
fn pattern_not_found_message_renders() {
    let e = ToError::PatternNotFoundError {
        pattern: "package.test2".to_string(),
    };
    assert_eq!(e.message(), "Could not find pattern package.test2");
}

#[test]
fn render_toml_compact() {
    let d = load_toml_from_str("t", "test = \"test\"\n").unwrap();
    let out = render_output(&d, OutputType::Toml, false).unwrap();
    assert_eq!(out, "test = \"test\"\n");
}

#[test]
fn render_json_compact() {
    let d = load_toml_from_str("t", "[package]\ntest = \"test\"\n").unwrap();
    let out = render_output(&d, OutputType::Json, false).unwrap();
    assert_eq!(out, "{\"package\":{\"test\":\"test\"}}");
}

#[test]
fn render_json_pretty() {
    let d = load_toml_from_str("t", "test = \"test\"\n").unwrap();
    let out = render_output(&d, OutputType::Json, true).unwrap();
    assert_eq!(out, "{\n  \"test\": \"test\"\n}");
}

#[test]
fn render_refuses_non_table_root() {
    let v = Value::String("loose".to_string());
    assert!(render_output(&v, OutputType::Toml, false).is_err());
}

#[test]
fn toml_round_trip_preserves_document() {
    let text = "title = \"x\"\nnums = [1, 2, 3]\n\n[package]\ntest = \"test\"\nflag = true\n";
    let d1 = load_toml_from_str("t", text).unwrap();
    let rendered = render_output(&d1, OutputType::Toml, false).unwrap();
    let d2 = load_toml_from_str("t", rendered.as_str()).unwrap();
    assert_eq!(d1, d2);
}

#[test]
fn toml_pretty_round_trip_preserves_document() {
    let d1 = load_toml_from_str("t", "[package]\ntest = \"test\"\n").unwrap();
    let rendered = render_output(&d1, OutputType::Toml, true).unwrap();
    let d2 = load_toml_from_str("t", rendered.as_str()).unwrap();
    assert_eq!(d1, d2);
}

#[test]
fn json_input_is_converted_to_toml_text() {
    let converted = json_text_to_toml_text("{\"package\":{\"test\":\"test\"}}".to_string()).unwrap();
    let from_json = load_toml_from_str("t", converted.as_str()).unwrap();
    let from_toml = load_toml_from_str("t", "[package]\ntest = \"test\"\n").unwrap();
    assert_eq!(from_json, from_toml);
}

#[test]
fn non_json_input_passes_through_unchanged() {
    let text = "[package]\ntest = \"test\"\n";
    let converted = json_text_to_toml_text(text.to_string()).unwrap();
    assert_eq!(converted, text);
}

#[test]
fn json_without_toml_form_is_an_error() {
    let r = json_text_to_toml_text("\"just a string\"".to_string());
    assert!(r.is_err());
}

#[test]
fn default_output_type_is_toml() {
    assert_eq!(OutputType::default(), OutputType::Toml);
}

#[test]
fn parsed_tables_keep_insertion_order() {
    let d = load_toml_from_str("t", "b = 1\na = 2\n").unwrap();
    let expected = Value::Table(vec![
        ("b".to_string(), Value::Integer(1)),
        ("a".to_string(), Value::Integer(2)),
    ]);
    assert_eq!(d, expected);
}
