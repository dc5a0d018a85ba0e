use tomlq::extract_pattern;
use tomlq::load_toml_from_str;
use tomlq::Value;

fn doc(text: &str) -> Value {
    load_toml_from_str("test.toml", text).unwrap()
}

#[test]
fn test_extract_pattern() {
    let toml_file = doc(
        r#"
            [package]
            test = "test"
            "#,
    );

    let x = extract_pattern(&toml_file, "package.test").unwrap();
    assert_eq!(x, &Value::String("test".to_string()));
}

#[test]
fn test_fail_extract() {
    let toml_file = doc(
        r#"
            [package]
            test = "test"
            "#,
    );

    let x = extract_pattern(&toml_file, "package.test2");

    assert!(x.is_err());
    assert_eq!(
        x.unwrap_err().message(),
        "Could not find pattern package.test2"
    );
}

#[test]
fn test_get_prop_with_many_tables() {
    let toml_file = doc(
        r#"
            [package]
            test = "test"
            [package2]
            test2 = "test2"
            "#,
    );

    let x = extract_pattern(&toml_file, "package.test").unwrap();
    assert_eq!(x, &Value::String("test".to_string()));
}

#[test]
fn empty_pattern_returns_root() {
    let toml_file = doc("test = \"test\"\n");
    let x = extract_pattern(&toml_file, "").unwrap();
    assert_eq!(x, &toml_file);
}

#[test]
fn dot_pattern_returns_root() {
    let toml_file = doc("test = \"test\"\n");
    let x = extract_pattern(&toml_file, ".").unwrap();
    assert_eq!(x, &toml_file);
}

#[test]
fn leading_dots_are_stripped() {
    let toml_file = doc(
        r#"
            [package]
            test = "test"
            "#,
    );
    let with_dot = extract_pattern(&toml_file, ".package.test").unwrap();
    let without_dot = extract_pattern(&toml_file, "package.test").unwrap();
    assert_eq!(with_dot, without_dot);
    assert_eq!(with_dot, &Value::String("test".to_string()));
}

#[test]
fn error_carries_stripped_pattern() {
    let toml_file = doc("test = \"test\"\n");
    let x = extract_pattern(&toml_file, "..package.test2");
    assert_eq!(
        x.unwrap_err().message(),
        "Could not find pattern package.test2"
    );
}

#[test]
fn empty_segment_is_a_literal_key() {
    let toml_file = doc(
        r#"
            [package]
            test = "test"
            "#,
    );
    let x = extract_pattern(&toml_file, "package..test");
    assert_eq!(
        x.unwrap_err().message(),
        "Could not find pattern package..test"
    );
}

#[test]
fn only_dots_pattern_fails_on_empty_key() {
    let toml_file = doc("test = \"test\"\n");
    let x = extract_pattern(&toml_file, "..");
    assert_eq!(x.unwrap_err().message(), "Could not find pattern ");
}

#[test]
fn non_table_intermediate_fails() {
    let toml_file = doc(
        r#"
            [package]
            test = "test"
            "#,
    );
    let x = extract_pattern(&toml_file, "package.test.deeper");
    assert!(x.is_err());
    assert_eq!(
        x.unwrap_err().message(),
        "Could not find pattern package.test.deeper"
    );
}

#[test]
fn top_level_key_is_extracted() {
    let toml_file = doc(
        r#"
            [package]
            test = "test"
            "#,
    );
    let expected = Value::Table(vec![(
        "test".to_string(),
        Value::String("test".to_string()),
    )]);
    let x = extract_pattern(&toml_file, "package").unwrap();
    assert_eq!(x, &expected);
}

#[test]
fn extract_follows_nested_lookups() {
    let toml_file = doc(
        r#"
            [a.b]
            c = 7
            "#,
    );
    let step1 = toml_file.get("a").unwrap();
    let step2 = step1.get("b").unwrap();
    let step3 = step2.get("c").unwrap();
    let direct = extract_pattern(&toml_file, "a.b.c").unwrap();
    assert_eq!(direct, step3);
    assert_eq!(direct, &Value::Integer(7));
}

#[test]
fn get_on_non_table_returns_none() {
    let v = Value::Integer(3);
    assert!(v.get("anything").is_none());
}

#[test]
fn get_returns_first_entry_for_key() {
    let toml_file = doc("x = 1\ny = 2\n");
    assert_eq!(toml_file.get("y"), Some(&Value::Integer(2)));
    assert_eq!(toml_file.get("z"), None);
}

#[test]
fn primitive_values_are_modeled() {
    let toml_file = doc(
        "s = \"txt\"\nn = 4\nf = 2.5\nb = true\narr = [1, 2]\ndate = 1979-05-27T07:32:00Z\n",
    );
    assert_eq!(extract_pattern(&toml_file, "s").unwrap(), &Value::String("txt".to_string()));
    assert_eq!(extract_pattern(&toml_file, "n").unwrap(), &Value::Integer(4));
    assert_eq!(extract_pattern(&toml_file, "f").unwrap(), &Value::Float("2.5".to_string()));
    assert_eq!(extract_pattern(&toml_file, "b").unwrap(), &Value::Boolean(true));
    assert_eq!(
        extract_pattern(&toml_file, "arr").unwrap(),
        &Value::Array(vec![Value::Integer(1), Value::Integer(2)])
    );
    assert!(matches!(
        extract_pattern(&toml_file, "date").unwrap(),
        Value::Datetime(_)
    ));
}

#[test]
fn sibling_tables_do_not_interfere() {
    let toml_file = doc(
        r#"
            [package]
            test = "test"
            [package2]
            test2 = "test2"
            "#,
    );
    assert_eq!(
        extract_pattern(&toml_file, "package2.test2").unwrap(),
        &Value::String("test2".to_string())
    );
    assert!(extract_pattern(&toml_file, "package.test2").is_err());
}
