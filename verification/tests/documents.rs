use users_api::json::{array, name_object, user_text, users_text};
use users_api::model::User;

fn named(name: &str) -> User {
    User { name: name.to_string() }
}

#[test]
fn name_object_wraps_an_encoded_name() {
    assert_eq!(name_object("\"Alice\""), r#"{"name":"Alice"}"#);
    assert_eq!(name_object(""), r#"{"name":}"#);
}

#[test]
fn array_of_nothing() {
    assert_eq!(array(&Vec::new()), "[]");
}

#[test]
fn array_of_one_has_no_comma() {
    assert_eq!(array(&vec!["1".to_string()]), "[1]");
}

#[test]
fn array_separates_with_commas() {
    let documents = vec!["1".to_string(), "{}".to_string(), "".to_string(), "x".to_string()];
    assert_eq!(array(&documents), "[1,{},,x]");
}

#[test]
fn user_text_quotes_the_name() {
    assert_eq!(user_text(&named("Alice")), r#"{"name":"Alice"}"#);
}

#[test]
fn user_text_of_the_empty_name() {
    assert_eq!(user_text(&named("")), r#"{"name":""}"#);
}

#[test]
fn user_text_escapes_quotes_and_backslashes() {
    assert_eq!(user_text(&named("a\"b\\c")), r#"{"name":"a\"b\\c"}"#);
}

#[test]
fn user_text_escapes_control_characters() {
    assert_eq!(user_text(&named("a\nb\tc\u{1}")), "{\"name\":\"a\\nb\\tc\\u0001\"}");
}

#[test]
fn user_text_keeps_other_scripts_as_they_are() {
    assert_eq!(user_text(&named("Zoë 水")), "{\"name\":\"Zoë 水\"}");
}

#[test]
fn user_text_reads_back_as_the_same_name() {
    for name in ["Alice", "", "a\"b", "tab\tnew\nline", "Zoë", "{\"name\":\"x\"}", "\\u0041"] {
        let text = user_text(&named(name));
        let value: serde_json::Value = serde_json::from_str(&text).unwrap();
        assert_eq!(value.get("name").and_then(|v| v.as_str()), Some(name));
        assert_eq!(value.as_object().map(|o| o.len()), Some(1));
    }
}

#[test]
fn users_text_of_no_users() {
    assert_eq!(users_text(&Vec::new()), "[]");
}

#[test]
fn users_text_lists_in_order() {
    let users = vec![named("Bob"), named("Alice"), named("Bob")];
    assert_eq!(users_text(&users), r#"[{"name":"Bob"},{"name":"Alice"},{"name":"Bob"}]"#);
}

#[test]
fn users_text_reads_back_as_the_same_names() {
    let names = ["a,b", "]", "[", "x\"y", ""];
    let users: Vec<User> = names.iter().map(|n| named(n)).collect();
    let value: serde_json::Value = serde_json::from_str(&users_text(&users)).unwrap();
    let listed: Vec<&str> = value
        .as_array()
        .unwrap()
        .iter()
        .map(|entry| entry.get("name").and_then(|v| v.as_str()).unwrap())
        .collect();
    assert_eq!(listed, names);
}
