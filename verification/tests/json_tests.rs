use rpc_gateway::assoc::find_last;
use rpc_gateway::json::{find_member, JsonValue};

fn text(s: &str) -> JsonValue {
    JsonValue::String(s.to_string())
}

fn sample() -> JsonValue {
    JsonValue::Object(vec![
        ("a".to_string(), JsonValue::Null),
        ("b".to_string(), JsonValue::Array(vec![JsonValue::Bool(true), JsonValue::Number("-1.5e3".to_string())])),
        ("a".to_string(), JsonValue::Object(vec![("c".to_string(), text("d"))])),
    ])
}

#[test]
fn duplicate_is_equal_to_what_it_copies() {
    assert_eq!(sample().duplicate(), sample());
    assert_eq!(JsonValue::Null.duplicate(), JsonValue::Null);
    assert_eq!(JsonValue::Array(vec![]).duplicate(), JsonValue::Array(vec![]));
}

#[test]
fn get_finds_the_last_member_of_a_name() {
    let value = sample();
    assert_eq!(value.get("a"), Some(&JsonValue::Object(vec![("c".to_string(), text("d"))])));
    assert_eq!(value.get("a").and_then(|a| a.get("c")), Some(&text("d")));
    assert_eq!(value.get("c"), None);
    assert_eq!(value.get(""), None);
}

#[test]
fn get_finds_nothing_in_what_is_no_object() {
    assert_eq!(JsonValue::Null.get("a"), None);
    assert_eq!(text("a").get("a"), None);
    assert_eq!(JsonValue::Array(vec![text("a")]).get("a"), None);
}

#[test]
fn find_member_reads_the_members_from_the_end() {
    let members = vec![("k".to_string(), text("1")), ("k".to_string(), text("2"))];
    assert_eq!(find_member(&members, "k"), Some(&text("2")));
    assert_eq!(find_member(&members, "K"), None);
    assert_eq!(find_last(&members, "k"), Some(1));
    assert_eq!(find_last(&members, "x"), None);
    assert_eq!(find_last(&Vec::<(String, u8)>::new(), "x"), None);
}

#[test]
fn is_null_tells_null_from_the_rest() {
    assert!(JsonValue::Null.is_null());
    assert!(!JsonValue::Bool(false).is_null());
    assert!(!text("").is_null());
    assert!(!text("null").is_null());
    assert!(!JsonValue::Array(vec![]).is_null());
}

#[test]
fn as_str_gives_the_text_of_a_string() {
    assert_eq!(text("abc").as_str(), Some("abc"));
    assert_eq!(text("").as_str(), Some(""));
    assert_eq!(JsonValue::Number("1".to_string()).as_str(), None);
    assert_eq!(JsonValue::Null.as_str(), None);
}
