use kiro_acp::json::{push_member, JsonNumber, JsonValue};

fn json_object(entries: Vec<(&str, JsonValue)>) -> JsonValue {
    JsonValue::Object(entries.into_iter().map(|(k, v)| (k.to_string(), v)).collect())
}

#[test]
fn member_finds_the_value_of_a_key() {
    let doc = json_object(vec![("a", JsonValue::Bool(true)), ("b", JsonValue::text("x"))]);
    assert_eq!(doc.member("a"), Some(&JsonValue::Bool(true)));
    assert_eq!(doc.member("b"), Some(&JsonValue::Text("x".to_string())));
    assert_eq!(doc.member("c"), None);
}

#[test]
fn member_takes_the_last_of_two_equal_keys() {
    let doc = json_object(vec![("k", JsonValue::integer(1)), ("k", JsonValue::integer(2))]);
    assert_eq!(doc.member("k"), Some(&JsonValue::Number(JsonNumber::PosInt(2))));
}

#[test]
fn member_of_what_is_no_object_is_none() {
    assert_eq!(JsonValue::Null.member("k"), None);
    assert_eq!(JsonValue::text("k").member("k"), None);
    assert_eq!(JsonValue::Array(vec![JsonValue::text("k")]).member("k"), None);
}

#[test]
fn member_matches_keys_exactly() {
    let doc = json_object(vec![("key", JsonValue::Null)]);
    assert_eq!(doc.member("Key"), None);
    assert_eq!(doc.member("ke"), None);
    assert_eq!(doc.member("key "), None);
    assert_eq!(doc.member("key"), Some(&JsonValue::Null));
}

#[test]
fn present_member_treats_null_as_missing() {
    let doc = json_object(vec![("a", JsonValue::Null), ("b", JsonValue::Bool(false))]);
    assert_eq!(doc.member("a"), Some(&JsonValue::Null));
    assert_eq!(doc.present_member("a"), None);
    assert_eq!(doc.present_member("b"), Some(&JsonValue::Bool(false)));
    assert_eq!(doc.present_member("c"), None);
}

#[test]
fn text_member_wants_a_string() {
    let doc = json_object(vec![("a", JsonValue::text("hello")), ("b", JsonValue::integer(3))]);
    assert_eq!(doc.text_member("a"), Some("hello"));
    assert_eq!(doc.text_member("b"), None);
    assert_eq!(doc.text_member("c"), None);
}

#[test]
fn as_text_and_kind_tests() {
    assert_eq!(JsonValue::text("abc").as_text(), Some("abc"));
    assert_eq!(JsonValue::Null.as_text(), None);
    assert!(JsonValue::Null.is_null());
    assert!(!JsonValue::Bool(false).is_null());
    assert!(JsonValue::empty_object().is_object());
    assert!(!JsonValue::Array(vec![]).is_object());
}

#[test]
fn integer_picks_the_variant_by_sign() {
    assert_eq!(JsonValue::integer(0), JsonValue::Number(JsonNumber::PosInt(0)));
    assert_eq!(JsonValue::integer(7), JsonValue::Number(JsonNumber::PosInt(7)));
    assert_eq!(JsonValue::integer(-32603), JsonValue::Number(JsonNumber::NegInt(-32603)));
    assert_eq!(
        JsonValue::integer(i32::MAX),
        JsonValue::Number(JsonNumber::PosInt(2147483647))
    );
    assert_eq!(
        JsonValue::integer(i32::MIN),
        JsonValue::Number(JsonNumber::NegInt(-2147483648))
    );
}

#[test]
fn empty_object_has_no_members() {
    assert_eq!(JsonValue::empty_object(), JsonValue::Object(vec![]));
    assert_eq!(JsonValue::empty_object().member("any"), None);
}

#[test]
fn push_member_appends_in_order() {
    let mut entries = Vec::new();
    push_member(&mut entries, "one", JsonValue::integer(1));
    push_member(&mut entries, "two", JsonValue::text("2"));
    assert_eq!(
        JsonValue::Object(entries),
        json_object(vec![("one", JsonValue::integer(1)), ("two", JsonValue::text("2"))])
    );
}

#[test]
fn deep_clone_copies_every_level() {
    let doc = json_object(vec![
        ("n", JsonValue::Number(JsonNumber::Float(1.5f64.to_bits()))),
        (
            "list",
            JsonValue::Array(vec![
                JsonValue::Null,
                JsonValue::Bool(true),
                json_object(vec![("deep", JsonValue::text("value"))]),
            ]),
        ),
        ("s", JsonValue::text("text")),
    ]);
    let copy = doc.deep_clone();
    assert_eq!(copy, doc);
}
