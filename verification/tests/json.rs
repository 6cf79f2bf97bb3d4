use brainzbot::json::JsonValue;

#[test]
fn objects_answer_the_first_matching_key() {
    let v = JsonValue::Object(vec![
        ("a".to_string(), JsonValue::Int(1)),
        ("b".to_string(), JsonValue::Int(2)),
        ("a".to_string(), JsonValue::Int(3)),
    ]);
    assert_eq!(v.get("a"), Some(&JsonValue::Int(1)));
    assert_eq!(v.get("b"), Some(&JsonValue::Int(2)));
    assert_eq!(v.get("c"), None);
}

#[test]
fn non_objects_hold_no_members() {
    assert_eq!(JsonValue::Null.get("a"), None);
    assert_eq!(JsonValue::Bool(true).get("a"), None);
    assert_eq!(JsonValue::Array(vec![]).get("a"), None);
}

#[test]
fn arrays_answer_by_index() {
    let v = JsonValue::Array(vec![JsonValue::Int(1), JsonValue::Bool(false)]);
    assert_eq!(v.at(0), Some(&JsonValue::Int(1)));
    assert_eq!(v.at(1), Some(&JsonValue::Bool(false)));
    assert_eq!(v.at(2), None);
    assert_eq!(JsonValue::Null.at(0), None);
}

#[test]
fn leaves_answer_their_own_shape_only() {
    assert_eq!(JsonValue::Bool(true).as_bool(), Some(true));
    assert_eq!(JsonValue::Str("x".to_string()).as_bool(), None);
    assert_eq!(JsonValue::Str("x".to_string()).as_str(), Some("x"));
    assert_eq!(JsonValue::Bool(false).as_str(), None);
    assert_eq!(JsonValue::Null.as_bool(), None);
}
