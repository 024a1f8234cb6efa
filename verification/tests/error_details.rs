use ddd::error_detail::{ErrorDetail, ErrorDetailSet};

#[test]
fn test_hashset_get_for_str_error_detail() {
    let detail = ErrorDetail::new_const("error.user.invalid-name", "Bad name");
    let mut details = ErrorDetailSet::new();
    details.insert(detail);
    assert!(details.contains_key("error.user.invalid-name"))
}

#[test]
fn test_hashset_get_for_string_error_detail() {
    let detail = ErrorDetail::new(
        "error.user.invalid-name".to_string(),
        "Bad name".to_string(),
    );
    let mut details = ErrorDetailSet::new();
    details.insert(detail);
    assert!(details.contains_key("error.user.invalid-name"))
}

#[test]
fn first_write_wins_for_a_repeated_key() {
    let mut details = ErrorDetailSet::new();
    details.insert(ErrorDetail::new_const("k", "m1"));
    details.insert(ErrorDetail::new_const("k", "m2"));
    assert_eq!(details.len(), 1);
    assert_eq!(details.message_for("k"), Some("m1"));
}

#[test]
fn distinct_keys_are_kept_apart() {
    let mut details = ErrorDetailSet::new();
    details.insert(ErrorDetail::new_const("a", "first"));
    details.insert(ErrorDetail::new_const("b", "second"));
    assert_eq!(details.len(), 2);
    assert_eq!(details.message_for("a"), Some("first"));
    assert_eq!(details.message_for("b"), Some("second"));
    assert_eq!(details.message_for("c"), None);
}

#[test]
fn details_are_equal_by_key_alone() {
    let a = ErrorDetail::new_const("k", "m1");
    let b = ErrorDetail::new_const("k", "m2");
    let c = ErrorDetail::new_const("other", "m1");
    assert!(a == b);
    assert!(a != c);
    assert_eq!(a.key(), "k");
    assert_eq!(a.message(), "m1");
}
