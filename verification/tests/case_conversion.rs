use ddd::case_converter::to_snake_case;

#[test]
fn create_account_becomes_create_account_key() {
    assert_eq!(to_snake_case("CreateAccount"), "create_account");
}

#[test]
fn converting_twice_changes_nothing() {
    let once = to_snake_case("CreateAccount");
    assert_eq!(to_snake_case(&once), once);
    let other = to_snake_case("HTTPServer");
    assert_eq!(to_snake_case(&other), other);
}

#[test]
fn a_single_word_is_lower_cased() {
    assert_eq!(to_snake_case("Tenant"), "tenant");
}

#[test]
fn consecutive_capitals_stay_one_word() {
    assert_eq!(to_snake_case("HTTPServer"), "http_server");
}

#[test]
fn a_key_already_in_target_form_passes_through() {
    assert_eq!(to_snake_case("create_account"), "create_account");
}
