use ddd::category::Category;
use ddd::domain_error::DomainError;
use ddd::environment::Environment;
use ddd::error_detail::{ErrorDetail, ErrorDetailSet};
use ddd::forbidden_error::ForbiddenError;
use ddd::ids::{CommandId, EventId, IssuerId, RequestId, UserId};
use ddd::invariant_error::InvariantError;
use ddd::role::Role;
use ddd::status_code::{StatusCodeError, StatusCodeErrors};
use ddd::timestamp::Timestamp;
use ddd::user_input_error::UserInputError;

#[test]
fn domain_error_carries_and_describes_its_detail() {
    let e = DomainError::new(ErrorDetail::new_const("error.account.closed", "Account is closed"));
    assert_eq!(e.error_detail().key(), "error.account.closed");
    assert_eq!(e.describe(), "error.account.closed: Account is closed");
}

#[test]
fn forbidden_error_carries_and_describes_its_detail() {
    let e = ForbiddenError::new(ErrorDetail::new_const("error.auth.forbidden", "No access"));
    assert_eq!(e.error_detail().message(), "No access");
    assert_eq!(e.describe(), "error.auth.forbidden: No access");
}

#[test]
fn user_input_error_carries_and_describes_its_detail() {
    let e = UserInputError::new(ErrorDetail::new_const("error.input.bad", "Bad input"));
    assert_eq!(e.describe(), "error.input.bad: Bad input");
}

#[test]
fn invariant_error_describes_each_detail_in_order() {
    let mut details = ErrorDetailSet::new();
    details.insert(ErrorDetail::new_const("k1", "m1"));
    details.insert(ErrorDetail::new_const("k2", "m2"));
    let e = InvariantError::new(details);
    assert_eq!(e.error_details().len(), 2);
    assert_eq!(e.describe(), "k1: m1,k2: m2,");
}

#[test]
fn status_code_error_maps_a_domain_error() {
    let e = DomainError::new(ErrorDetail::new_const("error.account.closed", "Account is closed"));
    let sce = StatusCodeError::from(&e);
    assert_eq!(sce.error_key(), "error.account.closed");
    assert_eq!(sce.description(), "Account is closed");
    let direct = StatusCodeError::new("k".to_string(), "d".to_string());
    assert_eq!(direct.error_key, "k");
    assert_eq!(direct.description, "d");
}

#[test]
fn status_code_errors_map_every_invariant_detail() {
    let mut details = ErrorDetailSet::new();
    details.insert(ErrorDetail::new_const("k1", "m1"));
    details.insert(ErrorDetail::new_const("k2", "m2"));
    let e = InvariantError::new(details);
    let body = StatusCodeErrors::from(&e);
    assert_eq!(body.errors.len(), 2);
    assert_eq!(body.errors[0].error_key, "k1");
    assert_eq!(body.errors[1].description, "m2");
    let direct = StatusCodeErrors::new(vec![StatusCodeError::new("k".into(), "d".into())]);
    assert_eq!(direct.errors.len(), 1);
}

#[test]
fn environments_render_and_parse_their_canonical_text() {
    assert_eq!(Environment::Development.as_str(), "development");
    assert_eq!(Environment::Staging.as_str(), "staging");
    assert_eq!(Environment::Production.as_str(), "production");
    assert_eq!(Environment::try_from("staging"), Ok(Environment::Staging));
    assert_eq!(Environment::try_from("production"), Ok(Environment::Production));
    let err = Environment::try_from("qa").unwrap_err();
    assert_eq!(err.message(), "Invalid Environment Error");
}

#[test]
fn identifiers_hand_their_values_back() {
    assert_eq!(CommandId::new(7).value(), 7);
    assert_eq!(EventId::new(9).value(), 9);
    assert_eq!(RequestId::new(11).value(), 11);
    assert_eq!(UserId::new(13).value(), 13);
    assert_eq!(IssuerId::new("client.a".to_string()).value(), "client.a");
    assert_eq!(Role::new("admin".to_string()).value(), "admin");
    assert_eq!(Timestamp::new(42).millis(), 42);
}

#[test]
fn random_identifiers_are_drawn_fresh() {
    let a = EventId::new_random();
    let b = EventId::new_random();
    let r = RequestId::new_random();
    assert_ne!(a.value(), b.value());
    let _ = r.value();
}

#[test]
fn categories_compare_by_their_name() {
    let a = Category::new("Groceries".to_string());
    let b = Category::new("Groceries".to_string());
    let c = Category::new("Rent".to_string());
    assert!(a == b);
    assert!(a != c);
    assert_eq!(a.name(), "Groceries");
    assert_eq!(b.clone().name(), "Groceries");
}

#[test]
fn roles_and_issuers_compare_by_value() {
    assert!(Role::new("admin".into()) == Role::new("admin".into()));
    assert!(Role::new("admin".into()) != Role::new("user".into()));
    assert!(IssuerId::new("a".into()) == IssuerId::new("a".into()));
    assert!(IssuerId::new("a".into()) != IssuerId::new("b".into()));
}
