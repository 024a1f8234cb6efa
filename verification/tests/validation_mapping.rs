use ddd::invariant_error::InvariantError;
use ddd::traits::Aggregate;
use ddd::validation::{
    invariant_error_from_failures, FieldFailure, ResultValidation, ValidationFailures,
};

fn failure(field: &str, messages: Vec<Option<&str>>) -> FieldFailure {
    FieldFailure {
        field: field.to_string(),
        messages: messages.into_iter().map(|m| m.map(|s| s.to_string())).collect(),
    }
}

fn details_of(e: &InvariantError) -> Vec<(String, String)> {
    e.error_details()
        .details()
        .iter()
        .map(|d| (d.key().to_string(), d.message().to_string()))
        .collect()
}

#[test]
fn a_failure_becomes_a_namespaced_detail() {
    let failures = ValidationFailures {
        failures: vec![failure("display_name", vec![Some("must not be empty")])],
    };
    let e = invariant_error_from_failures("tenant", &failures);
    assert_eq!(
        details_of(&e),
        vec![(
            "error.tenant.invalid-display-name".to_string(),
            "'display_name' must not be empty".to_string(),
        )]
    );
}

#[test]
fn repeated_failures_on_one_field_keep_the_first_message() {
    let failures = ValidationFailures {
        failures: vec![failure("name", vec![Some("too short"), Some("too plain")])],
    };
    let e = invariant_error_from_failures("account", &failures);
    assert_eq!(
        details_of(&e),
        vec![(
            "error.account.invalid-name".to_string(),
            "'name' too short".to_string(),
        )]
    );
}

#[test]
fn rules_without_a_message_contribute_no_detail() {
    let failures = ValidationFailures {
        failures: vec![failure("name", vec![None]), failure("age", vec![Some("too low")])],
    };
    let e = invariant_error_from_failures("person", &failures);
    assert_eq!(
        details_of(&e),
        vec![("error.person.invalid-age".to_string(), "'age' too low".to_string())]
    );
}

#[derive(Debug)]
struct Tenant;

impl Aggregate for Tenant {
    fn version(&self) -> u32 {
        1
    }

    fn type_key() -> &'static str {
        "tenant"
    }
}

#[test]
fn a_failed_validation_result_maps_to_an_invariant_error() {
    let failed: Result<Tenant, ValidationFailures> = Err(ValidationFailures {
        failures: vec![failure("name", vec![Some("must not be empty")])],
    });
    let e = failed.map_err_as_invariant_error().unwrap_err();
    assert_eq!(
        details_of(&e),
        vec![(
            "error.tenant.invalid-name".to_string(),
            "'name' must not be empty".to_string(),
        )]
    );

    let ok: Result<Tenant, ValidationFailures> = Ok(Tenant);
    assert!(ok.map_err_as_invariant_error().is_ok());
}
