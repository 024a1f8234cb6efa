use vstd::prelude::*;
use crate::domain_error::DomainError;
use crate::invariant_error::InvariantError;

verus! {

/// One error as a response body carries it: a key and a description.
#[derive(Debug)]
pub struct StatusCodeError {
    /// The error's key.
    pub error_key: String,
    /// The error's human-readable description.
    pub description: String,
}

impl StatusCodeError {
    pub fn new(error_key: String, description: String) -> (r: StatusCodeError)
        ensures
            r.error_key == error_key,
            r.description == description,
    {
        StatusCodeError { error_key, description }
    }

    pub fn error_key(&self) -> (r: &String)
        ensures
            r == &self.error_key,
    {
        &self.error_key
    }

    pub fn description(&self) -> (r: &String)
        ensures
            r == &self.description,
    {
        &self.description
    }

    /// Maps a domain error to its response form: the detail's key and
    /// message.
    pub fn from(value: &DomainError) -> (r: StatusCodeError)
        ensures
            r.error_key@ == value.detail().key_spec(),
            r.description@ == value.detail().message_spec(),
    {
        let detail = value.error_detail();
        StatusCodeError { error_key: detail.key().to_owned(), description: detail.message().to_owned() }
    }
}

/// Several errors as a response body carries them.
#[derive(Debug)]
pub struct StatusCodeErrors {
    /// The carried errors, in order.
    pub errors: Vec<StatusCodeError>,
}

impl StatusCodeErrors {
    pub fn new(errors: Vec<StatusCodeError>) -> (r: StatusCodeErrors)
        ensures
            r.errors == errors,
    {
        StatusCodeErrors { errors }
    }

    /// Maps an invariant error to its response form: one entry per
    /// carried detail, in order.
    pub fn from(value: &InvariantError) -> (r: StatusCodeErrors)
        ensures
            r.errors@.len() == value.details().len(),
            forall|i: int|
                0 <= i < value.details().len() ==> (#[trigger] r.errors@[i]).error_key@
                    == value.details()[i].key_spec() && r.errors@[i].description@
                    == value.details()[i].message_spec(),
    {
        let items = value.error_details().details();
        let mut errors: Vec<StatusCodeError> = Vec::new();
        let mut i: usize = 0;
        while i < items.len()
            invariant
                items@ == value.details(),
                i <= items@.len(),
                errors@.len() == i,
                forall|k: int|
                    0 <= k < i ==> (#[trigger] errors@[k]).error_key@
                        == value.details()[k].key_spec() && errors@[k].description@
                        == value.details()[k].message_spec(),
            decreases items@.len() - i,
        {
            errors.push(
                StatusCodeError {
                    error_key: items[i].key().to_owned(),
                    description: items[i].message().to_owned(),
                },
            );
            i = i + 1;
        }
        StatusCodeErrors { errors }
    }
}

} // verus!
