use vstd::prelude::*;
use crate::error_detail::ErrorDetail;
use vstd::string::StringExecFns;

verus! {

/// A caller-supplied input was rejected; carries exactly one detail.
#[derive(Debug)]
pub struct UserInputError {
    error_detail: ErrorDetail,
}

impl UserInputError {
    /// The carried detail.
    pub closed spec fn detail(&self) -> ErrorDetail {
        self.error_detail
    }

    pub fn new(error_detail: ErrorDetail) -> (r: UserInputError)
        ensures
            r.detail() == error_detail,
    {
        UserInputError { error_detail }
    }

    pub fn error_detail(&self) -> (r: &ErrorDetail)
        ensures
            *r == self.detail(),
    {
        &self.error_detail
    }

    /// The error's display text: the detail's key and message.
    pub fn describe(&self) -> (r: String)
        ensures
            r@ == self.detail().key_spec() + ": "@ + self.detail().message_spec(),
    {
        let mut s = String::from_str(self.error_detail.key());
        s.append(": ");
        s.append(self.error_detail.message());
        s
    }
}

impl Clone for UserInputError {
    fn clone(&self) -> (r: UserInputError)
        ensures
            r.detail().key_spec() == self.detail().key_spec(),
            r.detail().message_spec() == self.detail().message_spec(),
    {
        UserInputError { error_detail: self.error_detail.clone() }
    }
}

} // verus!
