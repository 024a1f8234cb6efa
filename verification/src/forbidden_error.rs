use vstd::prelude::*;
use crate::error_detail::ErrorDetail;
use vstd::string::StringExecFns;

verus! {

/// An action was not permitted; carries exactly one detail.
#[derive(Debug)]
pub struct ForbiddenError {
    error_detail: ErrorDetail,
}

impl ForbiddenError {
    /// The carried detail.
    pub closed spec fn detail(&self) -> ErrorDetail {
        self.error_detail
    }

    pub fn new(error_detail: ErrorDetail) -> (r: ForbiddenError)
        ensures
            r.detail() == error_detail,
    {
        ForbiddenError { error_detail }
    }

    pub fn error_detail(&self) -> (r: &ErrorDetail)
        ensures
            *r == self.detail(),
    {
        &self.error_detail
    }

    /// The error's display text: the detail's key and message.
    pub fn describe(&self) -> (r: String)
        ensures
            r@ == self.detail().key_spec() + ": "@ + self.detail().message_spec(),
    {
        let mut s = String::from_str(self.error_detail.key());
        s.append(": ");
        s.append(self.error_detail.message());
        s
    }
}

impl Clone for ForbiddenError {
    fn clone(&self) -> (r: ForbiddenError)
        ensures
            r.detail().key_spec() == self.detail().key_spec(),
            r.detail().message_spec() == self.detail().message_spec(),
    {
        ForbiddenError { error_detail: self.error_detail.clone() }
    }
}

} // verus!
