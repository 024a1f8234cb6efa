use vstd::prelude::*;
use crate::error_detail::{ErrorDetail, ErrorDetailSet};
use vstd::string::StringExecFns;

verus! {

/// The display text of a detail list: each detail's key and message, in
/// order.
pub open spec fn details_text(s: Seq<ErrorDetail>) -> Seq<char>
    decreases s.len(),
{
    if s.len() == 0 {
        Seq::empty()
    } else {
        details_text(s.drop_last()) + s.last().key_spec() + ": "@ + s.last().message_spec()
            + ","@
    }
}

/// Several invariants were broken at once; carries one detail per
/// distinct key.
#[derive(Debug)]
pub struct InvariantError {
    error_details: ErrorDetailSet,
}

impl InvariantError {
    /// The carried details.
    pub closed spec fn details(&self) -> Seq<ErrorDetail> {
        self.error_details.view_spec()
    }

    pub fn new(error_details: ErrorDetailSet) -> (r: InvariantError)
        ensures
            r.details() == error_details.view_spec(),
    {
        InvariantError { error_details }
    }

    pub fn error_details(&self) -> (r: &ErrorDetailSet)
        ensures
            r.view_spec() == self.details(),
    {
        &self.error_details
    }

    /// The error's display text: every detail's key and message.
    pub fn describe(&self) -> (r: String)
        ensures
            r@ == details_text(self.details()),
    {
        let items = self.error_details.details();
        let mut s = String::new();
        let mut i: usize = 0;
        while i < items.len()
            invariant
                items@ == self.details(),
                i <= items@.len(),
                s@ == details_text(self.details().take(i as int)),
            decreases items@.len() - i,
        {
            s.append(items[i].key());
            s.append(": ");
            s.append(items[i].message());
            s.append(",");
            proof {
                let pre = self.details().take(i as int);
                let post = self.details().take(i + 1);
                assert(post.drop_last() =~= pre);
                assert(post.last() == self.details()[i as int]);
                assert(s@ =~= details_text(post));
            }
            i = i + 1;
        }
        proof {
            assert(self.details().take(self.details().len() as int) =~= self.details());
        }
        s
    }
}

} // verus!
