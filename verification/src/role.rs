use vstd::prelude::*;

verus! {

/// A Role is a value object that represents the authorization of a user.
#[derive(Hash, Debug)]
pub struct Role {
    value: String,
}

impl Role {
    /// The role's text.
    pub closed spec fn value_spec(&self) -> Seq<char> {
        self.value@
    }

    pub fn new(value: String) -> (r: Role)
        ensures
            r.value_spec() == value@,
    {
        Role { value }
    }

    pub fn value(&self) -> (r: &String)
        ensures
            r@ == self.value_spec(),
    {
        &self.value
    }
}

impl Clone for Role {
    fn clone(&self) -> (r: Role)
        ensures
            r.value_spec() == self.value_spec(),
    {
        Role { value: self.value.clone() }
    }
}

impl PartialEq for Role {
    fn eq(&self, other: &Role) -> (r: bool) {
        self.value == other.value
    }
}

impl vstd::std_specs::cmp::PartialEqSpecImpl for Role {
    open spec fn obeys_eq_spec() -> bool {
        true
    }

    open spec fn eq_spec(&self, other: &Role) -> bool {
        self.value_spec() == other.value_spec()
    }
}

impl crate::traits::ValueObject for Role {

}

} // verus!
