use vstd::prelude::*;
use crate::traits::ValueObject;

verus! {

/// A spending category, carried by its name.
///
/// The type follows the Value Object contract its conformance demands:
/// equality and hashing range over every field, cloning rebuilds each
/// field, and the exposed `name` field has a read accessor.
#[derive(Hash, Debug)]
pub struct Category {
    name: String,
}

impl Category {
    /// The category's name.
    pub closed spec fn name_spec(&self) -> Seq<char> {
        self.name@
    }

    pub fn new(name: String) -> (r: Category)
        ensures
            r.name_spec() == name@,
    {
        Category { name }
    }

    pub fn name(&self) -> (r: &String)
        ensures
            r@ == self.name_spec(),
    {
        &self.name
    }
}

impl Clone for Category {
    fn clone(&self) -> (r: Category)
        ensures
            r.name_spec() == self.name_spec(),
    {
        Category { name: self.name.clone() }
    }
}

impl PartialEq for Category {
    fn eq(&self, other: &Category) -> (r: bool) {
        self.name == other.name
    }
}

impl vstd::std_specs::cmp::PartialEqSpecImpl for Category {
    open spec fn obeys_eq_spec() -> bool {
        true
    }

    open spec fn eq_spec(&self, other: &Category) -> bool {
        self.name_spec() == other.name_spec()
    }
}

impl ValueObject for Category {

}

} // verus!
