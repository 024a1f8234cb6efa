use vstd::prelude::*;

verus! {

/// Relies on uuid::Uuid::new_v4 and Uuid::as_u128: a freshly drawn
/// version-4 identifier, carried as its 128-bit value. The result is
/// random, so nothing is promised of it.
#[verifier::external_body]
fn fresh_uuid_value() -> u128 {
    uuid::Uuid::new_v4().as_u128()
}

/// The identifier of the command a domain event answers to.
#[derive(PartialEq, Eq, Structural, Hash, Clone, Copy, Debug)]
pub struct CommandId {
    value: u128,
}

impl CommandId {
    /// The identifier's 128-bit value.
    pub closed spec fn value_spec(&self) -> u128 {
        self.value
    }

    pub fn new(value: u128) -> (r: CommandId)
        ensures
            r.value_spec() == value,
    {
        CommandId { value }
    }

    pub fn value(&self) -> (r: u128)
        ensures
            r == self.value_spec(),
    {
        self.value
    }
}

/// The unique identifier of a domain event.
#[derive(PartialEq, Eq, Structural, Hash, Clone, Copy, Debug)]
pub struct EventId {
    value: u128,
}

impl EventId {
    /// The identifier's 128-bit value.
    pub closed spec fn value_spec(&self) -> u128 {
        self.value
    }

    pub fn new(value: u128) -> (r: EventId)
        ensures
            r.value_spec() == value,
    {
        EventId { value }
    }

    /// A freshly drawn event identifier.
    pub fn new_random() -> EventId {
        EventId { value: fresh_uuid_value() }
    }

    pub fn value(&self) -> (r: u128)
        ensures
            r == self.value_spec(),
    {
        self.value
    }
}

/// The unique identifier of a request.
#[derive(PartialEq, Eq, Structural, Hash, Clone, Copy, Debug)]
pub struct RequestId {
    value: u128,
}

impl RequestId {
    /// The identifier's 128-bit value.
    pub closed spec fn value_spec(&self) -> u128 {
        self.value
    }

    pub fn new(value: u128) -> (r: RequestId)
        ensures
            r.value_spec() == value,
    {
        RequestId { value }
    }

    /// A freshly drawn request identifier.
    pub fn new_random() -> RequestId {
        RequestId { value: fresh_uuid_value() }
    }

    pub fn value(&self) -> (r: u128)
        ensures
            r == self.value_spec(),
    {
        self.value
    }
}

/// The identifier of the client that issued a request or event.
#[derive(Hash, Debug)]
pub struct IssuerId {
    value: String,
}

impl IssuerId {
    /// The identifier's text.
    pub closed spec fn value_spec(&self) -> Seq<char> {
        self.value@
    }

    pub fn new(value: String) -> (r: IssuerId)
        ensures
            r.value_spec() == value@,
    {
        IssuerId { value }
    }

    pub fn value(&self) -> (r: &String)
        ensures
            r@ == self.value_spec(),
    {
        &self.value
    }
}

impl Clone for IssuerId {
    fn clone(&self) -> (r: IssuerId)
        ensures
            r.value_spec() == self.value_spec(),
    {
        IssuerId { value: self.value.clone() }
    }
}

impl PartialEq for IssuerId {
    fn eq(&self, other: &IssuerId) -> (r: bool) {
        self.value == other.value
    }
}

impl vstd::std_specs::cmp::PartialEqSpecImpl for IssuerId {
    open spec fn obeys_eq_spec() -> bool {
        true
    }

    open spec fn eq_spec(&self, other: &IssuerId) -> bool {
        self.value_spec() == other.value_spec()
    }
}

/// The identifier of an authenticated user.
#[derive(PartialEq, Eq, Structural, Hash, Clone, Copy, Debug)]
pub struct UserId {
    value: u128,
}

impl UserId {
    /// The identifier's 128-bit value.
    pub closed spec fn value_spec(&self) -> u128 {
        self.value
    }

    pub fn new(value: u128) -> (r: UserId)
        ensures
            r.value_spec() == value,
    {
        UserId { value }
    }

    pub fn value(&self) -> (r: u128)
        ensures
            r == self.value_spec(),
    {
        self.value
    }
}

impl crate::traits::ValueObject for CommandId {

}

impl crate::traits::ValueObject for EventId {

}

impl crate::traits::ValueObject for RequestId {

}

impl crate::traits::ValueObject for IssuerId {

}

impl crate::traits::ValueObject for UserId {

}

} // verus!
