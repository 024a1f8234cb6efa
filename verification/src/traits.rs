use vstd::prelude::*;
use crate::environment::Environment;
use crate::ids::{CommandId, EventId, IssuerId, RequestId, UserId};
use crate::role::Role;
use crate::timestamp::Timestamp;

verus! {

/// An Entity is an object whose equality is defined by its identity,
/// not by its attributes: two entities are the same exactly when their
/// identities are.
pub trait Entity {
    /// The identity's type.
    type Id;

    /// The identity that defines the entity's equality.
    fn id(&self) -> &Self::Id;
}

/// A ValueObject is an object whose equality is structural: two value
/// objects are the same exactly when all of their attributes are equal.
/// The marker carries no methods; it records the equality, hashing and
/// cloning contract the type's conformance follows.
pub trait ValueObject {

}

/// The base capability of a type acting as the identity of an
/// Aggregate; conformance demands cloning, equality and hashing
/// consistent with one another.
pub trait AggregateId {

}

/// The base capability of a type acting as the identity of an aggregate
/// root.
pub trait AggregateRootId {

}

/// An Aggregate is a cluster of domain objects treated as a single
/// consistency boundary: an Entity that additionally carries a version
/// and a stable canonical type key.
pub trait Aggregate {
    /// The current version of the Aggregate, incremented by the
    /// persistence layer whenever the Aggregate changes.
    fn version(&self) -> u32;

    /// The stable domain type key: the declaration name's canonical
    /// lower-case, underscore-separated form, computed once at
    /// generation time.
    fn type_key() -> &'static str;
}

/// The metadata every domain event carries.
pub trait DomainEvent {
    /// The unique identifier of the command that raised this event.
    fn command_id(&self) -> &CommandId;

    /// The unique identifier of the event.
    fn event_id(&self) -> &EventId;

    /// The identifier of the client that issued the event.
    fn issuer_id(&self) -> &IssuerId;

    /// When the event was issued.
    fn issued_at(&self) -> &Timestamp;

    /// The environment the event was issued in.
    fn environment(&self) -> &Environment;
}

/// A Request is a command that mutates an Aggregate or a query that
/// returns data; the trait defines the metadata such a message carries.
pub trait Request {
    /// The request identifier's type.
    type RequestId;

    /// The unique identifier of the request.
    fn request_id(&self) -> &Self::RequestId;

    /// The issuer identifier's type.
    type IssuerId;

    /// The identifier of the client that issued the request.
    fn issuer_id(&self) -> &Self::IssuerId;

    /// The environment the request was issued in.
    fn environment(&self) -> &Environment;

    /// When the request was issued.
    fn issued_at(&self) -> &Timestamp;
}

/// A Request issued by an authenticated user.
pub trait AuthenticatedRequest: Request {
    /// The user's identifier.
    fn user_id(&self) -> &UserId;

    /// The user's roles.
    fn roles(&self) -> &Vec<Role>;
}

} // verus!
