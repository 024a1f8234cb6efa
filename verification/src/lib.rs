//! Domain-driven design building blocks with verified generation logic.
//!
//! The crate models annotated type declarations, classifies their fields,
//! and derives the equality, hashing, cloning and accessor conformance that
//! Entity, Value Object, Aggregate, Domain Event and Request roles demand,
//! together with the runtime error values those domains surface.

pub mod accessor;
pub mod aggregate;
pub mod case_converter;
pub mod category;
pub mod classifier;
pub mod declaration;
pub mod domain_error;
pub mod domain_event;
pub mod emit;
pub mod entity;
pub mod environment;
pub mod error_detail;
pub mod event_bus;
pub mod forbidden_error;
pub mod ids;
pub mod invariant_error;
pub mod request;
pub mod role;
pub mod semantics;
pub mod status_code;
pub mod strutil;
pub mod timestamp;
pub mod traits;
pub mod user_input_error;
pub mod validation;
pub mod value_object;
