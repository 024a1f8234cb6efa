use vstd::prelude::*;
use crate::declaration::{find_field, has_field, DeclBody, FieldDecl, GenerationError,
    TypeDeclaration};
use crate::entity::product_fields;
use vstd::string::StringExecFns;

verus! {

/// Whether a Domain Event declaration's field list holds every required
/// metadata field.
pub open spec fn event_fields_present(fs: Seq<FieldDecl>) -> bool {
    &&& has_field(fs, "command_id"@)
    &&& has_field(fs, "environment"@)
    &&& has_field(fs, "event_id"@)
    &&& has_field(fs, "issuer_id"@)
    &&& has_field(fs, "issued_at"@)
}

/// Whether `n` names the first required Domain Event metadata field, in
/// the fixed checking order, that `fs` lacks.
pub open spec fn first_missing_event_field(fs: Seq<FieldDecl>, n: Seq<char>) -> bool {
    if !has_field(fs, "command_id"@) {
        n == "command_id"@
    } else if !has_field(fs, "environment"@) {
        n == "environment"@
    } else if !has_field(fs, "event_id"@) {
        n == "event_id"@
    } else if !has_field(fs, "issuer_id"@) {
        n == "issuer_id"@
    } else if !has_field(fs, "issued_at"@) {
        n == "issued_at"@
    } else {
        false
    }
}

/// The conformance generated for a Domain Event declaration: interface
/// methods that forward directly to the required metadata fields.
#[derive(Debug)]
pub struct DomainEventImpl {
    /// The declared type the conformance is for.
    pub declared_name: String,
    /// The stored fields the interface methods forward to, in the order
    /// the interface lists them.
    pub forwarded_fields: Vec<String>,
}

/// Generates Domain Event conformance for a declaration.
///
/// Succeeds exactly on product declarations holding all of `command_id`,
/// `environment`, `event_id`, `issuer_id` and `issued_at`; otherwise the
/// first missing field, in that order, is reported and generation
/// aborts with no partial output.
pub fn generate_domain_event(decl: &TypeDeclaration) -> (r: Result<
    DomainEventImpl,
    GenerationError,
>)
    ensures
        match r {
            Ok(e) => {
                &&& product_fields(decl.body) matches Some(fs)
                &&& event_fields_present(fs)
                &&& e.declared_name@ == decl.name@
                &&& e.forwarded_fields@.len() == 5
                &&& e.forwarded_fields@[0]@ == "command_id"@
                &&& e.forwarded_fields@[1]@ == "environment"@
                &&& e.forwarded_fields@[2]@ == "event_id"@
                &&& e.forwarded_fields@[3]@ == "issuer_id"@
                &&& e.forwarded_fields@[4]@ == "issued_at"@
            },
            Err(GenerationError::MissingRequiredField(n)) => {
                &&& product_fields(decl.body) matches Some(fs)
                &&& first_missing_event_field(fs, n@)
            },
            Err(GenerationError::UnsupportedDeclarationShape) => product_fields(decl.body)
                is None,
            Err(GenerationError::MissingIdentityField) => false,
        },
{
    match &decl.body {
        DeclBody::Product(fields) => {
            if find_field(fields, "command_id").is_none() {
                return Err(GenerationError::MissingRequiredField(String::from_str("command_id")));
            }
            if find_field(fields, "environment").is_none() {
                return Err(GenerationError::MissingRequiredField(String::from_str("environment")));
            }
            if find_field(fields, "event_id").is_none() {
                return Err(GenerationError::MissingRequiredField(String::from_str("event_id")));
            }
            if find_field(fields, "issuer_id").is_none() {
                return Err(GenerationError::MissingRequiredField(String::from_str("issuer_id")));
            }
            if find_field(fields, "issued_at").is_none() {
                return Err(GenerationError::MissingRequiredField(String::from_str("issued_at")));
            }
            let mut forwarded_fields: Vec<String> = Vec::new();
            forwarded_fields.push(String::from_str("command_id"));
            forwarded_fields.push(String::from_str("environment"));
            forwarded_fields.push(String::from_str("event_id"));
            forwarded_fields.push(String::from_str("issuer_id"));
            forwarded_fields.push(String::from_str("issued_at"));
            Ok(DomainEventImpl { declared_name: decl.name.clone(), forwarded_fields })
        },
        DeclBody::Sum(_) => Err(GenerationError::UnsupportedDeclarationShape),
    }
}

} // verus!
