use vstd::prelude::*;
use crate::accessor::{accessors_of, generate_fields, Accessor};
use crate::classifier::{classify_fields, exposed_of, identity_of};
use crate::declaration::{DeclBody, FieldDecl, GenerationError, TypeDeclaration};

verus! {

/// The fields of a product declaration, or nothing for a sum.
pub open spec fn product_fields(b: DeclBody) -> Option<Seq<FieldDecl>> {
    match b {
        DeclBody::Product(fs) => Some(fs@),
        DeclBody::Sum(_) => None,
    }
}

/// The conformance generated for an Entity declaration: equality and
/// hashing defined solely by the identity field, an accessor handing
/// that field out by reference, and one read accessor per exposed field.
#[derive(Debug)]
pub struct EntityImpl {
    /// The declared type the conformance is for.
    pub declared_name: String,
    /// The field that alone defines equality and hashing.
    pub identity_field: FieldDecl,
    /// The read accessors for the exposed fields.
    pub accessors: Vec<Accessor>,
}

/// Generates Entity conformance for a declaration.
///
/// Succeeds exactly on product declarations with an identity-marked
/// field; a product without one is missing its identity, and a sum
/// declaration is not an acceptable shape for an Entity.
pub fn generate_entity(decl: &TypeDeclaration) -> (r: Result<EntityImpl, GenerationError>)
    ensures
        match r {
            Ok(e) => {
                &&& product_fields(decl.body) matches Some(fs)
                &&& identity_of(fs) == Some(e.identity_field)
                &&& e.declared_name@ == decl.name@
                &&& e.accessors@ == accessors_of(exposed_of(fs))
            },
            Err(GenerationError::MissingIdentityField) => {
                &&& product_fields(decl.body) matches Some(fs)
                &&& identity_of(fs) is None
            },
            Err(GenerationError::UnsupportedDeclarationShape) => product_fields(decl.body)
                is None,
            Err(GenerationError::MissingRequiredField(_)) => false,
        },
{
    match &decl.body {
        DeclBody::Product(fields) => {
            let classified = classify_fields(fields);
            match classified.identity {
                Some(identity_field) => {
                    let accessors = generate_fields(&classified.exposed);
                    Ok(
                        EntityImpl {
                            declared_name: decl.name.clone(),
                            identity_field,
                            accessors,
                        },
                    )
                },
                None => Err(GenerationError::MissingIdentityField),
            }
        },
        DeclBody::Sum(_) => Err(GenerationError::UnsupportedDeclarationShape),
    }
}

} // verus!
