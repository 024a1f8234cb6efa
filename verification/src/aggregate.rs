use vstd::prelude::*;
use crate::accessor::accessors_of;
use crate::case_converter::{snake_case, to_snake_case};
use crate::classifier::{exposed_of, identity_of};
use crate::declaration::{GenerationError, TypeDeclaration};
use crate::entity::{generate_entity, product_fields, EntityImpl};
use vstd::string::StringExecFns;

verus! {

/// A synthesized identity wrapper type, named after the declaration with
/// an `Id` suffix, holding one inner value; it carries a constructor, a
/// value-by-reference accessor, a value-by-move accessor, a conversion
/// from the inner type, and the identity capability.
#[derive(Debug)]
pub struct GeneratedIdentity {
    /// The wrapper type's name.
    pub name: String,
    /// The caller-supplied inner type.
    pub inner_ty: String,
}

/// The conformance generated for an Aggregate declaration: everything an
/// Entity receives, the declaration's canonical type key, and, when the
/// identity field asks for one, a dedicated identity wrapper type.
#[derive(Debug)]
pub struct AggregateImpl {
    /// The Entity conformance the Aggregate wraps.
    pub entity: EntityImpl,
    /// The canonical key registered as the stable domain type name,
    /// computed once at generation time.
    pub type_key: String,
    /// The synthesized identity wrapper, when requested.
    pub generated_identity: Option<GeneratedIdentity>,
}

/// Generates Aggregate conformance for a declaration.
///
/// Succeeds exactly where Entity generation succeeds; the generated
/// artifact additionally registers the declaration name's canonical key
/// and, when the identity field carries an identity-generation directive,
/// a wrapper type around the directive's inner type.
pub fn generate_aggregate(decl: &TypeDeclaration) -> (r: Result<AggregateImpl, GenerationError>)
    ensures
        match r {
            Ok(a) => {
                &&& product_fields(decl.body) matches Some(fs)
                &&& identity_of(fs) == Some(a.entity.identity_field)
                &&& a.entity.declared_name@ == decl.name@
                &&& a.entity.accessors@ == accessors_of(exposed_of(fs))
                &&& a.type_key@ == snake_case(decl.name@)
                &&& match a.entity.identity_field.generate_identity {
                    Some(inner) => a.generated_identity matches Some(g) && g.name@ == decl.name@
                        + "Id"@ && g.inner_ty == inner,
                    None => a.generated_identity is None,
                }
            },
            Err(GenerationError::MissingIdentityField) => {
                &&& product_fields(decl.body) matches Some(fs)
                &&& identity_of(fs) is None
            },
            Err(GenerationError::UnsupportedDeclarationShape) => product_fields(decl.body)
                is None,
            Err(GenerationError::MissingRequiredField(_)) => false,
        },
{
    let entity = match generate_entity(decl) {
        Ok(e) => e,
        Err(e) => {
            return Err(e);
        },
    };
    let type_key = to_snake_case(decl.name.as_str());
    let generated_identity = match &entity.identity_field.generate_identity {
        Some(inner) => {
            let mut wrapper_name = decl.name.clone();
            wrapper_name.append("Id");
            Some(GeneratedIdentity { name: wrapper_name, inner_ty: inner.clone() })
        },
        None => None,
    };
    Ok(AggregateImpl { entity, type_key, generated_identity })
}

} // verus!
