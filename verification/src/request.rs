use vstd::prelude::*;
use crate::declaration::{find_field, has_field, DeclBody, FieldDecl, GenerationError,
    TypeDeclaration};
use crate::entity::product_fields;
use vstd::string::StringExecFns;

verus! {

/// Whether a Request declaration's field list holds every required
/// metadata field.
pub open spec fn request_fields_present(fs: Seq<FieldDecl>) -> bool {
    &&& has_field(fs, "request_id"@)
    &&& has_field(fs, "environment"@)
    &&& has_field(fs, "issuer_id"@)
    &&& has_field(fs, "issued_at"@)
}

/// Whether `n` names the first required Request metadata field, in the
/// fixed checking order, that `fs` lacks.
pub open spec fn first_missing_request_field(fs: Seq<FieldDecl>, n: Seq<char>) -> bool {
    if !has_field(fs, "request_id"@) {
        n == "request_id"@
    } else if !has_field(fs, "environment"@) {
        n == "environment"@
    } else if !has_field(fs, "issuer_id"@) {
        n == "issuer_id"@
    } else if !has_field(fs, "issued_at"@) {
        n == "issued_at"@
    } else {
        false
    }
}

/// Whether `n` names the first field, in the authenticated variant's
/// checking order, that `fs` lacks: the authenticated additions come
/// before the base Request fields.
pub open spec fn first_missing_authenticated_field(fs: Seq<FieldDecl>, n: Seq<char>) -> bool {
    if !has_field(fs, "user_id"@) {
        n == "user_id"@
    } else if !has_field(fs, "roles"@) {
        n == "roles"@
    } else {
        first_missing_request_field(fs, n)
    }
}

/// The conformance generated for a Request declaration: interface
/// methods forwarding to the required metadata fields, with the issuer
/// identifier's declared type captured for the interface.
#[derive(Debug)]
pub struct RequestImpl {
    /// The declared type the conformance is for.
    pub declared_name: String,
    /// The declared type of the `issuer_id` field.
    pub issuer_id_ty: String,
    /// The stored fields the interface methods forward to, in the order
    /// the interface lists them.
    pub forwarded_fields: Vec<String>,
}

/// The conformance generated for an authenticated Request declaration:
/// the base Request conformance plus forwarding for the user identifier
/// and the user's role set.
#[derive(Debug)]
pub struct AuthenticatedRequestImpl {
    /// The base Request conformance.
    pub request: RequestImpl,
    /// The additional stored fields the authenticated interface
    /// forwards to.
    pub forwarded_auth_fields: Vec<String>,
}

/// Generates Request conformance for a declaration.
///
/// Succeeds exactly on product declarations holding all of `request_id`,
/// `environment`, `issuer_id` and `issued_at`; otherwise the first
/// missing field, in that order, is reported and generation aborts.
pub fn generate_request(decl: &TypeDeclaration) -> (r: Result<RequestImpl, GenerationError>)
    ensures
        match r {
            Ok(q) => {
                &&& product_fields(decl.body) matches Some(fs)
                &&& request_fields_present(fs)
                &&& q.declared_name@ == decl.name@
                &&& exists|i: int|
                    0 <= i < fs.len() && fs[i].name@ == "issuer_id"@ && q.issuer_id_ty
                        == fs[i].ty
                &&& q.forwarded_fields@.len() == 4
                &&& q.forwarded_fields@[0]@ == "request_id"@
                &&& q.forwarded_fields@[1]@ == "environment"@
                &&& q.forwarded_fields@[2]@ == "issuer_id"@
                &&& q.forwarded_fields@[3]@ == "issued_at"@
            },
            Err(GenerationError::MissingRequiredField(n)) => {
                &&& product_fields(decl.body) matches Some(fs)
                &&& first_missing_request_field(fs, n@)
            },
            Err(GenerationError::UnsupportedDeclarationShape) => product_fields(decl.body)
                is None,
            Err(GenerationError::MissingIdentityField) => false,
        },
{
    match &decl.body {
        DeclBody::Product(fields) => {
            if find_field(fields, "request_id").is_none() {
                return Err(GenerationError::MissingRequiredField(String::from_str("request_id")));
            }
            if find_field(fields, "environment").is_none() {
                return Err(GenerationError::MissingRequiredField(String::from_str("environment")));
            }
            let issuer_id_ty = match find_field(fields, "issuer_id") {
                Some(f) => f.ty.clone(),
                None => {
                    return Err(
                        GenerationError::MissingRequiredField(String::from_str("issuer_id")),
                    );
                },
            };
            if find_field(fields, "issued_at").is_none() {
                return Err(GenerationError::MissingRequiredField(String::from_str("issued_at")));
            }
            let mut forwarded_fields: Vec<String> = Vec::new();
            forwarded_fields.push(String::from_str("request_id"));
            forwarded_fields.push(String::from_str("environment"));
            forwarded_fields.push(String::from_str("issuer_id"));
            forwarded_fields.push(String::from_str("issued_at"));
            Ok(RequestImpl { declared_name: decl.name.clone(), issuer_id_ty, forwarded_fields })
        },
        DeclBody::Sum(_) => Err(GenerationError::UnsupportedDeclarationShape),
    }
}

/// Generates authenticated Request conformance for a declaration.
///
/// The authenticated additions `user_id` and `roles` are checked first,
/// then the base Request fields; the first missing field, in that
/// order, is reported and generation aborts.
pub fn generate_authenticated_request(decl: &TypeDeclaration) -> (r: Result<
    AuthenticatedRequestImpl,
    GenerationError,
>)
    ensures
        match r {
            Ok(a) => {
                &&& product_fields(decl.body) matches Some(fs)
                &&& request_fields_present(fs)
                &&& has_field(fs, "user_id"@)
                &&& has_field(fs, "roles"@)
                &&& a.request.declared_name@ == decl.name@
                &&& exists|i: int|
                    0 <= i < fs.len() && fs[i].name@ == "issuer_id"@ && a.request.issuer_id_ty
                        == fs[i].ty
                &&& a.forwarded_auth_fields@.len() == 2
                &&& a.forwarded_auth_fields@[0]@ == "user_id"@
                &&& a.forwarded_auth_fields@[1]@ == "roles"@
            },
            Err(GenerationError::MissingRequiredField(n)) => {
                &&& product_fields(decl.body) matches Some(fs)
                &&& first_missing_authenticated_field(fs, n@)
            },
            Err(GenerationError::UnsupportedDeclarationShape) => product_fields(decl.body)
                is None,
            Err(GenerationError::MissingIdentityField) => false,
        },
{
    match &decl.body {
        DeclBody::Product(fields) => {
            if find_field(fields, "user_id").is_none() {
                return Err(GenerationError::MissingRequiredField(String::from_str("user_id")));
            }
            if find_field(fields, "roles").is_none() {
                return Err(GenerationError::MissingRequiredField(String::from_str("roles")));
            }
            let request = match generate_request(decl) {
                Ok(q) => q,
                Err(e) => {
                    return Err(e);
                },
            };
            let mut forwarded_auth_fields: Vec<String> = Vec::new();
            forwarded_auth_fields.push(String::from_str("user_id"));
            forwarded_auth_fields.push(String::from_str("roles"));
            Ok(AuthenticatedRequestImpl { request, forwarded_auth_fields })
        },
        DeclBody::Sum(_) => Err(GenerationError::UnsupportedDeclarationShape),
    }
}

} // verus!
