use ddd::declaration::{
    DeclBody, FieldDecl, FieldRole, GenerationError, TypeDeclaration, VariantDecl, VariantShape,
};
use ddd::aggregate::generate_aggregate;
use ddd::domain_event::generate_domain_event;
use ddd::entity::generate_entity;
use ddd::request::{generate_authenticated_request, generate_request};
use ddd::value_object::{
    generate_value_object, generate_value_object_for_enum, generate_value_object_for_struct,
    ValueObjectImpl, VariantImplShape,
};

fn field(name: &str, ty: &str, role: FieldRole) -> FieldDecl {
    FieldDecl {
        name: name.to_string(),
        ty: ty.to_string(),
        role,
        generate_identity: None,
    }
}

fn product(name: &str, fields: Vec<FieldDecl>) -> TypeDeclaration {
    TypeDeclaration {
        name: name.to_string(),
        body: DeclBody::Product(fields),
    }
}

#[test]
fn entity_generation_keys_equality_to_the_identity_field() {
    let decl = product(
        "Person",
        vec![
            field("id", "u32", FieldRole::Identity),
            field("name", "String", FieldRole::Plain),
        ],
    );
    let generated = generate_entity(&decl).unwrap();
    assert_eq!(generated.declared_name, "Person");
    assert_eq!(generated.identity_field.name, "id");
    assert!(generated.accessors.is_empty());
}

#[test]
fn entity_generation_exposes_marked_fields() {
    let decl = product(
        "Person",
        vec![
            field("id", "u32", FieldRole::Identity),
            field("name", "String", FieldRole::Exposed),
            field("age", "u8", FieldRole::Plain),
        ],
    );
    let generated = generate_entity(&decl).unwrap();
    assert_eq!(generated.accessors.len(), 1);
    assert_eq!(generated.accessors[0].field, "name");
    assert_eq!(generated.accessors[0].ty, "String");
}

#[test]
fn entity_generation_fails_without_an_identity_field() {
    let decl = product("Person", vec![field("name", "String", FieldRole::Exposed)]);
    assert!(matches!(
        generate_entity(&decl),
        Err(GenerationError::MissingIdentityField)
    ));
}

#[test]
fn entity_generation_rejects_a_sum_declaration() {
    let decl = TypeDeclaration {
        name: "Message".to_string(),
        body: DeclBody::Sum(vec![VariantDecl {
            name: "Quit".to_string(),
            shape: VariantShape::Unit,
        }]),
    };
    assert!(matches!(
        generate_entity(&decl),
        Err(GenerationError::UnsupportedDeclarationShape)
    ));
}

#[test]
fn aggregate_registers_the_canonical_type_key() {
    let mut id_field = field("id", "TenantId", FieldRole::Identity);
    id_field.generate_identity = Some("Uuid".to_string());
    let decl = product(
        "Tenant",
        vec![
            id_field,
            field("name", "String", FieldRole::Exposed),
            field("display_name", "String", FieldRole::Exposed),
            field("version", "u32", FieldRole::Plain),
        ],
    );
    let generated = generate_aggregate(&decl).unwrap();
    assert_eq!(generated.type_key, "tenant");
    assert_eq!(generated.entity.identity_field.name, "id");
    let wrapper = generated.generated_identity.unwrap();
    assert_eq!(wrapper.name, "TenantId");
    assert_eq!(wrapper.inner_ty, "Uuid");
}

#[test]
fn aggregate_without_the_directive_generates_no_wrapper() {
    let decl = product("Account", vec![field("id", "AccountId", FieldRole::Identity)]);
    let generated = generate_aggregate(&decl).unwrap();
    assert_eq!(generated.type_key, "account");
    assert!(generated.generated_identity.is_none());
}

#[test]
fn aggregate_generation_fails_without_an_identity_field() {
    let decl = product("Tenant", vec![field("name", "String", FieldRole::Exposed)]);
    assert!(matches!(
        generate_aggregate(&decl),
        Err(GenerationError::MissingIdentityField)
    ));
}

#[test]
fn product_value_object_covers_every_field_but_exposes_marked_ones() {
    let fields = vec![
        field("x", "i32", FieldRole::Plain),
        field("y", "i32", FieldRole::Exposed),
    ];
    let name = "Coordinate".to_string();
    let generated = generate_value_object_for_struct(&name, &fields);
    assert_eq!(generated.declared_name, "Coordinate");
    assert_eq!(generated.value_fields, vec!["x".to_string(), "y".to_string()]);
    assert_eq!(generated.accessors.len(), 1);
    assert_eq!(generated.accessors[0].field, "y");
}

#[test]
fn sum_value_object_emits_one_clause_per_variant_shape() {
    let name = "Message".to_string();
    let variants = vec![
        VariantDecl {
            name: "Quit".to_string(),
            shape: VariantShape::Unit,
        },
        VariantDecl {
            name: "Move".to_string(),
            shape: VariantShape::Named(vec![
                field("x", "i32", FieldRole::Plain),
                field("y", "i32", FieldRole::Plain),
            ]),
        },
        VariantDecl {
            name: "Write".to_string(),
            shape: VariantShape::Positional(vec!["String".to_string()]),
        },
        VariantDecl {
            name: "ChangeColor".to_string(),
            shape: VariantShape::Positional(vec![
                "i32".to_string(),
                "i32".to_string(),
                "i32".to_string(),
            ]),
        },
    ];
    let generated = generate_value_object_for_enum(&name, &variants);
    assert_eq!(generated.declared_name, "Message");
    assert_eq!(generated.variants.len(), 4);
    assert_eq!(generated.variants[0].name, "Quit");
    assert!(matches!(generated.variants[0].shape, VariantImplShape::Unit));
    assert_eq!(generated.variants[1].name, "Move");
    assert!(matches!(
        &generated.variants[1].shape,
        VariantImplShape::Named(ns) if *ns == vec!["x".to_string(), "y".to_string()]
    ));
    assert!(matches!(generated.variants[2].shape, VariantImplShape::Positional(1)));
    assert!(matches!(generated.variants[3].shape, VariantImplShape::Positional(3)));
}

#[test]
fn value_object_generation_routes_by_shape() {
    let decl = product("Coordinate", vec![field("x", "i32", FieldRole::Plain)]);
    assert!(matches!(generate_value_object(&decl), ValueObjectImpl::Product(_)));
    let sum = TypeDeclaration {
        name: "Message".to_string(),
        body: DeclBody::Sum(vec![VariantDecl {
            name: "Quit".to_string(),
            shape: VariantShape::Unit,
        }]),
    };
    assert!(matches!(generate_value_object(&sum), ValueObjectImpl::Sum(_)));
}

fn event_fields(without: &str) -> Vec<FieldDecl> {
    ["command_id", "environment", "event_id", "issuer_id", "issued_at"]
        .iter()
        .filter(|n| **n != without)
        .map(|n| field(n, "T", FieldRole::Plain))
        .collect()
}

#[test]
fn domain_event_generation_forwards_to_the_required_fields() {
    let decl = product("CreatedAccount", event_fields(""));
    let generated = generate_domain_event(&decl).unwrap();
    assert_eq!(generated.declared_name, "CreatedAccount");
    assert_eq!(
        generated.forwarded_fields,
        vec!["command_id", "environment", "event_id", "issuer_id", "issued_at"]
    );
}

#[test]
fn domain_event_lacking_issuer_id_names_it() {
    let decl = product("CreatedAccount", event_fields("issuer_id"));
    assert!(matches!(
        generate_domain_event(&decl),
        Err(GenerationError::MissingRequiredField(n)) if n == "issuer_id"
    ));
}

#[test]
fn domain_event_reports_the_first_missing_field() {
    let decl = product("CreatedAccount", vec![field("issued_at", "T", FieldRole::Plain)]);
    assert!(matches!(
        generate_domain_event(&decl),
        Err(GenerationError::MissingRequiredField(n)) if n == "command_id"
    ));
}

#[test]
fn request_generation_captures_the_issuer_type() {
    let decl = product(
        "CreateAccount",
        vec![
            field("request_id", "RequestId", FieldRole::Plain),
            field("environment", "Environment", FieldRole::Plain),
            field("issuer_id", "ClientKey", FieldRole::Plain),
            field("issued_at", "Timestamp", FieldRole::Plain),
        ],
    );
    let generated = generate_request(&decl).unwrap();
    assert_eq!(generated.issuer_id_ty, "ClientKey");
    assert_eq!(
        generated.forwarded_fields,
        vec!["request_id", "environment", "issuer_id", "issued_at"]
    );
}

#[test]
fn request_lacking_environment_names_it() {
    let decl = product(
        "CreateAccount",
        vec![
            field("request_id", "RequestId", FieldRole::Plain),
            field("issuer_id", "ClientKey", FieldRole::Plain),
            field("issued_at", "Timestamp", FieldRole::Plain),
        ],
    );
    assert!(matches!(
        generate_request(&decl),
        Err(GenerationError::MissingRequiredField(n)) if n == "environment"
    ));
}

#[test]
fn authenticated_request_checks_its_additions_first() {
    let decl = product("CreateAccount", vec![field("roles", "Roles", FieldRole::Plain)]);
    assert!(matches!(
        generate_authenticated_request(&decl),
        Err(GenerationError::MissingRequiredField(n)) if n == "user_id"
    ));
}

#[test]
fn authenticated_request_accepts_a_complete_declaration() {
    let decl = product(
        "CreateAccount",
        vec![
            field("request_id", "RequestId", FieldRole::Plain),
            field("environment", "Environment", FieldRole::Plain),
            field("issuer_id", "IssuerId", FieldRole::Plain),
            field("issued_at", "Timestamp", FieldRole::Plain),
            field("user_id", "UserId", FieldRole::Plain),
            field("roles", "Roles", FieldRole::Plain),
        ],
    );
    let generated = generate_authenticated_request(&decl).unwrap();
    assert_eq!(generated.request.declared_name, "CreateAccount");
    assert_eq!(generated.forwarded_auth_fields, vec!["user_id", "roles"]);
}
