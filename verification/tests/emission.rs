use ddd::accessor::Accessor;
use ddd::declaration::{DeclBody, FieldDecl, FieldRole, TypeDeclaration, VariantDecl, VariantShape};
use ddd::emit::{render_accessor_block, render_aggregate, render_entity, render_value_object};
use ddd::value_object::generate_value_object;

fn field(name: &str, ty: &str, role: FieldRole) -> FieldDecl {
    FieldDecl {
        name: name.to_string(),
        ty: ty.to_string(),
        role,
        generate_identity: None,
    }
}

#[test]
fn an_accessor_block_hands_each_exposed_field_out_by_reference() {
    let accessors = vec![Accessor {
        field: "name".to_string(),
        ty: "String".to_string(),
    }];
    let text = render_accessor_block("Person", &accessors);
    assert_eq!(
        text,
        "impl Person {\n    pub fn name(&self) -> &String {\n        &self.name\n    }\n}\n"
    );
}

#[test]
fn entity_text_keys_equality_and_hashing_to_the_identity_field() {
    let decl = TypeDeclaration {
        name: "Person".to_string(),
        body: DeclBody::Product(vec![
            field("id", "u32", FieldRole::Identity),
            field("name", "String", FieldRole::Exposed),
        ]),
    };
    let generated = ddd::entity::generate_entity(&decl).unwrap();
    let text = render_entity(&generated);
    assert!(text.contains("type Id = u32;"));
    assert!(text.contains("fn eq(&self, other: &Self) -> bool {\n        self.id == other.id\n"));
    assert!(text.contains("self.id.hash(state);"));
    assert!(text.contains("pub fn name(&self) -> &String"));
    assert!(!text.contains("self.name == other.name"));
}

#[test]
fn aggregate_text_bakes_the_type_key_in_and_declares_the_wrapper() {
    let mut id_field = field("id", "TenantId", FieldRole::Identity);
    id_field.generate_identity = Some("Uuid".to_string());
    let decl = TypeDeclaration {
        name: "Tenant".to_string(),
        body: DeclBody::Product(vec![id_field]),
    };
    let generated = ddd::aggregate::generate_aggregate(&decl).unwrap();
    let text = render_aggregate(&generated);
    assert!(text.contains("pub struct TenantId {\n    id: Uuid,\n}\n"));
    assert!(text.contains("impl From<Uuid> for TenantId"));
    assert!(text.contains("fn type_key() -> &'static str {\n        \"tenant\"\n    }"));
    assert!(text.contains("impl AggregateId for TenantId {}"));
}

#[test]
fn product_value_object_text_covers_every_field() {
    let decl = TypeDeclaration {
        name: "Coordinate".to_string(),
        body: DeclBody::Product(vec![
            field("x", "i32", FieldRole::Plain),
            field("y", "i32", FieldRole::Exposed),
        ]),
    };
    let text = render_value_object(&generate_value_object(&decl));
    assert!(text.contains("true && self.x == other.x && self.y == other.y"));
    assert!(text.contains("x: self.x.clone(),"));
    assert!(text.contains("self.x.hash(state);\n        self.y.hash(state);"));
    assert!(text.contains("pub fn y(&self) -> &i32"));
    assert!(!text.contains("pub fn x(&self)"));
}

#[test]
fn sum_value_object_text_emits_one_clause_per_variant() {
    let decl = TypeDeclaration {
        name: "Message".to_string(),
        body: DeclBody::Sum(vec![
            VariantDecl {
                name: "Quit".to_string(),
                shape: VariantShape::Unit,
            },
            VariantDecl {
                name: "Write".to_string(),
                shape: VariantShape::Positional(vec!["String".to_string()]),
            },
        ]),
    };
    let text = render_value_object(&generate_value_object(&decl));
    let mut expected = String::new();
    expected.push_str("impl ValueObject for Message {}\n");
    expected.push_str("impl Clone for Message {\n    fn clone(&self) -> Self {\n        match self {\n");
    expected.push_str("            Message::Quit => Message::Quit,\n");
    expected.push_str("            Message::Write(field0) => Message::Write(field0.clone()),\n");
    expected.push_str("        }\n    }\n}\n");
    expected.push_str("impl PartialEq for Message {\n    fn eq(&self, other: &Self) -> bool {\n        match (self, other) {\n");
    expected.push_str("            (Message::Quit, Message::Quit) => true,\n");
    expected.push_str("            (Message::Write(lhs_field0), Message::Write(rhs_field0)) => true && lhs_field0 == rhs_field0,\n");
    expected.push_str("            _ => false,\n        }\n    }\n}\n");
    expected.push_str("impl Eq for Message {}\n");
    expected.push_str("impl std::hash::Hash for Message {\n    fn hash<H: std::hash::Hasher>(&self, state: &mut H) {\n        match self {\n");
    expected.push_str("            Message::Quit => {\n                std::mem::discriminant(self).hash(state);\n            },\n");
    expected.push_str("            Message::Write(field0) => {\n                field0.hash(state);\n            },\n");
    expected.push_str("        }\n    }\n}\n");
    assert_eq!(text, expected);
}

#[test]
fn named_variant_text_binds_fresh_names_on_both_sides() {
    let decl = TypeDeclaration {
        name: "Message".to_string(),
        body: DeclBody::Sum(vec![VariantDecl {
            name: "Move".to_string(),
            shape: VariantShape::Named(vec![
                field("x", "i32", FieldRole::Plain),
                field("y", "i32", FieldRole::Plain),
            ]),
        }]),
    };
    let text = render_value_object(&generate_value_object(&decl));
    assert!(text.contains(
        "(Message::Move { x: lhs_x, y: lhs_y }, Message::Move { x: rhs_x, y: rhs_y }) => true && lhs_x == rhs_x && lhs_y == rhs_y,"
    ));
    assert!(text.contains("Message::Move { x, y } => Message::Move { x: x.clone(), y: y.clone() },"));
    assert!(text.contains("Message::Move { x, y } => {\n                x.hash(state);\n                y.hash(state);\n            },"));
    assert!(!text.contains("discriminant(self).hash"));
}
