use ddd::semantics::{
    attribute_code, entity_equal, sum_hash_stream, sum_value_object_clone, sum_value_object_equal,
    value_object_clone, value_object_equal, value_object_hash_stream, AttributeValue,
    EntityInstance, ProductInstance, SumInstance,
};
use ddd::value_object::{SumVariantImpl, VariantImplShape};

fn person(id: i64, name: &str) -> EntityInstance {
    EntityInstance {
        identity: AttributeValue::Int(id),
        attributes: vec![AttributeValue::Text(name.to_string())],
    }
}

#[test]
fn entities_with_equal_identity_are_equal_whatever_their_attributes() {
    let a = person(1, "Tom");
    let b = person(1, "Jerry");
    assert!(entity_equal(&a, &b));
    let c = person(2, "Tom");
    let d = person(3, "Tom");
    assert!(!entity_equal(&c, &d));
}

fn coordinate(x: i64, y: i64) -> ProductInstance {
    ProductInstance {
        values: vec![AttributeValue::Int(x), AttributeValue::Int(y)],
    }
}

#[test]
fn value_objects_are_equal_exactly_when_all_fields_are() {
    let a = coordinate(1, 2);
    let b = coordinate(1, 2);
    assert!(value_object_equal(&a, &b));
    let c = coordinate(2, 2);
    let d = coordinate(3, 3);
    assert!(!value_object_equal(&c, &d));
}

fn msg_move(x: i64, y: i64) -> SumInstance {
    SumInstance {
        variant: 1,
        values: vec![AttributeValue::Int(x), AttributeValue::Int(y)],
    }
}

fn msg_write(text: &str) -> SumInstance {
    SumInstance {
        variant: 2,
        values: vec![AttributeValue::Text(text.to_string())],
    }
}

fn msg_quit() -> SumInstance {
    SumInstance { variant: 0, values: vec![] }
}

#[test]
fn sum_value_objects_compare_field_wise_within_a_variant() {
    assert!(sum_value_object_equal(&msg_move(2, 2), &msg_move(2, 2)));
    assert!(!sum_value_object_equal(&msg_move(2, 3), &msg_move(3, 4)));
    assert!(sum_value_object_equal(&msg_write("Tom"), &msg_write("Tom")));
    assert!(!sum_value_object_equal(&msg_write("Tom"), &msg_write("Jerry")));
    assert!(sum_value_object_equal(&msg_quit(), &msg_quit()));
}

#[test]
fn different_variants_are_never_equal_even_with_matching_fields() {
    let unit_like_move = SumInstance { variant: 1, values: vec![] };
    assert!(!sum_value_object_equal(&msg_quit(), &unit_like_move));
    let write_as_other_variant = SumInstance {
        variant: 3,
        values: vec![AttributeValue::Text("Tom".to_string())],
    };
    assert!(!sum_value_object_equal(&msg_write("Tom"), &write_as_other_variant));
}

#[test]
fn clones_rebuild_every_field() {
    let a = coordinate(4, 5);
    let c = value_object_clone(&a);
    assert!(value_object_equal(&a, &c));
    let m = msg_write("Tom");
    let mc = sum_value_object_clone(&m);
    assert!(sum_value_object_equal(&m, &mc));
}

#[test]
fn equal_value_objects_hash_alike_in_field_order() {
    let a = coordinate(1, 2);
    let b = coordinate(1, 2);
    assert_eq!(value_object_hash_stream(&a), value_object_hash_stream(&b));
    let words = value_object_hash_stream(&a);
    assert_eq!(words.len(), 2);
    assert_eq!(words[0], attribute_code(&AttributeValue::Int(1)));
    assert_eq!(words[1], attribute_code(&AttributeValue::Int(2)));
}

#[test]
fn only_unit_variants_mix_the_discriminant_into_the_hash() {
    let unit_impl = SumVariantImpl {
        name: "Quit".to_string(),
        shape: VariantImplShape::Unit,
    };
    let named_impl = SumVariantImpl {
        name: "Move".to_string(),
        shape: VariantImplShape::Named(vec!["x".to_string(), "y".to_string()]),
    };
    assert_eq!(sum_hash_stream(&unit_impl, &msg_quit()), vec![0u64]);
    let named_words = sum_hash_stream(&named_impl, &msg_move(2, 3));
    assert_eq!(
        named_words,
        vec![
            attribute_code(&AttributeValue::Int(2)),
            attribute_code(&AttributeValue::Int(3)),
        ]
    );
}

#[test]
fn text_attributes_compare_by_content() {
    let a = AttributeValue::Text("Tom".to_string());
    let b = AttributeValue::Text("Tom".to_string());
    assert_eq!(attribute_code(&a), attribute_code(&b));
}
