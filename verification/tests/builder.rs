//! The builder's order-enforcement contract: valid sequences produce the
//! declared shape, invalid ones fail fast with a `BuildError`.

use schema_registry::builder::{BuildError, TypeBuilder};
use schema_registry::types::{Type, TypeId, Variant};

#[test]
fn count_mismatch_on_end_after_too_few_fields() {
    let b = TypeBuilder::new();
    let b = b.struct_type(String::from("S"), 2).expect("open struct scope");
    let b = b.field(String::from("a"), TypeId { id: 0 }).expect("first field");
    let r = b.end();
    assert_eq!(r.err(), Some(BuildError::CountMismatch { expected: 2, got: 1 }));
}

#[test]
fn count_mismatch_on_end_after_too_many_fields() {
    let b = TypeBuilder::new();
    let b = b.struct_type(String::from("S"), 1).expect("open struct scope");
    let b = b.field(String::from("a"), TypeId { id: 0 }).expect("first field");
    let b = b.field(String::from("b"), TypeId { id: 0 }).expect("second field");
    let r = b.end();
    assert_eq!(r.err(), Some(BuildError::CountMismatch { expected: 1, got: 2 }));
}

#[test]
fn field_without_open_scope_is_invalid() {
    let b = TypeBuilder::new();
    let r = b.field(String::from("a"), TypeId { id: 0 });
    assert_eq!(r.err(), Some(BuildError::InvalidCall));
}

#[test]
fn end_without_open_scope_is_invalid() {
    let b = TypeBuilder::new();
    let r = b.end();
    assert_eq!(r.err(), Some(BuildError::InvalidCall));
}

#[test]
fn finish_before_closing_is_invalid() {
    let b = TypeBuilder::new();
    let b = b.struct_type(String::from("S"), 0).expect("open struct scope");
    let r = b.finish();
    assert_eq!(r.err(), Some(BuildError::InvalidCall));
}

#[test]
fn element_outside_tuple_scope_is_invalid() {
    let b = TypeBuilder::new();
    let b = b.enum_type(String::from("E"), 1).expect("open enum scope");
    let r = b.element(TypeId { id: 0 });
    assert_eq!(r.err(), Some(BuildError::InvalidCall));
}

#[test]
fn variant_count_is_enforced() {
    let b = TypeBuilder::new();
    let b = b.enum_type(String::from("E"), 2).expect("open enum scope");
    let b = b.unit_variant(String::from("Only")).expect("one variant");
    let r = b.end();
    assert_eq!(r.err(), Some(BuildError::CountMismatch { expected: 2, got: 1 }));
}

#[test]
fn struct_variant_field_count_is_enforced() {
    let b = TypeBuilder::new();
    let b = b.enum_type(String::from("E"), 1).expect("open enum scope");
    let b = b.struct_variant(String::from("V"), 2).expect("open variant scope");
    let b = b.field(String::from("a"), TypeId { id: 0 }).expect("one field");
    let r = b.end();
    assert_eq!(r.err(), Some(BuildError::CountMismatch { expected: 2, got: 1 }));
}

#[test]
fn two_open_scopes_at_one_level_are_impossible() {
    let b = TypeBuilder::new();
    let b = b.struct_type(String::from("S"), 0).expect("open struct scope");
    let r = b.struct_type(String::from("T"), 0);
    assert_eq!(r.err(), Some(BuildError::InvalidCall));
}

#[test]
fn single_step_definitions() {
    let b = TypeBuilder::new();
    let ty = b
        .unit_struct_type(String::from("Unit"))
        .expect("unit struct")
        .finish()
        .expect("finished");
    match ty {
        Type::UnitStruct { name } => assert_eq!(name.as_str(), "Unit"),
        _ => panic!("must be a unit struct"),
    }

    let b = TypeBuilder::new();
    let ty = b
        .newtype_struct_type(String::from("Wrapper"), TypeId { id: 4 })
        .expect("newtype struct")
        .finish()
        .expect("finished");
    match ty {
        Type::NewtypeStruct { name, inner } => {
            assert_eq!(name.as_str(), "Wrapper");
            assert_eq!(inner, TypeId { id: 4 });
        }
        _ => panic!("must be a newtype struct"),
    }
}

#[test]
fn full_struct_build_keeps_order() {
    let b = TypeBuilder::new();
    let ty = b
        .struct_type(String::from("Point"), 2)
        .expect("open struct scope")
        .field(String::from("x"), TypeId { id: 0 })
        .expect("field x")
        .field(String::from("y"), TypeId { id: 0 })
        .expect("field y")
        .end()
        .expect("close struct scope")
        .finish()
        .expect("finished");
    match ty {
        Type::Struct { name, fields } => {
            assert_eq!(name.as_str(), "Point");
            assert_eq!(fields.len(), 2);
            assert_eq!(fields[0].name.as_str(), "x");
            assert_eq!(fields[1].name.as_str(), "y");
        }
        _ => panic!("must be a struct"),
    }
}

#[test]
fn full_enum_build() {
    let b = TypeBuilder::new();
    let ty = b
        .enum_type(String::from("E"), 2)
        .expect("open enum scope")
        .unit_variant(String::from("U"))
        .expect("unit variant")
        .struct_variant(String::from("S"), 1)
        .expect("open variant scope")
        .field(String::from("f"), TypeId { id: 3 })
        .expect("variant field")
        .end()
        .expect("close variant scope")
        .end()
        .expect("close enum scope")
        .finish()
        .expect("finished");
    match ty {
        Type::Enum { name, variants } => {
            assert_eq!(name.as_str(), "E");
            assert_eq!(variants.len(), 2);
            assert!(matches!(&variants[0], Variant::Unit { .. }));
            match &variants[1] {
                Variant::Struct { name, fields } => {
                    assert_eq!(name.as_str(), "S");
                    assert_eq!(fields.len(), 1);
                    assert_eq!(fields[0].id, TypeId { id: 3 });
                }
                _ => panic!("second variant must be struct-style"),
            }
        }
        _ => panic!("must be an enum"),
    }
}
