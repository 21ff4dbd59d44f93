//! End-to-end scenarios for the registration driver: dedup, ordering,
//! cycles, shared references, and rejection of unsupported shapes.

use schema_registry::driver::{register, RegisterError};
use schema_registry::registry::SchemaRegistry;
use schema_registry::shape::{FieldDesc, ShapeDesc, ShapeEnv, VariantDesc};
use schema_registry::types::{Type, TypeId};

const K_I32: u64 = 1;
const K_POINT: u64 = 2;

fn env_with_i32_and_point() -> ShapeEnv {
    let mut env = ShapeEnv::new();
    assert!(env.declare(K_I32, ShapeDesc::UnitStruct { name: String::from("i32") }));
    assert!(env.declare(
        K_POINT,
        ShapeDesc::Struct {
            name: String::from("Point"),
            fields: vec![
                FieldDesc { name: String::from("x"), key: K_I32 },
                FieldDesc { name: String::from("y"), key: K_I32 },
            ],
        },
    ));
    env
}

#[test]
fn end_to_end_point_struct() {
    let env = env_with_i32_and_point();
    let mut reg = SchemaRegistry::new();
    let t0 = reg.register_type(K_I32, Type::UnitStruct { name: String::from("i32") });
    let t1 = register(&mut reg, &env, K_POINT).expect("Point registers");
    assert_ne!(t0, t1);
    assert_eq!(reg.len(), 2);
    match reg.type_of(t1).expect("Point body is stored") {
        Type::Struct { name, fields } => {
            assert_eq!(name.as_str(), "Point");
            assert_eq!(fields.len(), 2);
            assert_eq!(fields[0].name.as_str(), "x");
            assert_eq!(fields[0].id, t0);
            assert_eq!(fields[1].name.as_str(), "y");
            assert_eq!(fields[1].id, t0);
        }
        _ => panic!("Point must be registered as a struct"),
    }
}

#[test]
fn registering_twice_returns_same_id() {
    let env = env_with_i32_and_point();
    let mut reg = SchemaRegistry::new();
    let first = register(&mut reg, &env, K_POINT).expect("first registration");
    let len_after_first = reg.len();
    let second = register(&mut reg, &env, K_POINT).expect("second registration");
    assert_eq!(first, second);
    assert_eq!(reg.len(), len_after_first);
}

#[test]
fn register_type_is_idempotent_per_key() {
    let mut reg = SchemaRegistry::new();
    let a = reg.register_type(7, Type::UnitStruct { name: String::from("unit") });
    let b = reg.register_type(7, Type::UnitStruct { name: String::from("other") });
    assert_eq!(a, b);
    assert_eq!(reg.len(), 1);
}

#[test]
fn field_order_is_declaration_order() {
    let mut env = ShapeEnv::new();
    assert!(env.declare(10, ShapeDesc::UnitStruct { name: String::from("u8") }));
    assert!(env.declare(
        11,
        ShapeDesc::Struct {
            name: String::from("Abc"),
            fields: vec![
                FieldDesc { name: String::from("a"), key: 10 },
                FieldDesc { name: String::from("b"), key: 10 },
                FieldDesc { name: String::from("c"), key: 10 },
            ],
        },
    ));
    let mut reg = SchemaRegistry::new();
    let id = register(&mut reg, &env, 11).expect("Abc registers");
    match reg.type_of(id).expect("Abc body is stored") {
        Type::Struct { name: _, fields } => {
            let names: Vec<&str> = fields.iter().map(|f| f.name.as_str()).collect();
            assert_eq!(names, ["a", "b", "c"]);
        }
        _ => panic!("Abc must be registered as a struct"),
    }
}

#[test]
fn self_referential_struct_terminates_and_resolves_to_own_id() {
    let mut env = ShapeEnv::new();
    assert!(env.declare(
        20,
        ShapeDesc::Struct {
            name: String::from("Node"),
            fields: vec![FieldDesc { name: String::from("next"), key: 20 }],
        },
    ));
    let mut reg = SchemaRegistry::new();
    let id = register(&mut reg, &env, 20).expect("a cyclic shape still registers");
    assert_eq!(reg.len(), 1);
    match reg.type_of(id).expect("Node body is stored") {
        Type::Struct { name, fields } => {
            assert_eq!(name.as_str(), "Node");
            assert_eq!(fields.len(), 1);
            assert_eq!(fields[0].id, id);
        }
        _ => panic!("Node must be registered as a struct"),
    }
}

#[test]
fn mutually_recursive_structs_register_once_each() {
    let mut env = ShapeEnv::new();
    assert!(env.declare(
        30,
        ShapeDesc::Struct {
            name: String::from("Ping"),
            fields: vec![FieldDesc { name: String::from("pong"), key: 31 }],
        },
    ));
    assert!(env.declare(
        31,
        ShapeDesc::Struct {
            name: String::from("Pong"),
            fields: vec![FieldDesc { name: String::from("ping"), key: 30 }],
        },
    ));
    let mut reg = SchemaRegistry::new();
    let ping = register(&mut reg, &env, 30).expect("Ping registers");
    let pong = register(&mut reg, &env, 31).expect("Pong resolves to the entry Ping created");
    assert_eq!(reg.len(), 2);
    match reg.type_of(ping).expect("Ping body") {
        Type::Struct { name: _, fields } => assert_eq!(fields[0].id, pong),
        _ => panic!("Ping must be a struct"),
    }
    match reg.type_of(pong).expect("Pong body") {
        Type::Struct { name: _, fields } => assert_eq!(fields[0].id, ping),
        _ => panic!("Pong must be a struct"),
    }
}

#[test]
fn shared_type_is_registered_once() {
    let mut env = ShapeEnv::new();
    assert!(env.declare(40, ShapeDesc::UnitStruct { name: String::from("Common") }));
    assert!(env.declare(
        41,
        ShapeDesc::Struct {
            name: String::from("A"),
            fields: vec![FieldDesc { name: String::from("c"), key: 40 }],
        },
    ));
    assert!(env.declare(
        42,
        ShapeDesc::Struct {
            name: String::from("B"),
            fields: vec![FieldDesc { name: String::from("c"), key: 40 }],
        },
    ));
    let mut reg = SchemaRegistry::new();
    let a = register(&mut reg, &env, 41).expect("A registers");
    let b = register(&mut reg, &env, 42).expect("B registers");
    // Common, A, B: exactly three entries, not four.
    assert_eq!(reg.len(), 3);
    let c_in_a = match reg.type_of(a).expect("A body") {
        Type::Struct { name: _, fields } => fields[0].id,
        _ => panic!("A must be a struct"),
    };
    let c_in_b = match reg.type_of(b).expect("B body") {
        Type::Struct { name: _, fields } => fields[0].id,
        _ => panic!("B must be a struct"),
    };
    assert_eq!(c_in_a, c_in_b);
    assert_eq!(reg.resolve(40), Some(c_in_a));
}

#[test]
fn tuple_variant_is_rejected_without_partial_entries() {
    let mut env = ShapeEnv::new();
    assert!(env.declare(50, ShapeDesc::UnitStruct { name: String::from("i32") }));
    assert!(env.declare(
        51,
        ShapeDesc::Enum {
            name: String::from("Bad"),
            variants: vec![VariantDesc::Tuple {
                name: String::from("Pair"),
                element_keys: vec![50, 50],
            }],
        },
    ));
    let mut reg = SchemaRegistry::new();
    let r = register(&mut reg, &env, 51);
    assert_eq!(r, Err(RegisterError::UnsupportedShape { key: 51 }));
    assert_eq!(reg.len(), 0);
    assert_eq!(reg.resolve(51), None);
}

#[test]
fn unknown_key_fails_and_rolls_back() {
    let mut env = ShapeEnv::new();
    assert!(env.declare(
        60,
        ShapeDesc::Struct {
            name: String::from("Dangling"),
            fields: vec![FieldDesc { name: String::from("f"), key: 999 }],
        },
    ));
    let mut reg = SchemaRegistry::new();
    let r = register(&mut reg, &env, 60);
    assert_eq!(r, Err(RegisterError::UnknownKey { key: 999 }));
    // No orphaned reservation for the enclosing type either.
    assert_eq!(reg.len(), 0);
    assert_eq!(reg.resolve(60), None);

    let r2 = register(&mut reg, &env, 61);
    assert_eq!(r2, Err(RegisterError::UnknownKey { key: 61 }));
    assert_eq!(reg.len(), 0);
}

#[test]
fn newtype_tuple_and_unit_structs_register() {
    let mut env = ShapeEnv::new();
    assert!(env.declare(70, ShapeDesc::UnitStruct { name: String::from("i32") }));
    assert!(env.declare(
        71,
        ShapeDesc::NewtypeStruct { name: String::from("Meters"), key: 70 },
    ));
    assert!(env.declare(
        72,
        ShapeDesc::TupleStruct { name: String::from("Pair"), element_keys: vec![70, 71] },
    ));
    let mut reg = SchemaRegistry::new();
    let meters = register(&mut reg, &env, 71).expect("Meters registers");
    let pair = register(&mut reg, &env, 72).expect("Pair registers");
    let i32_id = reg.resolve(70).expect("i32 was registered on the way");
    match reg.type_of(meters).expect("Meters body") {
        Type::NewtypeStruct { name, inner } => {
            assert_eq!(name.as_str(), "Meters");
            assert_eq!(*inner, i32_id);
        }
        _ => panic!("Meters must be a newtype struct"),
    }
    match reg.type_of(pair).expect("Pair body") {
        Type::TupleStruct { name, elements } => {
            assert_eq!(name.as_str(), "Pair");
            assert_eq!(elements.as_slice(), [i32_id, meters]);
        }
        _ => panic!("Pair must be a tuple struct"),
    }
    match reg.type_of(i32_id).expect("i32 body") {
        Type::UnitStruct { name } => assert_eq!(name.as_str(), "i32"),
        _ => panic!("i32 must be a unit struct"),
    }
}

#[test]
fn enum_with_all_supported_variant_styles() {
    let mut env = ShapeEnv::new();
    assert!(env.declare(80, ShapeDesc::UnitStruct { name: String::from("i32") }));
    assert!(env.declare(
        81,
        ShapeDesc::Enum {
            name: String::from("Shape"),
            variants: vec![
                VariantDesc::Unit { name: String::from("Empty") },
                VariantDesc::Newtype { name: String::from("Radius"), key: 80 },
                VariantDesc::Struct {
                    name: String::from("Rect"),
                    fields: vec![
                        FieldDesc { name: String::from("w"), key: 80 },
                        FieldDesc { name: String::from("h"), key: 80 },
                    ],
                },
            ],
        },
    ));
    let mut reg = SchemaRegistry::new();
    let id = register(&mut reg, &env, 81).expect("Shape registers");
    let i32_id = reg.resolve(80).expect("i32 registered on the way");
    match reg.type_of(id).expect("Shape body") {
        Type::Enum { name, variants } => {
            assert_eq!(name.as_str(), "Shape");
            assert_eq!(variants.len(), 3);
            match &variants[0] {
                schema_registry::types::Variant::Unit { name } => {
                    assert_eq!(name.as_str(), "Empty")
                }
                _ => panic!("first variant must be unit-style"),
            }
            match &variants[1] {
                schema_registry::types::Variant::Newtype { name, inner } => {
                    assert_eq!(name.as_str(), "Radius");
                    assert_eq!(*inner, i32_id);
                }
                _ => panic!("second variant must be newtype-style"),
            }
            match &variants[2] {
                schema_registry::types::Variant::Struct { name, fields } => {
                    assert_eq!(name.as_str(), "Rect");
                    assert_eq!(fields.len(), 2);
                    assert_eq!(fields[0].name.as_str(), "w");
                    assert_eq!(fields[0].id, i32_id);
                    assert_eq!(fields[1].name.as_str(), "h");
                    assert_eq!(fields[1].id, i32_id);
                }
                _ => panic!("third variant must be struct-style"),
            }
        }
        _ => panic!("Shape must be an enum"),
    }
}

#[test]
fn declaring_a_key_twice_is_refused() {
    let mut env = ShapeEnv::new();
    assert!(env.declare(90, ShapeDesc::UnitStruct { name: String::from("first") }));
    assert!(!env.declare(90, ShapeDesc::UnitStruct { name: String::from("second") }));
}

#[test]
fn type_ids_are_stable_across_later_registrations() {
    let env = env_with_i32_and_point();
    let mut reg = SchemaRegistry::new();
    let point = register(&mut reg, &env, K_POINT).expect("Point registers");
    let i32_id = reg.resolve(K_I32).expect("i32 registered on the way");
    let extra = reg.register_type(100, Type::UnitStruct { name: String::from("later") });
    assert_ne!(extra, point);
    assert_ne!(extra, i32_id);
    assert_eq!(reg.resolve(K_POINT), Some(point));
    assert_eq!(reg.resolve(K_I32), Some(i32_id));
    assert_eq!(reg.resolve(1000), None);
    assert!(reg.type_of(TypeId { id: 1000 }).is_none());
}
