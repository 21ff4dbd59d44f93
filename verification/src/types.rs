//! The finished shape descriptions a registry stores: `TypeId`, `Type`, and
//! their components.

use vstd::prelude::*;

verus! {

/// An opaque, comparable handle identifying one registered type shape within
/// one registry instance. Ids are indices into the registry's append-only
/// store, so they stay stable for the registry's whole lifetime.
#[derive(Clone, Copy, PartialEq, Eq, Structural, Debug)]
pub struct TypeId {
    pub id: usize,
}

/// One named field of a struct shape or of a struct-style enum variant,
/// carrying the id under which the field's own type is registered.
pub struct Field {
    pub name: String,
    pub id: TypeId,
}

/// One variant of an enum shape. Tuple-style variants are deliberately not
/// representable here: the registration driver rejects them before any
/// `Type` value is built.
pub enum Variant {
    Unit { name: String },
    Newtype { name: String, inner: TypeId },
    Struct { name: String, fields: Vec<Field> },
}

/// An immutable, finalized description of one data shape. Nested types are
/// referenced by `TypeId`, never embedded inline, so one shared or recursive
/// type has exactly one definition in the registry.
pub enum Type {
    UnitStruct { name: String },
    NewtypeStruct { name: String, inner: TypeId },
    TupleStruct { name: String, elements: Vec<TypeId> },
    Struct { name: String, fields: Vec<Field> },
    Enum { name: String, variants: Vec<Variant> },
}

/// Every `TypeId` embedded in the variant points below `n`.
pub open spec fn variant_ids_bounded(v: Variant, n: int) -> bool {
    match v {
        Variant::Unit { name: _ } => true,
        Variant::Newtype { name: _, inner } => inner.id < n,
        Variant::Struct { name: _, fields } => forall|i: int|
            0 <= i < fields@.len() ==> (#[trigger] fields@[i]).id.id < n,
    }
}

/// Every `TypeId` embedded in the type points below `n`. A registry of `n`
/// entries only stores types satisfying this bound: no dangling references.
pub open spec fn type_ids_bounded(t: Type, n: int) -> bool {
    match t {
        Type::UnitStruct { name: _ } => true,
        Type::NewtypeStruct { name: _, inner } => inner.id < n,
        Type::TupleStruct { name: _, elements } => forall|i: int|
            0 <= i < elements@.len() ==> (#[trigger] elements@[i]).id < n,
        Type::Struct { name: _, fields } => forall|i: int|
            0 <= i < fields@.len() ==> (#[trigger] fields@[i]).id.id < n,
        Type::Enum { name: _, variants } => forall|i: int|
            0 <= i < variants@.len() ==> variant_ids_bounded(#[trigger] variants@[i], n),
    }
}

/// A bound on embedded ids stays a bound when the registry grows.
pub proof fn lemma_variant_ids_bounded_widen(v: Variant, n1: int, n2: int)
    requires
        variant_ids_bounded(v, n1),
        n1 <= n2,
    ensures
        variant_ids_bounded(v, n2),
{
}

/// A bound on embedded ids stays a bound when the registry grows.
pub proof fn lemma_type_ids_bounded_widen(t: Type, n1: int, n2: int)
    requires
        type_ids_bounded(t, n1),
        n1 <= n2,
    ensures
        type_ids_bounded(t, n2),
{
    match t {
        Type::Enum { name: _, variants } => {
            assert forall|i: int| 0 <= i < variants@.len() implies variant_ids_bounded(
                #[trigger] variants@[i],
                n2,
            ) by {
                lemma_variant_ids_bounded_widen(variants@[i], n1, n2);
            }
        },
        _ => {},
    }
}

} // verus!
