//! Shape descriptions: the input the shape-description generator hands to the
//! registration driver. A description names nested types by registration key
//! (`u64`), never by embedding them, so cyclic and shared references are
//! expressible; the driver resolves keys to `TypeId`s.

use vstd::prelude::*;

use crate::types::{Field, Type, TypeId, Variant};

verus! {

/// One declared field: its serialized name and the registration key of its
/// declared type.
pub struct FieldDesc {
    pub name: String,
    pub key: u64,
}

/// One declared enum variant. `Tuple` is expressible so that the driver can
/// reject it: the protocol does not model tuple-style variants.
pub enum VariantDesc {
    Unit { name: String },
    Newtype { name: String, key: u64 },
    Struct { name: String, fields: Vec<FieldDesc> },
    Tuple { name: String, element_keys: Vec<u64> },
}

/// The declared shape of one data type, with nested types named by key.
pub enum ShapeDesc {
    UnitStruct { name: String },
    NewtypeStruct { name: String, key: u64 },
    TupleStruct { name: String, element_keys: Vec<u64> },
    Struct { name: String, fields: Vec<FieldDesc> },
    Enum { name: String, variants: Vec<VariantDesc> },
}

/// One registration key together with the shape declared under it.
pub struct ShapeEntry {
    pub key: u64,
    pub shape: ShapeDesc,
}

/// Everything the shape-description generator supplies: for each key, the
/// declared shape of the type it identifies.
pub struct ShapeEnv {
    pub entries: Vec<ShapeEntry>,
}

/// A description set is well-formed when each key describes one shape.
pub open spec fn env_wf(entries: Seq<ShapeEntry>) -> bool {
    forall|i: int, j: int| 0 <= i < j < entries.len() ==> (#[trigger] entries[i]).key != (#[trigger] entries[j]).key
}

/// Some entry describes `key`.
pub open spec fn env_has(entries: Seq<ShapeEntry>, key: u64) -> bool {
    exists|i: int| 0 <= i < entries.len() && (#[trigger] entries[i]).key == key
}

/// The index of the entry describing `key` (meaningful when `env_has` holds
/// and the entries are well-formed).
pub open spec fn env_index(entries: Seq<ShapeEntry>, key: u64) -> int {
    choose|i: int| 0 <= i < entries.len() && (#[trigger] entries[i]).key == key
}

/// The shape declared under `key` (meaningful when `env_has` holds).
pub open spec fn env_shape(entries: Seq<ShapeEntry>, key: u64) -> ShapeDesc {
    entries[env_index(entries, key)].shape
}

/// Every key the variant's payload mentions is described by some entry.
pub open spec fn variant_closed(v: VariantDesc, entries: Seq<ShapeEntry>) -> bool {
    match v {
        VariantDesc::Unit { name: _ } => true,
        VariantDesc::Newtype { name: _, key } => env_has(entries, key),
        VariantDesc::Struct { name: _, fields } => forall|i: int|
            0 <= i < fields@.len() ==> env_has(entries, (#[trigger] fields@[i]).key),
        VariantDesc::Tuple { name: _, element_keys } => forall|i: int|
            0 <= i < element_keys@.len() ==> env_has(entries, #[trigger] element_keys@[i]),
    }
}

/// Every key the shape mentions is described by some entry.
pub open spec fn shape_closed(s: ShapeDesc, entries: Seq<ShapeEntry>) -> bool {
    match s {
        ShapeDesc::UnitStruct { name: _ } => true,
        ShapeDesc::NewtypeStruct { name: _, key } => env_has(entries, key),
        ShapeDesc::TupleStruct { name: _, element_keys } => forall|i: int|
            0 <= i < element_keys@.len() ==> env_has(entries, #[trigger] element_keys@[i]),
        ShapeDesc::Struct { name: _, fields } => forall|i: int|
            0 <= i < fields@.len() ==> env_has(entries, (#[trigger] fields@[i]).key),
        ShapeDesc::Enum { name: _, variants } => forall|i: int|
            0 <= i < variants@.len() ==> variant_closed(#[trigger] variants@[i], entries),
    }
}

/// No entry's shape mentions a key outside the description set.
pub open spec fn env_closed(entries: Seq<ShapeEntry>) -> bool {
    forall|i: int| 0 <= i < entries.len() ==> shape_closed((#[trigger] entries[i]).shape, entries)
}

/// The protocol models unit, newtype, and struct-style variants only.
pub open spec fn variant_supported(v: VariantDesc) -> bool {
    !(v is Tuple)
}

/// The shape uses no construct the protocol rejects.
pub open spec fn shape_supported(s: ShapeDesc) -> bool {
    match s {
        ShapeDesc::Enum { name: _, variants } => forall|i: int|
            0 <= i < variants@.len() ==> variant_supported(#[trigger] variants@[i]),
        _ => true,
    }
}

/// Every declared shape is supported.
pub open spec fn env_supported(entries: Seq<ShapeEntry>) -> bool {
    forall|i: int| 0 <= i < entries.len() ==> shape_supported((#[trigger] entries[i]).shape)
}

/// A built field renders its declaration: same name, and its id points at the
/// registry entry (given by its key sequence `keys`) holding the declared key.
pub open spec fn field_matches(f: Field, d: FieldDesc, keys: Seq<u64>) -> bool {
    &&& f.name@ == d.name@
    &&& f.id.id < keys.len()
    &&& keys[f.id.id as int] == d.key
}

/// A built variant renders its declaration under the registry keys `keys`.
pub open spec fn variant_matches(v: Variant, d: VariantDesc, keys: Seq<u64>) -> bool {
    match (v, d) {
        (Variant::Unit { name }, VariantDesc::Unit { name: dname }) => name@ == dname@,
        (Variant::Newtype { name, inner }, VariantDesc::Newtype { name: dname, key }) => {
            &&& name@ == dname@
            &&& inner.id < keys.len()
            &&& keys[inner.id as int] == key
        },
        (Variant::Struct { name, fields }, VariantDesc::Struct { name: dname, fields: dfields }) => {
            &&& name@ == dname@
            &&& fields@.len() == dfields@.len()
            &&& forall|i: int| 0 <= i < fields@.len() ==> field_matches(
                #[trigger] fields@[i],
                dfields@[i],
                keys,
            )
        },
        _ => false,
    }
}

/// A registered `Type` renders the declared shape `s`: same kind, same name,
/// fields, elements, and variants in declaration order, each nested reference
/// resolved to the id of the registry entry holding its declared key.
pub open spec fn type_matches_shape(t: Type, s: ShapeDesc, keys: Seq<u64>) -> bool {
    match (t, s) {
        (Type::UnitStruct { name }, ShapeDesc::UnitStruct { name: dname }) => name@ == dname@,
        (Type::NewtypeStruct { name, inner }, ShapeDesc::NewtypeStruct { name: dname, key }) => {
            &&& name@ == dname@
            &&& inner.id < keys.len()
            &&& keys[inner.id as int] == key
        },
        (
            Type::TupleStruct { name, elements },
            ShapeDesc::TupleStruct { name: dname, element_keys },
        ) => {
            &&& name@ == dname@
            &&& elements@.len() == element_keys@.len()
            &&& forall|i: int| 0 <= i < elements@.len() ==> (#[trigger] elements@[i]).id
                < keys.len() && keys[elements@[i].id as int] == element_keys@[i]
        },
        (Type::Struct { name, fields }, ShapeDesc::Struct { name: dname, fields: dfields }) => {
            &&& name@ == dname@
            &&& fields@.len() == dfields@.len()
            &&& forall|i: int| 0 <= i < fields@.len() ==> field_matches(
                #[trigger] fields@[i],
                dfields@[i],
                keys,
            )
        },
        (Type::Enum { name, variants }, ShapeDesc::Enum { name: dname, variants: dvariants }) => {
            &&& name@ == dname@
            &&& variants@.len() == dvariants@.len()
            &&& forall|i: int| 0 <= i < variants@.len() ==> variant_matches(
                #[trigger] variants@[i],
                dvariants@[i],
                keys,
            )
        },
        _ => false,
    }
}

/// Rendering is stable under growing the registry: a type that matched its
/// shape keeps matching after further registrations extend the key sequence.
pub proof fn lemma_variant_matches_extend(
    v: Variant,
    d: VariantDesc,
    keys1: Seq<u64>,
    keys2: Seq<u64>,
)
    requires
        variant_matches(v, d, keys1),
        keys1.len() <= keys2.len(),
        forall|i: int| 0 <= i < keys1.len() ==> keys2[i] == keys1[i],
    ensures
        variant_matches(v, d, keys2),
{
    match (v, d) {
        (Variant::Struct { name: _, fields }, VariantDesc::Struct { name: _, fields: dfields }) => {
            assert forall|i: int| 0 <= i < fields@.len() implies field_matches(
                #[trigger] fields@[i],
                dfields@[i],
                keys2,
            ) by {
                assert(field_matches(fields@[i], dfields@[i], keys1));
            }
        },
        _ => {},
    }
}

/// Rendering is stable under growing the registry (see
/// [`lemma_variant_matches_extend`]).
pub proof fn lemma_type_matches_extend(t: Type, s: ShapeDesc, keys1: Seq<u64>, keys2: Seq<u64>)
    requires
        type_matches_shape(t, s, keys1),
        keys1.len() <= keys2.len(),
        forall|i: int| 0 <= i < keys1.len() ==> keys2[i] == keys1[i],
    ensures
        type_matches_shape(t, s, keys2),
{
    match (t, s) {
        (Type::TupleStruct { name: _, elements }, ShapeDesc::TupleStruct { name: _, element_keys }) => {
            assert forall|i: int| 0 <= i < elements@.len() implies (#[trigger] elements@[i]).id
                < keys2.len() && keys2[elements@[i].id as int] == element_keys@[i] by {
                assert(elements@[i].id < keys1.len());
            }
        },
        (Type::Struct { name: _, fields }, ShapeDesc::Struct { name: _, fields: dfields }) => {
            assert forall|i: int| 0 <= i < fields@.len() implies field_matches(
                #[trigger] fields@[i],
                dfields@[i],
                keys2,
            ) by {
                assert(field_matches(fields@[i], dfields@[i], keys1));
            }
        },
        (Type::Enum { name: _, variants }, ShapeDesc::Enum { name: _, variants: dvariants }) => {
            assert forall|i: int| 0 <= i < variants@.len() implies variant_matches(
                #[trigger] variants@[i],
                dvariants@[i],
                keys2,
            ) by {
                lemma_variant_matches_extend(variants@[i], dvariants@[i], keys1, keys2);
            }
        },
        _ => {},
    }
}

impl ShapeEnv {
    /// An empty description set.
    pub fn new() -> (r: ShapeEnv)
        ensures
            r.entries@.len() == 0,
    {
        ShapeEnv { entries: Vec::new() }
    }

    /// Declares `shape` under `key`. Rejects a key that is already described:
    /// one key identifies one logical type.
    pub fn declare(&mut self, key: u64, shape: ShapeDesc) -> (r: bool)
        requires
            env_wf(old(self).entries@),
        ensures
            env_wf(final(self).entries@),
            r == !env_has(old(self).entries@, key),
            r ==> final(self).entries@ == old(self).entries@.push(
                ShapeEntry { key: key, shape: shape },
            ),
            !r ==> final(self).entries@ == old(self).entries@,
    {
        let n = self.entries.len();
        let mut i: usize = 0;
        while i < n
            invariant
                n == self.entries@.len(),
                env_wf(self.entries@),
                self.entries@ == old(self).entries@,
                i <= n,
                forall|j: int| 0 <= j < i ==> (#[trigger] self.entries@[j]).key != key,
            decreases n - i,
        {
            if self.entries[i].key == key {
                return false;
            }
            i += 1;
        }
        assert(!env_has(self.entries@, key));
        self.entries.push(ShapeEntry { key, shape });
        assert forall|a: int, b: int|
            0 <= a < b < self.entries@.len() implies (#[trigger] self.entries@[a]).key != (
        #[trigger] self.entries@[b]).key by {
            if b + 1 == self.entries@.len() {
                assert(self.entries@[a] == old(self).entries@[a]);
            }
        }
        true
    }

    /// Looks up the shape declared under `key`.
    pub fn find(&self, key: u64) -> (r: Option<&ShapeDesc>)
        requires
            env_wf(self.entries@),
        ensures
            match r {
                Some(s) => env_has(self.entries@, key) && *s == env_shape(self.entries@, key),
                None => !env_has(self.entries@, key),
            },
    {
        let n = self.entries.len();
        let mut i: usize = 0;
        while i < n
            invariant
                n == self.entries@.len(),
                env_wf(self.entries@),
                i <= n,
                forall|j: int| 0 <= j < i ==> (#[trigger] self.entries@[j]).key != key,
            decreases n - i,
        {
            if self.entries[i].key == key {
                proof {
                    assert(env_has(self.entries@, key));
                    let w = env_index(self.entries@, key);
                    assert(self.entries@[w].key == key);
                    assert(w == i);
                }
                return Some(&self.entries[i].shape);
            }
            i += 1;
        }
        None
    }
}

} // verus!
