//! The registration protocol's guarantees, stated and proved over the
//! contracts of [`crate::driver::register`] and the registry: determinism of
//! ids, preservation of declaration order, cycle resolution, and
//! deduplication of shared types.

use vstd::prelude::*;

use crate::driver::register_success;
use crate::registry::SchemaRegistry;
use crate::shape::{env_shape, field_matches, type_matches_shape, FieldDesc, ShapeDesc, ShapeEnv, VariantDesc};
use crate::types::{Type, TypeId};

verus! {

/// One key, one id: in a well-formed registry, two ids that name entries
/// holding the same key are the same id.
pub proof fn lemma_id_unique(reg: SchemaRegistry, id1: TypeId, id2: TypeId)
    requires
        reg.wf(),
        id1.id < reg.keys@.len(),
        id2.id < reg.keys@.len(),
        reg.keys@[id1.id as int] == reg.keys@[id2.id as int],
    ensures
        id1 == id2,
{
    if id1.id < id2.id {
        assert(reg.keys@[id1.id as int] != reg.keys@[id2.id as int]);
    }
    if id2.id < id1.id {
        assert(reg.keys@[id2.id as int] != reg.keys@[id1.id as int]);
    }
}

/// Determinism and idempotence: registering a key the registry already maps
/// — under `id0`, say — returns that same `id0` and leaves the registry
/// exactly as it was: no second entry is created.
pub proof fn lemma_register_idempotent(
    r0: SchemaRegistry,
    r1: SchemaRegistry,
    env: ShapeEnv,
    key: u64,
    id0: TypeId,
    id: TypeId,
)
    requires
        r0.wf(),
        id0.id < r0.keys@.len(),
        r0.keys@[id0.id as int] == key,
        register_success(r0, r1, env, key, id),
    ensures
        id == id0,
        r1.keys@ == r0.keys@,
        r1.slots@ == r0.slots@,
{
    assert(r0.keys@.contains(key)) by {
        assert(r0.keys@[id0.id as int] == key);
    }
    lemma_id_unique(r1, id0, id);
}

/// Field order preservation: a struct shape declared with fields
/// `[f_0, .., f_{n-1}]` is registered as a `Type::Struct` whose field
/// sequence has exactly those names in that order, each paired with the id
/// the registry maps that field's declared key to.
pub proof fn lemma_field_order_preserved(
    r0: SchemaRegistry,
    r1: SchemaRegistry,
    env: ShapeEnv,
    key: u64,
    id: TypeId,
    dname: String,
    dfields: Vec<FieldDesc>,
)
    requires
        register_success(r0, r1, env, key, id),
        !r0.keys@.contains(key),
        env_shape(env.entries@, key) == (ShapeDesc::Struct { name: dname, fields: dfields }),
    ensures
        r1.slots@[id.id as int] matches Some(ty) && (ty matches Type::Struct {
            name: tname,
            fields: tfields,
        } && tname@ == dname@ && tfields@.len() == dfields@.len() && (forall|i: int|
            0 <= i < tfields@.len() ==> (#[trigger] tfields@[i]).name@ == dfields@[i].name@
                && tfields@[i].id.id < r1.keys@.len() && r1.keys@[tfields@[i].id.id as int]
                == dfields@[i].key)),
{
    assert(id.id >= r0.keys@.len()) by {
        if id.id < r0.keys@.len() {
            assert(r0.keys@[id.id as int] == r1.keys@[id.id as int]);
            assert(r0.keys@.contains(key));
        }
    }
    assert(r1.slots@[id.id as int] is Some);
    assert(type_matches_shape(
        r1.slots@[id.id as int]->0,
        env_shape(env.entries@, key),
        r1.keys@,
    ));
    let ty = r1.slots@[id.id as int]->0;
    match ty {
        Type::Struct { name: tname, fields: tfields } => {
            assert forall|i: int| 0 <= i < tfields@.len() implies (
            #[trigger] tfields@[i]).name@ == dfields@[i].name@ && tfields@[i].id.id
                < r1.keys@.len() && r1.keys@[tfields@[i].id.id as int] == dfields@[i].key by {
                assert(field_matches(tfields@[i], dfields@[i], r1.keys@));
            }
        },
        _ => {
            assert(false);
        },
    }
}

/// Cycle termination, resolution half: when a struct shape's field `j`
/// declares the shape's own key, the registered body's field `j` carries
/// exactly the id the registration itself returned — the reference back to
/// the type resolves to the type's own id. (That such a registration
/// succeeds at all is the success clause of [`crate::driver::register`]:
/// closure and supportedness of the descriptions are enough; no acyclicity
/// is asked for.)
pub proof fn lemma_cycle_resolves_to_self(
    r0: SchemaRegistry,
    r1: SchemaRegistry,
    env: ShapeEnv,
    key: u64,
    id: TypeId,
    dname: String,
    dfields: Vec<FieldDesc>,
    j: int,
)
    requires
        register_success(r0, r1, env, key, id),
        !r0.keys@.contains(key),
        env_shape(env.entries@, key) == (ShapeDesc::Struct { name: dname, fields: dfields }),
        0 <= j < dfields@.len(),
        dfields@[j].key == key,
    ensures
        r1.slots@[id.id as int] matches Some(ty) && (ty matches Type::Struct {
            name: tname,
            fields: tfields,
        } && tfields@.len() == dfields@.len() && tfields@[j].id == id),
{
    lemma_field_order_preserved(r0, r1, env, key, id, dname, dfields);
    let ty = r1.slots@[id.id as int]->0;
    match ty {
        Type::Struct { name: tname, fields: tfields } => {
            assert(r1.keys@[tfields@[j].id.id as int] == key);
            lemma_id_unique(r1, tfields@[j].id, id);
        },
        _ => {
            assert(false);
        },
    }
}

/// Shared-type deduplication: after two struct shapes are registered one
/// after the other, each declaring a field of one common key, the registry
/// holds exactly one entry for that common key, and both registered bodies
/// embed one and the same id for it.
pub proof fn lemma_shared_reference_deduplicated(
    r0: SchemaRegistry,
    r1: SchemaRegistry,
    r2: SchemaRegistry,
    env: ShapeEnv,
    ka: u64,
    kb: u64,
    ida: TypeId,
    idb: TypeId,
    na: String,
    fa: Vec<FieldDesc>,
    nb: String,
    fb: Vec<FieldDesc>,
    ja: int,
    jb: int,
    kc: u64,
)
    requires
        register_success(r0, r1, env, ka, ida),
        register_success(r1, r2, env, kb, idb),
        !r0.keys@.contains(ka),
        !r0.keys@.contains(kb),
        env_shape(env.entries@, ka) == (ShapeDesc::Struct { name: na, fields: fa }),
        env_shape(env.entries@, kb) == (ShapeDesc::Struct { name: nb, fields: fb }),
        0 <= ja < fa@.len(),
        fa@[ja].key == kc,
        0 <= jb < fb@.len(),
        fb@[jb].key == kc,
    ensures
        r2.slots@[ida.id as int] matches Some(ta) && (ta matches Type::Struct {
            name: tna,
            fields: tfa,
        } && r2.slots@[idb.id as int] matches Some(tb) && (tb matches Type::Struct {
            name: tnb,
            fields: tfb,
        } && tfa@[ja].id == tfb@[jb].id && tfa@[ja].id.id < r2.keys@.len()
            && r2.keys@[tfa@[ja].id.id as int] == kc)),
        forall|i1: int, i2: int|
            0 <= i1 < r2.keys@.len() && 0 <= i2 < r2.keys@.len() && r2.keys@[i1] == kc
                && r2.keys@[i2] == kc ==> i1 == i2,
{
    lemma_field_order_preserved(r0, r1, env, ka, ida, na, fa);
    let ta = r1.slots@[ida.id as int]->0;
    assert(ida.id < r1.keys@.len());
    assert(r2.slots@[ida.id as int] == r1.slots@[ida.id as int]);
    match ta {
        Type::Struct { name: tna, fields: tfa } => {
            assert(tfa@[ja].id.id < r1.keys@.len() && r1.keys@[tfa@[ja].id.id as int] == kc);
            assert(r2.keys@[tfa@[ja].id.id as int] == kc);
            if r1.keys@.contains(kb) {
                // The second registration was the dedup fast path: nothing
                // changed, and kb's entry was itself created by the first
                // call, so it renders its declared shape too.
                assert(r2.keys@ == r1.keys@ && r2.slots@ == r1.slots@);
                assert(idb.id >= r0.keys@.len()) by {
                    if idb.id < r0.keys@.len() {
                        assert(r0.keys@[idb.id as int] == r1.keys@[idb.id as int]);
                        assert(r0.keys@.contains(kb));
                    }
                }
                assert(r1.slots@[idb.id as int] is Some && type_matches_shape(
                    r1.slots@[idb.id as int]->0,
                    env_shape(env.entries@, r1.keys@[idb.id as int]),
                    r1.keys@,
                ));
                lemma_second_struct_entry(r1, r2, env, kb, idb, nb, fb);
            } else {
                lemma_field_order_preserved(r1, r2, env, kb, idb, nb, fb);
            }
            let tb = r2.slots@[idb.id as int]->0;
            match tb {
                Type::Struct { name: tnb, fields: tfb } => {
                    assert(tfb@[jb].id.id < r2.keys@.len() && r2.keys@[tfb@[jb].id.id as int]
                        == kc);
                    lemma_id_unique(r2, tfa@[ja].id, tfb@[jb].id);
                },
                _ => {
                    assert(false);
                },
            }
        },
        _ => {
            assert(false);
        },
    }
    assert forall|i1: int, i2: int|
        0 <= i1 < r2.keys@.len() && 0 <= i2 < r2.keys@.len() && r2.keys@[i1] == kc
            && r2.keys@[i2] == kc implies i1 == i2 by {
        lemma_id_unique(r2, TypeId { id: i1 as usize }, TypeId { id: i2 as usize });
    }
}

/// Helper for the dedup law: an entry whose key names a struct shape and
/// that was itself added by a registration out of `r0` renders that shape.
proof fn lemma_second_struct_entry(
    r1: SchemaRegistry,
    r2: SchemaRegistry,
    env: ShapeEnv,
    kb: u64,
    idb: TypeId,
    nb: String,
    fb: Vec<FieldDesc>,
)
    requires
        register_success(r1, r2, env, kb, idb),
        r2.keys@ == r1.keys@,
        r2.slots@ == r1.slots@,
        env_shape(env.entries@, kb) == (ShapeDesc::Struct { name: nb, fields: fb }),
        r2.slots@[idb.id as int] matches Some(t) && type_matches_shape(
            t,
            env_shape(env.entries@, kb),
            r2.keys@,
        ),
    ensures
        r2.slots@[idb.id as int] matches Some(tb) && (tb matches Type::Struct {
            name: tnb,
            fields: tfb,
        } && tfb@.len() == fb@.len() && (forall|i: int|
            0 <= i < tfb@.len() ==> (#[trigger] tfb@[i]).id.id < r2.keys@.len()
                && r2.keys@[tfb@[i].id.id as int] == fb@[i].key)),
{
    let tb = r2.slots@[idb.id as int]->0;
    match tb {
        Type::Struct { name: tnb, fields: tfb } => {
            assert forall|i: int| 0 <= i < tfb@.len() implies (#[trigger] tfb@[i]).id.id
                < r2.keys@.len() && r2.keys@[tfb@[i].id.id as int] == fb@[i].key by {
                assert(field_matches(tfb@[i], fb@[i], r2.keys@));
            }
        },
        _ => {
            assert(false);
        },
    }
}

/// An enum shape with a tuple-style variant is not supported: together with
/// the contract of [`crate::driver::register`], registering a fresh key
/// declared with such a shape fails with the unsupported-shape error and
/// leaves the registry unchanged.
pub proof fn lemma_tuple_variant_unsupported(s: ShapeDesc, j: int)
    requires
        s matches ShapeDesc::Enum { name: _, variants } && 0 <= j < variants@.len()
            && variants@[j] is Tuple,
    ensures
        !crate::shape::shape_supported(s),
{
    match s {
        ShapeDesc::Enum { name: _, variants } => {
            assert(!crate::shape::variant_supported(variants@[j]));
        },
        _ => {
            assert(false);
        },
    }
}

} // verus!
