//! The registration driver: for one registration key, registers the type it
//! describes together with everything reachable from it, deduplicating shared
//! types and terminating on cycles.
//!
//! The algorithm per key: first the dedup fast path (an id already mapped to
//! the key is returned at once — also the cycle-termination path); otherwise
//! the key's id is reserved before any recursion, every nested key is
//! registered recursively in declaration order, the collected ids are fed
//! through a [`TypeBuilder`], and the finished body fills the reserved slot.
//! Termination rests on the reservation: every level of recursion moves one
//! more described key into the registry, so the number of described keys still
//! absent bounds the recursion depth.

use vstd::pervasive::unreached;
use vstd::prelude::*;

use crate::builder::{BuilderState, TypeBuilder};
use crate::registry::SchemaRegistry;
use crate::shape::{
    env_closed, env_has, env_index, env_shape, env_supported, env_wf, field_matches,
    lemma_type_matches_extend, lemma_variant_matches_extend, shape_closed, shape_supported,
    type_matches_shape, variant_closed, variant_matches, variant_supported, ShapeDesc, ShapeEntry,
    ShapeEnv, VariantDesc,
};
use crate::types::{Field, Type, TypeId, Variant};

verus! {

/// Why a registration failed. Failures are defects in the supplied shape
/// descriptions, not recoverable data errors; a failed registration leaves
/// the registry exactly as it was.
#[derive(Clone, Copy, PartialEq, Eq, Structural, Debug)]
pub enum RegisterError {
    /// A shape references `key`, but no entry describes it and the registry
    /// does not hold it.
    UnknownKey { key: u64 },
    /// The shape described under `key` uses a construct the protocol does
    /// not model (a tuple-style enum variant).
    UnsupportedShape { key: u64 },
}

/// How many described keys the registry does not hold yet. Each recursion
/// step of the driver reserves one described key before descending, so this
/// count strictly shrinks along every recursive call: the termination
/// measure.
pub open spec fn absent_count(entries: Seq<ShapeEntry>, have: Seq<u64>) -> nat
    decreases entries.len(),
{
    if entries.len() == 0 {
        0
    } else {
        absent_count(entries.drop_last(), have) + if have.contains(entries.last().key) {
            0nat
        } else {
            1nat
        }
    }
}

proof fn lemma_contains_push(s: Seq<u64>, k: u64, x: u64)
    ensures
        s.push(k).contains(x) <==> (x == k || s.contains(x)),
{
    if s.contains(x) {
        let i = choose|i: int| 0 <= i < s.len() && s[i] == x;
        assert(s.push(k)[i] == x);
    }
    assert(s.push(k)[s.len() as int] == k);
    if s.push(k).contains(x) && x != k {
        let i = choose|i: int| 0 <= i < s.push(k).len() && s.push(k)[i] == x;
        assert(0 <= i < s.len() && s[i] == x);
    }
}

proof fn lemma_prefix_contains(s1: Seq<u64>, s2: Seq<u64>)
    requires
        s1.len() <= s2.len(),
        forall|i: int| 0 <= i < s1.len() ==> s2[i] == s1[i],
    ensures
        forall|x: u64| #[trigger] s1.contains(x) ==> s2.contains(x),
{
    assert forall|x: u64| #[trigger] s1.contains(x) implies s2.contains(x) by {
        let i = choose|i: int| 0 <= i < s1.len() && s1[i] == x;
        assert(s2[i] == x);
    }
}

proof fn lemma_absent_monotone(entries: Seq<ShapeEntry>, have1: Seq<u64>, have2: Seq<u64>)
    requires
        forall|x: u64| #[trigger] have1.contains(x) ==> have2.contains(x),
    ensures
        absent_count(entries, have2) <= absent_count(entries, have1),
    decreases entries.len(),
{
    if entries.len() > 0 {
        lemma_absent_monotone(entries.drop_last(), have1, have2);
    }
}

proof fn lemma_absent_push_lt(entries: Seq<ShapeEntry>, have: Seq<u64>, k: u64)
    requires
        exists|i: int| 0 <= i < entries.len() && (#[trigger] entries[i]).key == k,
        !have.contains(k),
    ensures
        absent_count(entries, have.push(k)) < absent_count(entries, have),
    decreases entries.len(),
{
    let i = choose|i: int| 0 <= i < entries.len() && (#[trigger] entries[i]).key == k;
    lemma_contains_push(have, k, entries.last().key);
    if entries.last().key == k {
        assert forall|x: u64| #[trigger] have.contains(x) implies have.push(k).contains(x) by {
            lemma_contains_push(have, k, x);
        }
        lemma_absent_monotone(entries.drop_last(), have, have.push(k));
    } else {
        assert(i < entries.len() - 1);
        assert(entries.drop_last()[i] == entries[i]);
        lemma_absent_push_lt(entries.drop_last(), have, k);
    }
}

/// The entries a registration started from are still there, unchanged and
/// under the same ids, when it ends: the registry is append-only.
pub open spec fn preserves_entries(r0: SchemaRegistry, r1: SchemaRegistry) -> bool {
    &&& r0.keys@.len() <= r1.keys@.len()
    &&& r0.slots@.len() <= r1.slots@.len()
    &&& forall|i: int| 0 <= i < r0.keys@.len() ==> #[trigger] r1.keys@[i] == r0.keys@[i]
    &&& forall|i: int| 0 <= i < r0.slots@.len() ==> #[trigger] r1.slots@[i] == r0.slots@[i]
}

/// Every entry a registration added is keyed by a described key, is filled,
/// and its body renders the shape described under that key, with every
/// nested reference resolved to the id the registry maps that key to.
pub open spec fn new_entries_match(r0: SchemaRegistry, r1: SchemaRegistry, env: ShapeEnv) -> bool {
    forall|i: int| r0.keys@.len() <= i < r1.keys@.len() ==> {
        &&& env_has(env.entries@, #[trigger] r1.keys@[i])
        &&& r1.slots@[i] is Some
        &&& type_matches_shape(
            r1.slots@[i]->0,
            env_shape(env.entries@, r1.keys@[i]),
            r1.keys@,
        )
    }
}

/// Everything a successful [`register`] call promises, from registry state
/// `r0` to state `r1`, for key `key`, returning `id`.
pub open spec fn register_success(
    r0: SchemaRegistry,
    r1: SchemaRegistry,
    env: ShapeEnv,
    key: u64,
    id: TypeId,
) -> bool {
    &&& r1.wf()
    &&& r1.complete()
    &&& preserves_entries(r0, r1)
    &&& new_entries_match(r0, r1, env)
    &&& id.id < r1.keys@.len()
    &&& r1.keys@[id.id as int] == key
    &&& r1.slots@[id.id as int] is Some
    &&& (r0.keys@.contains(key) ==> r1.keys@ == r0.keys@ && r1.slots@ == r0.slots@)
}

proof fn lemma_preserves_trans(a: SchemaRegistry, b: SchemaRegistry, c: SchemaRegistry)
    requires
        preserves_entries(a, b),
        preserves_entries(b, c),
    ensures
        preserves_entries(a, c),
{
}

proof fn lemma_new_entries_merge(
    a: SchemaRegistry,
    b: SchemaRegistry,
    c: SchemaRegistry,
    env: ShapeEnv,
)
    requires
        b.keys@.len() == b.slots@.len(),
        preserves_entries(a, b),
        preserves_entries(b, c),
        new_entries_match(a, b, env),
        new_entries_match(b, c, env),
    ensures
        new_entries_match(a, c, env),
{
    assert forall|i: int| a.keys@.len() <= i < c.keys@.len() implies {
        &&& env_has(env.entries@, #[trigger] c.keys@[i])
        &&& c.slots@[i] is Some
        &&& type_matches_shape(c.slots@[i]->0, env_shape(env.entries@, c.keys@[i]), c.keys@)
    } by {
        if i < b.keys@.len() {
            assert(c.keys@[i] == b.keys@[i]);
            assert(c.slots@[i] == b.slots@[i]);
            assert(env_has(env.entries@, b.keys@[i]));
            assert(b.slots@[i] is Some);
            lemma_type_matches_extend(
                b.slots@[i]->0,
                env_shape(env.entries@, b.keys@[i]),
                b.keys@,
                c.keys@,
            );
        }
    }
}

/// Assembles the driver's postcondition once the reserved slot is filled:
/// `reg0` is the state at entry, `reg1` the state right after the key was
/// reserved, `regb` the state after all nested registrations, and `regf` the
/// state after the finished body `ty` filled the reserved slot `my_id`.
proof fn lemma_finish_registration(
    reg0: SchemaRegistry,
    reg1: SchemaRegistry,
    regb: SchemaRegistry,
    regf: SchemaRegistry,
    env: ShapeEnv,
    key: u64,
    my_id: TypeId,
    ty: Type,
)
    requires
        reg0.keys@.len() == reg0.slots@.len(),
        regb.keys@.len() == regb.slots@.len(),
        reg1.keys@ == reg0.keys@.push(key),
        reg1.slots@ == reg0.slots@.push(None),
        my_id.id == reg0.keys@.len(),
        preserves_entries(reg1, regb),
        new_entries_match(reg1, regb, env),
        env_has(env.entries@, key),
        type_matches_shape(ty, env_shape(env.entries@, key), regb.keys@),
        regf.keys@ == regb.keys@,
        regf.slots@ == regb.slots@.update(my_id.id as int, Some(ty)),
    ensures
        preserves_entries(reg0, regf),
        new_entries_match(reg0, regf, env),
        regf.keys@[my_id.id as int] == key,
        my_id.id < regf.keys@.len(),
{
    assert(regb.keys@[my_id.id as int] == reg1.keys@[my_id.id as int]);
    assert(reg1.keys@[my_id.id as int] == key);
    assert forall|i: int| reg0.keys@.len() <= i < regf.keys@.len() implies {
        &&& env_has(env.entries@, #[trigger] regf.keys@[i])
        &&& regf.slots@[i] is Some
        &&& type_matches_shape(regf.slots@[i]->0, env_shape(env.entries@, regf.keys@[i]), regf.keys@)
    } by {
        if i == my_id.id {
            assert(regf.slots@[i] == Some(ty));
        } else {
            assert(reg1.keys@.len() <= i < regb.keys@.len());
            assert(env_has(env.entries@, regb.keys@[i]));
            assert(regb.slots@[i] is Some);
            assert(regf.slots@[i] == regb.slots@[i]);
        }
    }
    assert forall|i: int| 0 <= i < reg0.keys@.len() implies #[trigger] regf.keys@[i]
        == reg0.keys@[i] by {
        assert(reg1.keys@[i] == reg0.keys@[i]);
        assert(regb.keys@[i] == reg1.keys@[i]);
    }
    assert forall|i: int| 0 <= i < reg0.slots@.len() implies #[trigger] regf.slots@[i]
        == reg0.slots@[i] by {
        assert(reg1.slots@[i] == reg0.slots@[i]);
        assert(regb.slots@[i] == reg1.slots@[i]);
    }
}

/// Whether the declared shape uses only constructs the protocol models.
#[verifier::loop_isolation(false)]
fn shape_supported_exec(s: &ShapeDesc) -> (b: bool)
    ensures
        b == shape_supported(*s),
{
    match s {
        ShapeDesc::Enum { name: _, variants } => {
            let n = variants.len();
            let mut i: usize = 0;
            while i < n
                invariant
                    n == variants@.len(),
                    i <= n,
                    forall|j: int| 0 <= j < i ==> variant_supported(#[trigger] variants@[j]),
                decreases n - i,
            {
                match &variants[i] {
                    VariantDesc::Tuple { name: _, element_keys: _ } => {
                        proof {
                            assert(!variant_supported(variants@[i as int]));
                            assert(!shape_supported(*s));
                        }
                        return false;
                    },
                    _ => {},
                }
                i += 1;
            }
            true
        },
        _ => true,
    }
}

/// One level of the registration algorithm. May leave reservations and
/// partially registered descendants behind on failure; [`register`] rolls
/// those back.
#[verifier::loop_isolation(false)]
#[verifier::rlimit(100)]
fn register_inner(reg: &mut SchemaRegistry, env: &ShapeEnv, key: u64) -> (r: Result<
    TypeId,
    RegisterError,
>)
    requires
        old(reg).wf(),
        env_wf(env.entries@),
    ensures
        final(reg).wf(),
        preserves_entries(*old(reg), *final(reg)),
        r is Ok ==> new_entries_match(*old(reg), *final(reg), *env),
        r matches Ok(id) ==> id.id < final(reg).keys@.len() && final(reg).keys@[id.id as int]
            == key,
        old(reg).keys@.contains(key) ==> r is Ok && final(reg).keys@ == old(reg).keys@ && final(reg).slots@ == old(reg).slots@,
        env_closed(env.entries@) && env_supported(env.entries@) && (env_has(env.entries@, key)
            || old(reg).keys@.contains(key)) ==> r is Ok,
        r matches Err(e) ==> (match e {
            RegisterError::UnknownKey { key: k } => !env_has(env.entries@, k) && !final(reg).keys@.contains(k),
            RegisterError::UnsupportedShape { key: k } => env_has(env.entries@, k)
                && !shape_supported(env_shape(env.entries@, k)),
        }),
        !old(reg).keys@.contains(key) && !env_has(env.entries@, key) ==> r == Err::<
            TypeId,
            RegisterError,
        >(RegisterError::UnknownKey { key }),
        !old(reg).keys@.contains(key) && env_has(env.entries@, key) && !shape_supported(
            env_shape(env.entries@, key),
        ) ==> r == Err::<TypeId, RegisterError>(RegisterError::UnsupportedShape { key }),
    decreases absent_count(env.entries@, old(reg).keys@),
{
    let ghost reg0 = *old(reg);

    // Step 1: the dedup fast path, which is also what terminates a cycle —
    // a key reserved further up the call stack resolves here.
    match reg.resolve(key) {
        Some(id) => {
            return Ok(id);
        },
        None => {},
    }
    let shape = match env.find(key) {
        Some(s) => s,
        None => {
            return Err(RegisterError::UnknownKey { key });
        },
    };
    if !shape_supported_exec(shape) {
        proof {
            if env_supported(env.entries@) {
                let ei = env_index(env.entries@, key);
                assert(0 <= ei < env.entries@.len() && env.entries@[ei].key == key);
                assert(shape_supported(env.entries@[ei].shape));
            }
        }
        return Err(RegisterError::UnsupportedShape { key });
    }

    // Phase one of registration: reserve this key's id before recursing, so
    // a recursive reference back to it resolves instead of descending again.
    proof {
        lemma_absent_push_lt(env.entries@, reg0.keys@, key);
    }
    let my_id = reg.reserve(key);
    let ghost reg1 = *reg;
    let ghost ei = env_index(env.entries@, key);
    proof {
        assert(0 <= ei < env.entries@.len() && env.entries@[ei].key == key);
        assert(env.entries@[ei].shape == env_shape(env.entries@, key));
    }

    // Step 2 and 3: register every nested type in declaration order, then
    // feed the collected ids through a builder; step 4: fill the reservation.
    match shape {
        ShapeDesc::UnitStruct { name } => {
            let b = TypeBuilder::new();
            let b = match b.unit_struct_type(name.clone()) {
                Ok(b) => b,
                Err(_) => unreached(),
            };
            let ty = match b.finish() {
                Ok(t) => t,
                Err(_) => unreached(),
            };
            let ghost regb = *reg;
            reg.fill(my_id, ty);
            proof {
                lemma_finish_registration(reg0, reg1, regb, *reg, *env, key, my_id, ty);
            }
            Ok(my_id)
        },
        ShapeDesc::NewtypeStruct { name, key: ikey } => {
            let cid = match register_inner(reg, env, *ikey) {
                Ok(id) => id,
                Err(e) => {
                    proof {
                        lemma_preserves_trans(reg0, reg1, *reg);
                        if env_closed(env.entries@) && env_supported(env.entries@) {
                            assert(shape_closed(env.entries@[ei].shape, env.entries@));
                            assert(env_has(env.entries@, *ikey));
                            assert(false);
                        }
                    }
                    return Err(e);
                },
            };
            let b = TypeBuilder::new();
            let b = match b.newtype_struct_type(name.clone(), cid) {
                Ok(b) => b,
                Err(_) => unreached(),
            };
            let ty = match b.finish() {
                Ok(t) => t,
                Err(_) => unreached(),
            };
            let ghost regb = *reg;
            reg.fill(my_id, ty);
            proof {
                assert(type_matches_shape(ty, env_shape(env.entries@, key), regb.keys@));
                lemma_finish_registration(reg0, reg1, regb, *reg, *env, key, my_id, ty);
            }
            Ok(my_id)
        },
        ShapeDesc::TupleStruct { name, element_keys } => {
            let n = element_keys.len();
            let mut ids: Vec<TypeId> = Vec::new();
            let mut i: usize = 0;
            while i < n
                invariant
                    i <= n,
                    ids@.len() == i,
                    reg.wf(),
                    preserves_entries(reg1, *reg),
                    new_entries_match(reg1, *reg, *env),
                    absent_count(env.entries@, reg.keys@) < absent_count(
                        env.entries@,
                        reg0.keys@,
                    ),
                    forall|j: int| 0 <= j < i ==> (#[trigger] ids@[j]).id < reg.keys@.len()
                        && reg.keys@[ids@[j].id as int] == element_keys@[j],
                decreases n - i,
            {
                let ghost pre = *reg;
                let cid = match register_inner(reg, env, element_keys[i]) {
                    Ok(id) => id,
                    Err(e) => {
                        proof {
                            lemma_preserves_trans(reg1, pre, *reg);
                            lemma_preserves_trans(reg0, reg1, *reg);
                            if env_closed(env.entries@) && env_supported(env.entries@) {
                                assert(shape_closed(env.entries@[ei].shape, env.entries@));
                                assert(env_has(env.entries@, element_keys@[i as int]));
                                assert(false);
                            }
                        }
                        return Err(e);
                    },
                };
                ids.push(cid);
                i += 1;
                proof {
                    lemma_new_entries_merge(reg1, pre, *reg, *env);
                    lemma_preserves_trans(reg1, pre, *reg);
                    lemma_prefix_contains(pre.keys@, reg.keys@);
                    lemma_absent_monotone(env.entries@, pre.keys@, reg.keys@);
                }
            }
            let b = TypeBuilder::new();
            let mut b = match b.tuple_struct_type(name.clone(), n) {
                Ok(b) => b,
                Err(_) => unreached(),
            };
            let mut bi: usize = 0;
            while bi < n
                invariant
                    bi <= n,
                    b.state matches BuilderState::Tuple { name: bn, expected: be, elements: bel }
                        && bn@ == name@ && be == n && bel@ == ids@.subrange(0, bi as int),
                decreases n - bi,
            {
                b = match b.element(ids[bi]) {
                    Ok(b2) => b2,
                    Err(_) => unreached(),
                };
                bi += 1;
                proof {
                    let ghost bel = match &b.state {
                        BuilderState::Tuple { name: _, expected: _, elements: e } => e@,
                        _ => Seq::<TypeId>::empty(),
                    };
                    assert(bel =~= ids@.subrange(0, bi as int));
                }
            }
            let b = match b.end() {
                Ok(b2) => b2,
                Err(_) => unreached(),
            };
            let ty = match b.finish() {
                Ok(t) => t,
                Err(_) => unreached(),
            };
            let ghost regb = *reg;
            proof {
                assert(type_matches_shape(ty, env_shape(env.entries@, key), regb.keys@)) by {
                    match ty {
                        Type::TupleStruct { name: tn, elements: tel } => {
                            assert(tel@ =~= ids@);
                            assert forall|j: int| 0 <= j < tel@.len() implies (
                            #[trigger] tel@[j]).id < regb.keys@.len() && regb.keys@[tel@[j].id as int]
                                == element_keys@[j] by {
                                assert(ids@[j].id < regb.keys@.len());
                            }
                        },
                        _ => {
                            assert(false);
                        },
                    }
                }
                assert(crate::types::type_ids_bounded(ty, regb.keys@.len() as int));
            }
            reg.fill(my_id, ty);
            proof {
                lemma_finish_registration(reg0, reg1, regb, *reg, *env, key, my_id, ty);
            }
            Ok(my_id)
        },
        ShapeDesc::Struct { name, fields } => {
            let n = fields.len();
            let mut ids: Vec<TypeId> = Vec::new();
            let mut i: usize = 0;
            while i < n
                invariant
                    i <= n,
                    ids@.len() == i,
                    reg.wf(),
                    preserves_entries(reg1, *reg),
                    new_entries_match(reg1, *reg, *env),
                    absent_count(env.entries@, reg.keys@) < absent_count(
                        env.entries@,
                        reg0.keys@,
                    ),
                    forall|j: int| 0 <= j < i ==> (#[trigger] ids@[j]).id < reg.keys@.len()
                        && reg.keys@[ids@[j].id as int] == fields@[j].key,
                decreases n - i,
            {
                let ghost pre = *reg;
                let cid = match register_inner(reg, env, fields[i].key) {
                    Ok(id) => id,
                    Err(e) => {
                        proof {
                            lemma_preserves_trans(reg1, pre, *reg);
                            lemma_preserves_trans(reg0, reg1, *reg);
                            if env_closed(env.entries@) && env_supported(env.entries@) {
                                assert(shape_closed(env.entries@[ei].shape, env.entries@));
                                assert(env_has(env.entries@, fields@[i as int].key));
                                assert(false);
                            }
                        }
                        return Err(e);
                    },
                };
                ids.push(cid);
                i += 1;
                proof {
                    lemma_new_entries_merge(reg1, pre, *reg, *env);
                    lemma_preserves_trans(reg1, pre, *reg);
                    lemma_prefix_contains(pre.keys@, reg.keys@);
                    lemma_absent_monotone(env.entries@, pre.keys@, reg.keys@);
                }
            }
            let b = TypeBuilder::new();
            let mut b = match b.struct_type(name.clone(), n) {
                Ok(b) => b,
                Err(_) => unreached(),
            };
            let mut bi: usize = 0;
            while bi < n
                invariant
                    bi <= n,
                    b.state matches BuilderState::Struct { name: bn, expected: be, fields: bf }
                        && bn@ == name@ && be == n && bf@.len() == bi && (forall|j: int|
                        0 <= j < bi ==> field_matches(#[trigger] bf@[j], fields@[j], reg.keys@)),
                decreases n - bi,
            {
                let f = &fields[bi];
                b = match b.field(f.name.clone(), ids[bi]) {
                    Ok(b2) => b2,
                    Err(_) => unreached(),
                };
                bi += 1;
            }
            let b = match b.end() {
                Ok(b2) => b2,
                Err(_) => unreached(),
            };
            let ty = match b.finish() {
                Ok(t) => t,
                Err(_) => unreached(),
            };
            let ghost regb = *reg;
            proof {
                assert(type_matches_shape(ty, env_shape(env.entries@, key), regb.keys@));
                assert(crate::types::type_ids_bounded(ty, regb.keys@.len() as int)) by {
                    match ty {
                        Type::Struct { name: tn, fields: tf } => {
                            assert forall|j: int| 0 <= j < tf@.len() implies (
                            #[trigger] tf@[j]).id.id < regb.keys@.len() by {
                                assert(field_matches(tf@[j], fields@[j], regb.keys@));
                            }
                        },
                        _ => {
                            assert(false);
                        },
                    }
                }
            }
            reg.fill(my_id, ty);
            proof {
                lemma_finish_registration(reg0, reg1, regb, *reg, *env, key, my_id, ty);
            }
            Ok(my_id)
        },
        ShapeDesc::Enum { name, variants } => {
            let nv = variants.len();
            let b = TypeBuilder::new();
            let mut b = match b.enum_type(name.clone(), nv) {
                Ok(b) => b,
                Err(_) => unreached(),
            };
            let mut vi: usize = 0;
            while vi < nv
                invariant
                    vi <= nv,
                    reg.wf(),
                    preserves_entries(reg1, *reg),
                    new_entries_match(reg1, *reg, *env),
                    absent_count(env.entries@, reg.keys@) < absent_count(
                        env.entries@,
                        reg0.keys@,
                    ),
                    b.state matches BuilderState::Enum { name: bn, expected: be, variants: bv }
                        && bn@ == name@ && be == nv && bv@.len() == vi && (forall|j: int|
                        0 <= j < vi ==> variant_matches(
                            #[trigger] bv@[j],
                            variants@[j],
                            reg.keys@,
                        )),
                decreases nv - vi,
            {
                match &variants[vi] {
                    VariantDesc::Unit { name: vn } => {
                        b = match b.unit_variant(vn.clone()) {
                            Ok(b2) => b2,
                            Err(_) => unreached(),
                        };
                    },
                    VariantDesc::Newtype { name: vn, key: vkey } => {
                        let ghost pre = *reg;
                        let cid = match register_inner(reg, env, *vkey) {
                            Ok(id) => id,
                            Err(e) => {
                                proof {
                                    lemma_preserves_trans(reg1, pre, *reg);
                                    lemma_preserves_trans(reg0, reg1, *reg);
                                    if env_closed(env.entries@) && env_supported(env.entries@) {
                                        assert(shape_closed(env.entries@[ei].shape, env.entries@));
                                        assert(variant_closed(variants@[vi as int], env.entries@));
                                        assert(env_has(env.entries@, *vkey));
                                        assert(false);
                                    }
                                }
                                return Err(e);
                            },
                        };
                        proof {
                            lemma_new_entries_merge(reg1, pre, *reg, *env);
                            lemma_preserves_trans(reg1, pre, *reg);
                            lemma_prefix_contains(pre.keys@, reg.keys@);
                            lemma_absent_monotone(env.entries@, pre.keys@, reg.keys@);
                            let ghost bv = match &b.state {
                                BuilderState::Enum { name: _, expected: _, variants: v } => v@,
                                _ => Seq::<Variant>::empty(),
                            };
                            assert forall|j: int| 0 <= j < vi implies variant_matches(
                                #[trigger] bv[j],
                                variants@[j],
                                reg.keys@,
                            ) by {
                                lemma_variant_matches_extend(
                                    bv[j],
                                    variants@[j],
                                    pre.keys@,
                                    reg.keys@,
                                );
                            }
                        }
                        b = match b.newtype_variant(vn.clone(), cid) {
                            Ok(b2) => b2,
                            Err(_) => unreached(),
                        };
                    },
                    VariantDesc::Struct { name: vn, fields: vfields } => {
                        let nf = vfields.len();
                        b = match b.struct_variant(vn.clone(), nf) {
                            Ok(b2) => b2,
                            Err(_) => unreached(),
                        };
                        let mut fi: usize = 0;
                        while fi < nf
                            invariant
                                fi <= nf,
                                reg.wf(),
                                preserves_entries(reg1, *reg),
                                new_entries_match(reg1, *reg, *env),
                                absent_count(env.entries@, reg.keys@) < absent_count(
                                    env.entries@,
                                    reg0.keys@,
                                ),
                                b.state matches BuilderState::EnumVariant {
                                    name: bn,
                                    expected: be,
                                    variants: bv,
                                    vname: bvn,
                                    vexpected: bve,
                                    vfields: bvf,
                                } && bn@ == name@ && be == nv && bv@.len() == vi && (forall|j: int|
                                    0 <= j < vi ==> variant_matches(
                                        #[trigger] bv@[j],
                                        variants@[j],
                                        reg.keys@,
                                    )) && bvn@ == vn@ && bve == nf && bvf@.len() == fi && (forall|
                                    j: int,
                                |
                                    0 <= j < fi ==> field_matches(
                                        #[trigger] bvf@[j],
                                        vfields@[j],
                                        reg.keys@,
                                    )),
                            decreases nf - fi,
                        {
                            let ghost pre = *reg;
                            let cid = match register_inner(reg, env, vfields[fi].key) {
                                Ok(id) => id,
                                Err(e) => {
                                    proof {
                                        lemma_preserves_trans(reg1, pre, *reg);
                                        lemma_preserves_trans(reg0, reg1, *reg);
                                        if env_closed(env.entries@) && env_supported(
                                            env.entries@,
                                        ) {
                                            assert(shape_closed(
                                                env.entries@[ei].shape,
                                                env.entries@,
                                            ));
                                            assert(variant_closed(
                                                variants@[vi as int],
                                                env.entries@,
                                            ));
                                            assert(env_has(
                                                env.entries@,
                                                vfields@[fi as int].key,
                                            ));
                                            assert(false);
                                        }
                                    }
                                    return Err(e);
                                },
                            };
                            proof {
                                lemma_new_entries_merge(reg1, pre, *reg, *env);
                                lemma_preserves_trans(reg1, pre, *reg);
                                lemma_prefix_contains(pre.keys@, reg.keys@);
                                lemma_absent_monotone(env.entries@, pre.keys@, reg.keys@);
                                match &b.state {
                                    BuilderState::EnumVariant {
                                        name: _,
                                        expected: _,
                                        variants: bv,
                                        vname: _,
                                        vexpected: _,
                                        vfields: bvf,
                                    } => {
                                        assert forall|j: int| 0 <= j < vi implies variant_matches(
                                            #[trigger] bv@[j],
                                            variants@[j],
                                            reg.keys@,
                                        ) by {
                                            lemma_variant_matches_extend(
                                                bv@[j],
                                                variants@[j],
                                                pre.keys@,
                                                reg.keys@,
                                            );
                                        }
                                        assert forall|j: int| 0 <= j < fi implies field_matches(
                                            #[trigger] bvf@[j],
                                            vfields@[j],
                                            reg.keys@,
                                        ) by {
                                            assert(field_matches(bvf@[j], vfields@[j], pre.keys@));
                                        }
                                    },
                                    _ => {},
                                }
                            }
                            b = match b.field(vfields[fi].name.clone(), cid) {
                                Ok(b2) => b2,
                                Err(_) => unreached(),
                            };
                            fi += 1;
                        }
                        b = match b.end() {
                            Ok(b2) => b2,
                            Err(_) => unreached(),
                        };
                    },
                    VariantDesc::Tuple { name: _, element_keys: _ } => {
                        proof {
                            assert(shape_supported(env_shape(env.entries@, key)));
                            assert(variant_supported(variants@[vi as int]));
                        }
                        return unreached();
                    },
                }
                vi += 1;
            }
            let b = match b.end() {
                Ok(b2) => b2,
                Err(_) => unreached(),
            };
            let ty = match b.finish() {
                Ok(t) => t,
                Err(_) => unreached(),
            };
            let ghost regb = *reg;
            proof {
                assert(type_matches_shape(ty, env_shape(env.entries@, key), regb.keys@));
                assert(crate::types::type_ids_bounded(ty, regb.keys@.len() as int)) by {
                    match ty {
                        Type::Enum { name: tn, variants: tv } => {
                            assert forall|j: int| 0 <= j < tv@.len() implies
                                crate::types::variant_ids_bounded(
                                #[trigger] tv@[j],
                                regb.keys@.len() as int,
                            ) by {
                                assert(variant_matches(tv@[j], variants@[j], regb.keys@));
                                match tv@[j] {
                                    Variant::Struct { name: _, fields: vf } => {
                                        match variants@[j] {
                                            VariantDesc::Struct { name: _, fields: df } => {
                                                assert forall|q: int|
                                                    0 <= q < vf@.len() implies (
                                                #[trigger] vf@[q]).id.id < regb.keys@.len() by {
                                                    assert(field_matches(
                                                        vf@[q],
                                                        df@[q],
                                                        regb.keys@,
                                                    ));
                                                }
                                            },
                                            _ => {
                                                assert(false);
                                            },
                                        }
                                    },
                                    _ => {},
                                }
                            }
                        },
                        _ => {
                            assert(false);
                        },
                    }
                }
            }
            reg.fill(my_id, ty);
            proof {
                lemma_finish_registration(reg0, reg1, regb, *reg, *env, key, my_id, ty);
            }
            Ok(my_id)
        },
    }
}

/// Registers the type described under `key`, together with every type
/// reachable from it that the registry does not hold yet, and returns its id.
///
/// On success every added entry renders its declared shape exactly — same
/// kind, same name, fields and variants in declaration order, each nested
/// reference resolved to the id its key maps to — and a key the registry
/// already held is returned unchanged (no second entry). On failure the
/// registry is left exactly as it was: no orphaned reservation, no partial
/// entry. Success is owed whenever the description set is closed (every
/// mentioned key is described), every described shape is supported, and
/// `key` is described or already registered.
pub fn register(reg: &mut SchemaRegistry, env: &ShapeEnv, key: u64) -> (r: Result<
    TypeId,
    RegisterError,
>)
    requires
        old(reg).wf(),
        old(reg).complete(),
        env_wf(env.entries@),
    ensures
        final(reg).wf(),
        final(reg).complete(),
        r matches Ok(id) ==> register_success(*old(reg), *final(reg), *env, key, id),
        old(reg).keys@.contains(key) ==> r is Ok,
        r is Err ==> final(reg).keys@ == old(reg).keys@ && final(reg).slots@ == old(reg).slots@,
        env_closed(env.entries@) && env_supported(env.entries@) && (env_has(env.entries@, key)
            || old(reg).keys@.contains(key)) ==> r is Ok,
        !old(reg).keys@.contains(key) && !env_has(env.entries@, key) ==> r == Err::<
            TypeId,
            RegisterError,
        >(RegisterError::UnknownKey { key }),
        !old(reg).keys@.contains(key) && env_has(env.entries@, key) && !shape_supported(
            env_shape(env.entries@, key),
        ) ==> r == Err::<TypeId, RegisterError>(RegisterError::UnsupportedShape { key }),
        r matches Err(e) ==> (match e {
            RegisterError::UnknownKey { key: k } => !env_has(env.entries@, k) && !final(reg).keys@.contains(k),
            RegisterError::UnsupportedShape { key: k } => env_has(env.entries@, k)
                && !shape_supported(env_shape(env.entries@, k)),
        }),
{
    let n = reg.len();
    let ghost reg0 = *old(reg);
    match register_inner(reg, env, key) {
        Ok(id) => {
            proof {
                assert forall|i: int| 0 <= i < reg.slots@.len() implies (
                #[trigger] reg.slots@[i]) is Some by {
                    if i < reg0.slots@.len() {
                        assert(reg.slots@[i] == reg0.slots@[i]);
                    } else {
                        assert(reg0.keys@.len() <= i < reg.keys@.len());
                        assert(new_entries_match(reg0, *reg, *env));
                        assert(env_has(env.entries@, reg.keys@[i]));
                        assert(reg.slots@[i] is Some);
                    }
                }
                if reg0.keys@.contains(key) {
                    assert(reg.keys@ == reg0.keys@ && reg.slots@ == reg0.slots@);
                }
            }
            Ok(id)
        },
        Err(e) => {
            let ghost regi = *reg;
            reg.truncate_to(n);
            proof {
                assert(reg.keys@ =~= reg0.keys@);
                assert(reg.slots@ =~= reg0.slots@);
                lemma_prefix_contains(reg0.keys@, regi.keys@);
                match e {
                    RegisterError::UnknownKey { key: k } => {
                        assert(!regi.keys@.contains(k));
                        assert(!reg0.keys@.contains(k));
                    },
                    RegisterError::UnsupportedShape { key: k } => {},
                }
            }
            Err(e)
        },
    }
}

} // verus!
