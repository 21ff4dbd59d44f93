//! The schema registry: an append-only store mapping registration keys to
//! `TypeId`s and finalized `Type` bodies, with the reserve-then-fill
//! discipline that makes cyclic registrations terminate.

use vstd::prelude::*;

use crate::types::{Type, TypeId, type_ids_bounded};

verus! {

/// No key occurs twice: one registration key identifies one entry.
pub open spec fn keys_distinct(keys: Seq<u64>) -> bool {
    forall|i: int, j: int| 0 <= i < j < keys.len() ==> keys[i] != keys[j]
}

/// A reserved-or-filled slot holds no id at or beyond `n`.
pub open spec fn slot_ids_bounded(s: Option<Type>, n: int) -> bool {
    match s {
        Option::Some(ty) => type_ids_bounded(ty, n),
        Option::None => true,
    }
}

/// The central store. Entry `i` holds registration key `keys[i]` and, once
/// phase two of its registration has run, the finalized body `slots[i]`.
/// `TypeId { id: i }` is the handle for entry `i`; entries are never removed
/// or reordered, so ids stay valid for the registry's lifetime.
///
/// Every mutating operation takes `&mut self`, so a registration runs to
/// completion as one exclusive unit of work: two callers can never interleave
/// the reserve and fill phases of one key, and never observe two divergent
/// bodies for it.
pub struct SchemaRegistry {
    pub keys: Vec<u64>,
    pub slots: Vec<Option<Type>>,
}

impl SchemaRegistry {
    /// Structural well-formedness: one slot per key, distinct keys, and no
    /// entry referencing an id outside the registry (no dangling references).
    pub open spec fn wf(self) -> bool {
        &&& self.keys@.len() == self.slots@.len()
        &&& keys_distinct(self.keys@)
        &&& forall|i: int| 0 <= i < self.slots@.len() ==> slot_ids_bounded(
            #[trigger] self.slots@[i],
            self.keys@.len() as int,
        )
    }

    /// Every reservation has been filled: no registration is in flight.
    pub open spec fn complete(self) -> bool {
        forall|i: int| 0 <= i < self.slots@.len() ==> (#[trigger] self.slots@[i]) is Some
    }

    /// An empty registry.
    pub fn new() -> (r: SchemaRegistry)
        ensures
            r.wf(),
            r.complete(),
            r.keys@.len() == 0,
    {
        SchemaRegistry { keys: Vec::new(), slots: Vec::new() }
    }

    /// The number of registered (or reserved) entries.
    pub fn len(&self) -> (n: usize)
        ensures
            n == self.keys@.len(),
    {
        self.keys.len()
    }

    /// The dedup fast path: the id already mapped to `key`, if any.
    pub fn resolve(&self, key: u64) -> (r: Option<TypeId>)
        ensures
            match r {
                Some(id) => id.id < self.keys@.len() && self.keys@[id.id as int] == key,
                None => !self.keys@.contains(key),
            },
    {
        let n = self.keys.len();
        let mut i: usize = 0;
        while i < n
            invariant
                n == self.keys@.len(),
                i <= n,
                forall|j: int| 0 <= j < i ==> self.keys@[j] != key,
            decreases n - i,
        {
            if self.keys[i] == key {
                return Some(TypeId { id: i });
            }
            i += 1;
        }
        None
    }

    /// Phase one of a registration: reserve a fresh id for `key` while its
    /// body is still being assembled. A recursive reference to `key` made
    /// before [`Self::fill`] resolves to this id.
    pub(crate) fn reserve(&mut self, key: u64) -> (id: TypeId)
        requires
            old(self).wf(),
            !old(self).keys@.contains(key),
        ensures
            final(self).wf(),
            final(self).keys@ == old(self).keys@.push(key),
            final(self).slots@ == old(self).slots@.push(None),
            id.id == old(self).keys@.len(),
    {
        let id = TypeId { id: self.keys.len() };
        self.keys.push(key);
        self.slots.push(None);
        proof {
            assert forall|i: int, j: int| 0 <= i < j < self.keys@.len() implies self.keys@[i]
                != self.keys@[j] by {
                if j + 1 == self.keys@.len() {
                    assert(old(self).keys@[i] == self.keys@[i]);
                }
            }
            assert forall|i: int| 0 <= i < self.slots@.len() implies slot_ids_bounded(
                #[trigger] self.slots@[i],
                self.keys@.len() as int,
            ) by {
                if i + 1 < self.slots@.len() {
                    assert(self.slots@[i] == old(self).slots@[i]);
                    match self.slots@[i] {
                        Option::Some(ty) => {
                            assert(type_ids_bounded(ty, old(self).keys@.len() as int));
                            crate::types::lemma_type_ids_bounded_widen(
                                ty,
                                old(self).keys@.len() as int,
                                self.keys@.len() as int,
                            );
                        },
                        Option::None => {},
                    }
                } else if i + 1 == self.slots@.len() {
                    assert(self.slots@[i] is None);
                }
            }
        }
        id
    }

    /// Phase two of a registration: attach the finalized body to a reserved
    /// id. The body may reference any id already in the registry, including
    /// `id` itself (a self-referential type).
    pub(crate) fn fill(&mut self, id: TypeId, ty: Type)
        requires
            old(self).wf(),
            id.id < old(self).slots@.len(),
            old(self).slots@[id.id as int] is None,
            type_ids_bounded(ty, old(self).keys@.len() as int),
        ensures
            final(self).wf(),
            final(self).keys@ == old(self).keys@,
            final(self).slots@ == old(self).slots@.update(id.id as int, Some(ty)),
    {
        self.slots[id.id] = Some(ty);
    }

    /// Registers a fully-formed `Type` under `key` in one step: the id
    /// already mapped to `key` if the key is present (the registry is not
    /// changed and no second entry is created), a fresh id holding `ty`
    /// otherwise. This is the direct path for types whose shape needs no
    /// recursive registration, such as primitives.
    pub fn register_type(&mut self, key: u64, ty: Type) -> (id: TypeId)
        requires
            old(self).wf(),
            old(self).complete(),
            type_ids_bounded(ty, old(self).keys@.len() as int),
        ensures
            final(self).wf(),
            final(self).complete(),
            id.id < final(self).keys@.len(),
            final(self).keys@[id.id as int] == key,
            final(self).slots@[id.id as int] is Some,
            old(self).keys@.contains(key) ==> final(self).keys@ == old(self).keys@
                && final(self).slots@ == old(self).slots@,
            !old(self).keys@.contains(key) ==> final(self).keys@ == old(self).keys@.push(key)
                && final(self).slots@ == old(self).slots@.push(Some(ty)) && id.id == old(
                self,
            ).keys@.len(),
    {
        match self.resolve(key) {
            Some(id) => id,
            None => {
                let id = self.reserve(key);
                self.fill(id, ty);
                proof {
                    assert(final(self).slots@ =~= old(self).slots@.push(Some(ty)));
                }
                id
            },
        }
    }

    /// The finalized body stored under `id`: `Some` exactly when `id` names
    /// an entry whose registration has completed.
    pub fn type_of(&self, id: TypeId) -> (r: Option<&Type>)
        ensures
            match r {
                Some(ty) => id.id < self.slots@.len() && self.slots@[id.id as int] == Some(*ty),
                None => !(id.id < self.slots@.len() && self.slots@[id.id as int] is Some),
            },
    {
        if id.id < self.slots.len() {
            match &self.slots[id.id] {
                Some(ty) => Some(ty),
                None => None,
            }
        } else {
            None
        }
    }

    /// Drops every entry from index `n` up: the rollback a failed
    /// registration uses so that no orphaned reservation survives it.
    pub(crate) fn truncate_to(&mut self, n: usize)
        requires
            n <= old(self).keys@.len(),
            n <= old(self).slots@.len(),
        ensures
            final(self).keys@ == old(self).keys@.subrange(0, n as int),
            final(self).slots@ == old(self).slots@.subrange(0, n as int),
    {
        self.keys.truncate(n);
        self.slots.truncate(n);
    }
}

} // verus!
