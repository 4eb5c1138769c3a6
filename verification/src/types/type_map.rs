//! A map from type keys to entries: a hash index over a vector of entries.

use super::type_info::TypeInfo;
use ahash::AHashMap;
use core::any::TypeId;
use vstd::prelude::*;

verus! {

/// `ahash::AHashMap`, the hash map that files slot numbers under type keys.
#[verifier::external_type_specification]
#[verifier::external_body]
#[verifier::reject_recursive_types(K)]
#[verifier::reject_recursive_types(V)]
#[verifier::reject_recursive_types(S)]
pub struct ExAHashMap<K, V, S>(AHashMap<K, V, S>);

/// `ahash::RandomState`, the hasher state of the maps of this crate.
#[verifier::external_type_specification]
#[verifier::external_body]
pub struct ExRandomState(ahash::RandomState);

/// What an index holds: the slot number filed under each identifier.
pub uninterp spec fn slots(index: AHashMap<TypeInfo, usize>) -> Map<TypeId, usize>;

/// `AHashMap::new`: a map that holds nothing.
#[verifier::external_body]
fn index_new() -> (r: AHashMap<TypeInfo, usize>)
    ensures
        slots(r) == (Map::<TypeId, usize>::empty()),
{
    AHashMap::new()
}

/// `AHashMap::get`, copied out: the slot filed under the key, if there is
/// one. Keys are found by their identifier, which is all that their `==` and
/// their hash look at.
#[verifier::external_body]
fn index_get(index: &AHashMap<TypeInfo, usize>, ty: &TypeInfo) -> (r: Option<usize>)
    ensures
        r == (if slots(*index).contains_key(ty.id) {
            Some(slots(*index)[ty.id])
        } else {
            None
        }),
{
    index.get(ty).copied()
}

/// `AHashMap::insert`: files `slot` under the key, in place of what was
/// filed there; every other key keeps its slot.
#[verifier::external_body]
fn index_insert(index: &mut AHashMap<TypeInfo, usize>, ty: TypeInfo, slot: usize)
    ensures
        slots(*final(index)) == slots(*old(index)).insert(ty.id, slot),
{
    index.insert(ty, slot);
}

/// A map from type keys to entries of type `E`.
pub struct TypeMap<E> {
    index: AHashMap<TypeInfo, usize>,
    entries: Vec<E>,
}

impl<E> View for TypeMap<E> {
    type V = Map<TypeId, E>;

    closed spec fn view(&self) -> Map<TypeId, E> {
        Map::new(
            |id: TypeId| slots(self.index).contains_key(id),
            |id: TypeId| self.entries@[slots(self.index)[id] as int],
        )
    }
}

impl<E> TypeMap<E> {
    /// Every key has a slot of its own among the entries.
    pub closed spec fn wf(&self) -> bool {
        &&& forall|id: TypeId| #[trigger]
            slots(self.index).contains_key(id) ==> slots(self.index)[id] < self.entries.len()
        &&& forall|a: TypeId, b: TypeId|
            #![trigger slots(self.index)[a], slots(self.index)[b]]
            slots(self.index).contains_key(a) && slots(self.index).contains_key(b) && slots(
                self.index,
            )[a] == slots(self.index)[b] ==> a == b
    }

    /// A map without entries.
    pub fn new() -> (r: Self)
        ensures
            r.wf(),
            r@ == Map::<TypeId, E>::empty(),
    {
        let r = Self { index: index_new(), entries: Vec::new() };
        assert(r@ =~= Map::<TypeId, E>::empty());
        r
    }

    /// The entry filed under `ty`.
    pub fn get(&self, ty: &TypeInfo) -> (r: Option<&E>)
        requires
            self.wf(),
        ensures
            r == (if self@.contains_key(ty.id) {
                Some(&self@[ty.id])
            } else {
                None
            }),
    {
        match index_get(&self.index, ty) {
            Some(slot) => Some(&self.entries[slot]),
            None => None,
        }
    }

    /// Whether an entry is filed under `ty`.
    pub fn contains(&self, ty: &TypeInfo) -> (r: bool)
        requires
            self.wf(),
        ensures
            r == self@.contains_key(ty.id),
    {
        index_get(&self.index, ty).is_some()
    }

    /// Files `entry` under `ty` and hands back what was filed there before.
    pub fn insert(&mut self, ty: TypeInfo, entry: E) -> (r: Option<E>)
        requires
            old(self).wf(),
        ensures
            final(self).wf(),
            final(self)@ == old(self)@.insert(ty.id, entry),
            r == (if old(self)@.contains_key(ty.id) {
                Some(old(self)@[ty.id])
            } else {
                None
            }),
    {
        match index_get(&self.index, &ty) {
            Some(slot) => {
                self.entries.push(entry);
                let before = self.entries.swap_remove(slot);
                assert(self@ =~= old(self)@.insert(ty.id, entry));
                Some(before)
            },
            None => {
                let slot = self.entries.len();
                self.entries.push(entry);
                index_insert(&mut self.index, ty, slot);
                assert(self@ =~= old(self)@.insert(ty.id, entry));
                None
            },
        }
    }
}

} // verus!
