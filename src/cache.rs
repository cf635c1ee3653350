use std::sync::Arc;
use std::collections::hash_map::RandomState;
use dashmap::DashMap;
use vstd::prelude::*;
use crate::identifier::{Identifier, IdKey};

verus! {

#[verifier::external_type_specification]
#[verifier::external_body]
#[verifier::reject_recursive_types(K)]
#[verifier::reject_recursive_types(V)]
#[verifier::reject_recursive_types(S)]
pub struct ExDashMap<K, V, S>(DashMap<K, V, S>);

/// What a slot index holds: for each key, the slot of its result.
pub uninterp spec fn slot_index(m: DashMap<Identifier, usize, RandomState>) -> Map<IdKey, usize>;

/// Relies on `dashmap::DashMap::with_hasher`: a new map holds no entry.
#[verifier::external_body]
fn index_new() -> (r: DashMap<Identifier, usize, RandomState>)
    ensures
        slot_index(r) =~= Map::empty(),
{
    DashMap::with_hasher(RandomState::new())
}

/// Relies on `dashmap::DashMap::get`: the value stored under the key, if any
/// (keys are compared with `Identifier`'s `Eq`, which is equality of views).
#[verifier::external_body]
fn index_get(m: &DashMap<Identifier, usize, RandomState>, k: &Identifier) -> (r: Option<usize>)
    ensures
        r == (if slot_index(*m).contains_key(k@) {
            Some(slot_index(*m)[k@])
        } else {
            None::<usize>
        }),
{
    m.get(k).map(|v| *v)
}

/// Relies on `dashmap::DashMap::insert`: afterwards the key maps to the value
/// and every other key keeps its value.
#[verifier::external_body]
fn index_insert(m: &mut DashMap<Identifier, usize, RandomState>, k: Identifier, v: usize)
    ensures
        slot_index(*final(m)) == slot_index(*old(m)).insert(k@, v),
{
    m.insert(k, v);
}

/// Why an asset could not be resolved.
#[derive(Debug)]
pub enum AssetError {
    /// Storage has no file at the requested path.
    FileNotFound,
    /// The bytes were read but do not describe a valid asset.
    InvalidData,
    /// Storage failed for another reason, described by the text.
    OtherError(String),
    /// A dependency (a texture) could not be resolved.
    MissingDependency,
}

/// The terminal value of a cache entry: a shared value or a shared error.
pub type LoadResult<T> = Result<Arc<T>, Arc<AssetError>>;

/// A second reference to the same result.
fn share_result<T>(r: &LoadResult<T>) -> (o: LoadResult<T>)
    ensures
        o == *r,
{
    match r {
        Ok(v) => Ok(Arc::clone(v)),
        Err(e) => Err(Arc::clone(e)),
    }
}

/// A map from identifier to load result. Entries are written whole and
/// replaced whole; none is ever removed.
pub struct AssetCache<T> {
    slots: DashMap<Identifier, usize, RandomState>,
    results: Vec<LoadResult<T>>,
}

impl<T> View for AssetCache<T> {
    type V = Map<IdKey, LoadResult<T>>;

    closed spec fn view(&self) -> Map<IdKey, LoadResult<T>> {
        slot_index(self.slots).map_values(|i: usize| self.results@[i as int])
    }
}

impl<T> AssetCache<T> {
    /// Every slot that the index names exists, and no two keys share one.
    pub closed spec fn wf(&self) -> bool {
        &&& forall|k: IdKey| #[trigger]
            slot_index(self.slots).contains_key(k) ==> slot_index(self.slots)[k]
                < self.results.len()
        &&& forall|k1: IdKey, k2: IdKey|
            #![trigger slot_index(self.slots)[k1], slot_index(self.slots)[k2]]
            slot_index(self.slots).contains_key(k1) && slot_index(self.slots).contains_key(k2)
                && slot_index(self.slots)[k1] == slot_index(self.slots)[k2] ==> k1 == k2
    }

    /// An empty cache.
    pub fn new() -> (r: Self)
        ensures
            r.wf(),
            r@ == Map::<IdKey, LoadResult<T>>::empty(),
    {
        let r = AssetCache { slots: index_new(), results: Vec::new() };
        assert(r@ =~= Map::<IdKey, LoadResult<T>>::empty());
        r
    }

    /// Whether a result is stored for `id`.
    pub fn contains(&self, id: &Identifier) -> (r: bool)
        requires
            self.wf(),
        ensures
            r == self@.contains_key(id@),
    {
        index_get(&self.slots, id).is_some()
    }

    /// The result stored for `id`, if any.
    pub fn get(&self, id: &Identifier) -> (r: Option<LoadResult<T>>)
        requires
            self.wf(),
        ensures
            r == (if self@.contains_key(id@) {
                Some(self@[id@])
            } else {
                None::<LoadResult<T>>
            }),
    {
        match index_get(&self.slots, id) {
            Some(i) => Some(share_result(&self.results[i])),
            None => None,
        }
    }

    /// Stores `result` for `id`, replacing what was there.
    pub fn insert(&mut self, id: Identifier, result: LoadResult<T>)
        requires
            old(self).wf(),
        ensures
            final(self).wf(),
            final(self)@ == old(self)@.insert(id@, result),
    {
        let ghost k = id@;
        match index_get(&self.slots, &id) {
            Some(i) => {
                self.results.set(i, result);
            },
            None => {
                let i = self.results.len();
                self.results.push(result);
                index_insert(&mut self.slots, id, i);
            },
        }
        assert(self@ =~= old(self)@.insert(k, result));
    }
}

} // verus!
