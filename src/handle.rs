use std::sync::Arc;
use vstd::prelude::*;
use crate::cache::{AssetCache, AssetError, LoadResult};
use crate::identifier::{Identifier, IdKey};

verus! {

/// What a handle observes when it is polled.
#[derive(Debug)]
pub enum HandleState<T> {
    /// No result has been stored for the identifier yet.
    Pending,
    /// The asset was resolved.
    Ready(Arc<T>),
    /// The asset could not be resolved.
    Failed(Arc<AssetError>),
}

/// What a poll of `key` against a cache whose entries are `entries` observes.
pub open spec fn state_of<T>(entries: Map<IdKey, LoadResult<T>>, key: IdKey) -> HandleState<T> {
    if !entries.contains_key(key) {
        HandleState::Pending
    } else {
        match entries[key] {
            Ok(v) => HandleState::Ready(v),
            Err(e) => HandleState::Failed(e),
        }
    }
}

/// A reference to the cache entry of one identifier. It holds no value:
/// each poll reads the cache afresh.
#[derive(Debug)]
pub struct AssetHandle {
    pub handle_id: Identifier,
}

impl View for AssetHandle {
    type V = IdKey;

    open spec fn view(&self) -> IdKey {
        self.handle_id@
    }
}

impl AssetHandle {
    pub fn new(handle_id: Identifier) -> (r: AssetHandle)
        ensures
            r@ == handle_id@,
    {
        AssetHandle { handle_id }
    }

    /// A second handle on the same entry.
    pub fn share(&self) -> (r: AssetHandle)
        ensures
            r@ == self@,
    {
        AssetHandle { handle_id: self.handle_id.duplicate() }
    }

    /// The state of the entry, read without waiting.
    pub fn poll<T>(&self, cache: &AssetCache<T>) -> (r: HandleState<T>)
        requires
            cache.wf(),
        ensures
            r == state_of(cache@, self@),
    {
        match cache.get(&self.handle_id) {
            None => HandleState::Pending,
            Some(Ok(v)) => HandleState::Ready(v),
            Some(Err(e)) => HandleState::Failed(e),
        }
    }
}

} // verus!
