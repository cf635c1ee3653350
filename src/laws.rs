use vstd::prelude::*;
use crate::cache::{AssetError, LoadResult};
use crate::handle::{HandleState, state_of};
use crate::identifier::IdKey;
use crate::manager::{ManagerModel, after_insert, after_load, committed, fails_with, load_starts, tokens_below};
use crate::material::{NewMaterialData, NewMaterialHandle};
use crate::texture::{ResolverModel, after_request, upload_starts};
use std::sync::Arc;

verus! {

/// A load of an identifier made right after another load of it never starts
/// a second resolution task, whether the first one started a task or
/// joined a stored result.
pub proof fn lemma_load_joins<X, G>(m: ManagerModel<X, G>, k: IdKey)
    ensures
        !load_starts(after_load(m, k), k),
{
}

/// A request for a texture made right after another request for the same
/// path never starts a second upload.
pub proof fn lemma_texture_request_joins<X>(m: ResolverModel<X>, k: IdKey)
    ensures
        !upload_starts(after_request(m, k), k),
{
}

/// A handle returned by a load that started a task observes `Pending` until
/// a result is committed.
pub proof fn lemma_fresh_load_pending<X, G>(m: ManagerModel<X, G>, k: IdKey)
    requires
        load_starts(m, k),
    ensures
        state_of(after_load(m, k).materials, k) == HandleState::<NewMaterialData<X, G>>::Pending,
{
}

/// The handle of a value accepted in memory observes `Pending` until its
/// result is committed: its token was never used before.
pub proof fn lemma_fresh_insert_pending<X, G>(m: ManagerModel<X, G>, d: Arc<NewMaterialHandle>)
    requires
        tokens_below(m),
    ensures
        state_of(after_insert(m, d).materials, IdKey::Token(m.next_token))
            == HandleState::<NewMaterialData<X, G>>::Pending,
{
    assert(!m.materials.contains_key(IdKey::Token(m.next_token)));
}

/// Once a resolution commits a value, every handle on that identifier
/// observes that same value, and a later load of it joins the stored result
/// instead of starting a task.
pub proof fn lemma_committed_value_observed<X, G>(m: ManagerModel<X, G>, n: ManagerModel<X, G>, k: IdKey)
    requires
        committed(m, n, k),
        n.materials[k] is Ok,
    ensures
        state_of(n.materials, k) == HandleState::<NewMaterialData<X, G>>::Ready(n.materials[k]->Ok_0),
        !load_starts(n, k),
{
}

/// A stored failure is what every handle on its identifier observes, and
/// it is never `Pending`.
pub proof fn lemma_failure_observed<T>(entries: Map<IdKey, LoadResult<T>>, k: IdKey, e: AssetError)
    requires
        fails_with(entries, k, e),
    ensures
        state_of(entries, k) is Failed,
        state_of(entries, k)->Failed_0 == e,
{
}

} // verus!
