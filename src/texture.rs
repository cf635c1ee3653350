use vstd::prelude::*;
use crate::cache::{AssetCache, LoadResult};
use crate::handle::{AssetHandle, HandleState, state_of};
use crate::identifier::{Identifier, IdKey};
use crate::inflight::InFlight;

verus! {

/// The state of a texture resolver: the results stored per path, and the
/// paths whose upload is under way.
pub ghost struct ResolverModel<X> {
    pub textures: Map<IdKey, LoadResult<X>>,
    pub loading: Set<IdKey>,
}

/// A request for `k` starts an upload: nothing is stored for it and no
/// upload of it is under way.
pub open spec fn upload_starts<X>(m: ResolverModel<X>, k: IdKey) -> bool {
    !m.textures.contains_key(k) && !m.loading.contains(k)
}

/// The resolver `m` after a request for `k`.
pub open spec fn after_request<X>(m: ResolverModel<X>, k: IdKey) -> ResolverModel<X> {
    if upload_starts(m, k) {
        ResolverModel { textures: m.textures, loading: m.loading.insert(k) }
    } else {
        m
    }
}

/// The resolver `m` after the upload of `k` ended with `r`.
pub open spec fn after_upload<X>(m: ResolverModel<X>, k: IdKey, r: LoadResult<X>) -> ResolverModel<X> {
    ResolverModel { textures: m.textures.insert(k, r), loading: m.loading.remove(k) }
}

/// Hands out texture handles by path, so that all requests for one path
/// share one upload.
pub struct TextureManager<X> {
    cache: AssetCache<X>,
    loading: InFlight,
}

impl<X> View for TextureManager<X> {
    type V = ResolverModel<X>;

    closed spec fn view(&self) -> ResolverModel<X> {
        ResolverModel { textures: self.cache@, loading: self.loading@ }
    }
}

impl<X> TextureManager<X> {
    pub closed spec fn wf(&self) -> bool {
        self.cache.wf()
    }

    pub fn new() -> (r: Self)
        ensures
            r.wf(),
            r@.textures == Map::<IdKey, LoadResult<X>>::empty(),
            r@.loading == Set::<IdKey>::empty(),
    {
        TextureManager { cache: AssetCache::new(), loading: InFlight::new() }
    }

    /// A handle on the texture at `path`, and whether the caller must now
    /// perform its upload. A path that is stored or under way is joined.
    pub fn get_async(&mut self, path: &String) -> (r: (AssetHandle, bool))
        requires
            old(self).wf(),
        ensures
            final(self).wf(),
            r.0@ == IdKey::Path(path@),
            r.1 == upload_starts(old(self)@, IdKey::Path(path@)),
            final(self)@ == after_request(old(self)@, IdKey::Path(path@)),
    {
        let id = Identifier::Path(path.clone());
        let start = !self.cache.contains(&id) && !self.loading.contains(&id);
        if start {
            self.loading.add(id.duplicate());
        }
        (AssetHandle::new(id), start)
    }

    /// Stores the outcome of the upload of `path`.
    pub fn complete(&mut self, path: &String, result: LoadResult<X>)
        requires
            old(self).wf(),
        ensures
            final(self).wf(),
            final(self)@ == after_upload(old(self)@, IdKey::Path(path@), result),
    {
        let id = Identifier::Path(path.clone());
        self.loading.remove(&id);
        self.cache.insert(id, result);
    }

    /// The state of the texture that `handle` refers to.
    pub fn poll(&self, handle: &AssetHandle) -> (r: HandleState<X>)
        requires
            self.wf(),
        ensures
            r == state_of(self@.textures, handle@),
    {
        handle.poll(&self.cache)
    }
}

} // verus!
