use std::sync::Arc;
use vstd::prelude::*;
use crate::cache::{AssetCache, AssetError, LoadResult};
use crate::handle::{AssetHandle, HandleState, state_of};
use crate::identifier::{Identifier, IdKey};
use crate::inflight::InFlight;
use crate::material::{NewMaterialData, NewMaterialHandle, all_ready, resolved_from, texture_paths_of};
use crate::texture::{ResolverModel, TextureManager, after_request, after_upload, upload_starts};

verus! {

/// What became of the read and parse of a material description.
pub enum FileOutcome {
    /// The file was read and its bytes parsed into a description.
    Parsed(NewMaterialHandle),
    /// Storage has no file at the path.
    NotFound,
    /// Storage failed for another reason, described by the text.
    Unreadable(String),
    /// The file was read but its bytes are not a valid description.
    Malformed,
}

/// The state of a material manager: what the material cache and the
/// description cache hold, the identifiers whose resolution is under way,
/// the texture resolver, the next token for values supplied in memory, and
/// whether a bind-group layout was supplied.
pub ghost struct ManagerModel<X, G> {
    pub materials: Map<IdKey, LoadResult<NewMaterialData<X, G>>>,
    pub descriptions: Map<IdKey, LoadResult<NewMaterialHandle>>,
    pub loading: Set<IdKey>,
    pub textures: ResolverModel<X>,
    pub next_token: u64,
    pub has_layout: bool,
}

/// `entries` holds a failure with error `e` for `k`.
pub open spec fn fails_with<T>(entries: Map<IdKey, LoadResult<T>>, k: IdKey, e: AssetError) -> bool {
    entries.contains_key(k) && entries[k] is Err && entries[k]->Err_0 == e
}

/// A load of `k` starts a resolution task: no result is stored for it and
/// none is under way.
pub open spec fn load_starts<X, G>(m: ManagerModel<X, G>, k: IdKey) -> bool {
    !m.materials.contains_key(k) && !m.loading.contains(k)
}

/// The manager `m` after a load of `k`.
pub open spec fn after_load<X, G>(m: ManagerModel<X, G>, k: IdKey) -> ManagerModel<X, G> {
    if load_starts(m, k) {
        ManagerModel { loading: m.loading.insert(k), ..m }
    } else {
        m
    }
}

/// The manager `m` after a value `d` supplied in memory was accepted under
/// the next token: its description is stored and its resolution is under
/// way.
pub open spec fn after_insert<X, G>(m: ManagerModel<X, G>, d: Arc<NewMaterialHandle>) -> ManagerModel<X, G> {
    ManagerModel {
        descriptions: m.descriptions.insert(IdKey::Token(m.next_token), Ok(d)),
        loading: m.loading.insert(IdKey::Token(m.next_token)),
        next_token: (m.next_token + 1) as u64,
        ..m
    }
}

/// A resolved material of description `h` can get a bind group: the three
/// textures that it samples are declared.
pub open spec fn can_bind(h: NewMaterialHandle) -> bool {
    h.main_texture is Some && h.normal_texture is Some && h.roughness_texture is Some
}

/// `n` is `m` with the result of `k` committed to the material cache: the
/// entry is written and the task is no longer under way. The description
/// cache is not spoken of.
pub open spec fn committed<X, G>(m: ManagerModel<X, G>, n: ManagerModel<X, G>, k: IdKey) -> bool {
    &&& n.materials.contains_key(k)
    &&& n.materials == m.materials.insert(k, n.materials[k])
    &&& n.loading == m.loading.remove(k)
    &&& n.textures == m.textures
    &&& n.next_token == m.next_token
    &&& n.has_layout == m.has_layout
}

/// Resolves materials by path or from values supplied in memory. Each
/// request yields a handle at once; the work of a resolution is performed
/// by the caller, step by step, and its result is published in one write.
pub struct MaterialManager<X, G> {
    ron_cache: AssetCache<NewMaterialHandle>,
    material_cache: AssetCache<NewMaterialData<X, G>>,
    loading: InFlight,
    texture_manager: TextureManager<X>,
    next_token: u64,
    has_layout: bool,
}

impl<X, G> View for MaterialManager<X, G> {
    type V = ManagerModel<X, G>;

    closed spec fn view(&self) -> ManagerModel<X, G> {
        ManagerModel {
            materials: self.material_cache@,
            descriptions: self.ron_cache@,
            loading: self.loading@,
            textures: self.texture_manager@,
            next_token: self.next_token,
            has_layout: self.has_layout,
        }
    }
}

/// No token at or above `m.next_token` is in use.
pub open spec fn tokens_below<X, G>(m: ManagerModel<X, G>) -> bool {
    &&& forall|t: u64| t >= m.next_token ==> !#[trigger] m.materials.contains_key(IdKey::Token(t))
    &&& forall|t: u64| t >= m.next_token ==> !#[trigger] m.descriptions.contains_key(IdKey::Token(t))
    &&& forall|t: u64| t >= m.next_token ==> !#[trigger] m.loading.contains(IdKey::Token(t))
}

impl<X, G> MaterialManager<X, G> {
    pub closed spec fn wf(&self) -> bool {
        &&& self.ron_cache.wf()
        &&& self.material_cache.wf()
        &&& self.texture_manager.wf()
        &&& tokens_below(self@)
    }

    /// A manager with empty caches. `has_layout` tells whether resolved
    /// materials get a bind group.
    pub fn new(has_layout: bool) -> (r: Self)
        ensures
            r.wf(),
            r@.materials == Map::<IdKey, LoadResult<NewMaterialData<X, G>>>::empty(),
            r@.descriptions == Map::<IdKey, LoadResult<NewMaterialHandle>>::empty(),
            r@.loading == Set::<IdKey>::empty(),
            r@.textures.textures == Map::<IdKey, LoadResult<X>>::empty(),
            r@.textures.loading == Set::<IdKey>::empty(),
            r@.next_token == 0,
            r@.has_layout == has_layout,
    {
        MaterialManager {
            ron_cache: AssetCache::new(),
            material_cache: AssetCache::new(),
            loading: InFlight::new(),
            texture_manager: TextureManager::new(),
            next_token: 0,
            has_layout,
        }
    }

    /// Whether another value can be accepted in memory: tokens remain.
    pub fn can_insert(&self) -> (r: bool)
        ensures
            r == (self@.next_token < u64::MAX),
    {
        self.next_token < u64::MAX
    }

    /// Whether resolved materials get a bind group.
    pub fn has_layout(&self) -> (r: bool)
        ensures
            r == self@.has_layout,
    {
        self.has_layout
    }

    /// A handle on the material at `path`, and whether the caller must now
    /// run its resolution, starting with a read of the file. A path whose
    /// result is stored, or whose resolution is under way, is joined.
    pub fn get(&mut self, path: String) -> (r: (AssetHandle, bool))
        requires
            old(self).wf(),
        ensures
            final(self).wf(),
            r.0@ == IdKey::Path(path@),
            r.1 == load_starts(old(self)@, IdKey::Path(path@)),
            final(self)@ == after_load(old(self)@, IdKey::Path(path@)),
    {
        let id = Identifier::Path(path);
        let start = !self.material_cache.contains(&id) && !self.loading.contains(&id);
        if start {
            self.loading.add(id.duplicate());
        }
        proof {
            assert(self@.materials == old(self)@.materials);
            assert(self@.descriptions == old(self)@.descriptions);
            assert forall|t: u64| t >= self@.next_token implies !#[trigger] self@.loading.contains(
                IdKey::Token(t),
            ) by {
                assert(!old(self)@.loading.contains(IdKey::Token(t)));
            }
        }
        (AssetHandle::new(id), start)
    }

    /// Accepts a description supplied in memory under a fresh token. Its
    /// description is stored at once; the caller then resolves its
    /// textures. No file is read.
    pub fn insert(&mut self, material: NewMaterialHandle) -> (r: (AssetHandle, Arc<NewMaterialHandle>))
        requires
            old(self).wf(),
            old(self)@.next_token < u64::MAX,
        ensures
            final(self).wf(),
            r.0@ == IdKey::Token(old(self)@.next_token),
            r.1 == material,
            load_starts(old(self)@, r.0@),
            !old(self)@.descriptions.contains_key(r.0@),
            final(self)@ == after_insert(old(self)@, r.1),
    {
        let token = self.next_token;
        let id = Identifier::Token(token);
        let material = Arc::new(material);
        self.ron_cache.insert(id.duplicate(), Ok(Arc::clone(&material)));
        self.loading.add(id.duplicate());
        self.next_token = token + 1;
        proof {
            let k = IdKey::Token(token);
            assert(!old(self)@.materials.contains_key(k));
            assert(!old(self)@.descriptions.contains_key(k));
            assert(!old(self)@.loading.contains(k));
            assert(self@.materials == old(self)@.materials);
            assert(self@.textures == old(self)@.textures);
            assert forall|t: u64| t >= self@.next_token implies !#[trigger] self@.materials.contains_key(
                IdKey::Token(t),
            ) by {
                assert(!old(self)@.materials.contains_key(IdKey::Token(t)));
            }
            assert forall|t: u64| t >= self@.next_token implies !#[trigger] self@.descriptions.contains_key(
                IdKey::Token(t),
            ) by {
                assert(!old(self)@.descriptions.contains_key(IdKey::Token(t)));
            }
            assert forall|t: u64| t >= self@.next_token implies !#[trigger] self@.loading.contains(
                IdKey::Token(t),
            ) by {
                assert(!old(self)@.loading.contains(IdKey::Token(t)));
            }
            assert(self@ == after_insert(old(self)@, material));
        }
        (AssetHandle::new(id), material)
    }

    /// Stores the outcome of `handle`'s read and parse. A missing file, a
    /// failed read or bytes that do not parse end the resolution with
    /// `FileNotFound`, `OtherError` or `InvalidData` (the latter stored for
    /// the description too). A parsed description is stored and returned
    /// for the caller to resolve its textures.
    pub fn finish_read(&mut self, handle: &AssetHandle, outcome: FileOutcome) -> (r: Option<Arc<NewMaterialHandle>>)
        requires
            old(self).wf(),
            old(self)@.loading.contains(handle@),
        ensures
            final(self).wf(),
            outcome is NotFound ==> {
                &&& r is None
                &&& committed(old(self)@, final(self)@, handle@)
                &&& fails_with(final(self)@.materials, handle@, AssetError::FileNotFound)
                &&& final(self)@.descriptions == old(self)@.descriptions
            },
            outcome is Unreadable ==> {
                &&& r is None
                &&& committed(old(self)@, final(self)@, handle@)
                &&& fails_with(final(self)@.materials, handle@, AssetError::OtherError(outcome->Unreadable_0))
                &&& final(self)@.descriptions == old(self)@.descriptions
            },
            outcome is Malformed ==> {
                &&& r is None
                &&& committed(old(self)@, final(self)@, handle@)
                &&& fails_with(final(self)@.materials, handle@, AssetError::InvalidData)
                &&& final(self)@.descriptions == old(self)@.descriptions.insert(handle@, final(self)@.descriptions[handle@])
                &&& fails_with(final(self)@.descriptions, handle@, AssetError::InvalidData)
            },
            outcome is Parsed ==> {
                &&& r is Some
                &&& r->Some_0 == outcome->Parsed_0
                &&& final(self)@ == (ManagerModel {
                    descriptions: old(self)@.descriptions.insert(handle@, Ok(r->Some_0)),
                    ..old(self)@
                })
            },
    {
        let ghost k = handle@;
        proof {
            if k is Token {
                assert(old(self)@.loading.contains(IdKey::Token(k->Token_0)));
            }
        }
        match outcome {
            FileOutcome::Parsed(d) => {
                let d = Arc::new(d);
                self.ron_cache.insert(handle.handle_id.duplicate(), Ok(Arc::clone(&d)));
                proof {
                    assert(self@.materials == old(self)@.materials);
                    assert(self@.loading == old(self)@.loading);
                    assert forall|t: u64| t >= self@.next_token implies !#[trigger] self@.descriptions.contains_key(
                        IdKey::Token(t),
                    ) by {
                        assert(!old(self)@.descriptions.contains_key(IdKey::Token(t)));
                    }
                }
                Some(d)
            },
            FileOutcome::NotFound => {
                self.commit(handle, Err(Arc::new(AssetError::FileNotFound)));
                None
            },
            FileOutcome::Unreadable(detail) => {
                self.commit(handle, Err(Arc::new(AssetError::OtherError(detail))));
                None
            },
            FileOutcome::Malformed => {
                let e = Arc::new(AssetError::InvalidData);
                self.ron_cache.insert(handle.handle_id.duplicate(), Err(Arc::clone(&e)));
                proof {
                    assert(self@.materials == old(self)@.materials);
                    assert(self@.loading == old(self)@.loading);
                    assert forall|t: u64| t >= self@.next_token implies !#[trigger] self@.descriptions.contains_key(
                        IdKey::Token(t),
                    ) by {
                        assert(!old(self)@.descriptions.contains_key(IdKey::Token(t)));
                    }
                }
                self.commit(handle, Err(e));
                None
            },
        }
    }

    /// Writes the result of `handle`'s resolution to the material cache and
    /// ends the task: the one write that publishes it.
    fn commit(&mut self, handle: &AssetHandle, result: LoadResult<NewMaterialData<X, G>>)
        requires
            old(self).wf(),
            old(self)@.loading.contains(handle@),
        ensures
            final(self).wf(),
            final(self)@ == (ManagerModel {
                materials: old(self)@.materials.insert(handle@, result),
                loading: old(self)@.loading.remove(handle@),
                ..old(self)@
            }),
    {
        let ghost k = handle@;
        proof {
            if k is Token {
                assert(old(self)@.loading.contains(IdKey::Token(k->Token_0)));
            }
        }
        self.material_cache.insert(handle.handle_id.duplicate(), result);
        self.loading.remove(&handle.handle_id);
        proof {
            assert(self@.descriptions == old(self)@.descriptions);
            assert(self@.textures == old(self)@.textures);
            assert forall|t: u64| t >= self@.next_token implies !#[trigger] self@.materials.contains_key(
                IdKey::Token(t),
            ) by {
                assert(!old(self)@.materials.contains_key(IdKey::Token(t)));
            }
            assert forall|t: u64| t >= self@.next_token implies !#[trigger] self@.loading.contains(
                IdKey::Token(t),
            ) by {
                assert(!old(self)@.loading.contains(IdKey::Token(t)));
            }
        }
    }

    /// Ends `handle`'s resolution with `result`: a built material, or the
    /// error that stopped it.
    pub fn complete(&mut self, handle: &AssetHandle, result: Result<NewMaterialData<X, G>, AssetError>)
        requires
            old(self).wf(),
            old(self)@.loading.contains(handle@),
        ensures
            final(self).wf(),
            committed(old(self)@, final(self)@, handle@),
            final(self)@.descriptions == old(self)@.descriptions,
            result is Ok ==> final(self)@.materials[handle@] is Ok
                && final(self)@.materials[handle@]->Ok_0 == result->Ok_0,
            result is Err ==> fails_with(final(self)@.materials, handle@, result->Err_0),
    {
        match result {
            Ok(d) => self.commit(handle, Ok(Arc::new(d))),
            Err(e) => self.commit(handle, Err(Arc::new(e))),
        }
    }

    /// The material that `desc` resolves to, given the outcome of each of
    /// its declared textures in declaration order. Fails with
    /// `MissingDependency` when a texture was not resolved, or when a
    /// bind group is to be built and one of the textures it samples is not
    /// declared.
    pub fn build(&self, desc: &NewMaterialHandle, states: &Vec<HandleState<X>>) -> (r: Result<
        NewMaterialData<X, G>,
        AssetError,
    >)
        requires
            states.len() == texture_paths_of(*desc).len(),
        ensures
            r is Ok <==> (all_ready(states@) && (self@.has_layout ==> can_bind(*desc))),
            r is Ok ==> resolved_from(*desc, states@, r->Ok_0),
            r is Err ==> r->Err_0 == AssetError::MissingDependency,
    {
        let d: NewMaterialData<X, G> = match desc.load_data(states) {
            Ok(d) => d,
            Err(e) => {
                return Err(e);
            },
        };
        if self.has_layout {
            match d.bind_group_textures() {
                Ok(_) => Ok(d),
                Err(e) => Err(e),
            }
        } else {
            Ok(d)
        }
    }

    /// A handle on the texture at `path`, and whether the caller must now
    /// perform its upload.
    pub fn get_texture(&mut self, path: &String) -> (r: (AssetHandle, bool))
        requires
            old(self).wf(),
        ensures
            final(self).wf(),
            r.0@ == IdKey::Path(path@),
            r.1 == upload_starts(old(self)@.textures, IdKey::Path(path@)),
            final(self)@ == (ManagerModel {
                textures: after_request(old(self)@.textures, IdKey::Path(path@)),
                ..old(self)@
            }),
    {
        let r = self.texture_manager.get_async(path);
        proof {
            assert(self@.materials == old(self)@.materials);
            assert(self@.descriptions == old(self)@.descriptions);
            assert(self@.loading == old(self)@.loading);
        }
        r
    }

    /// Stores the outcome of the upload of the texture at `path`.
    pub fn texture_loaded(&mut self, path: &String, result: LoadResult<X>)
        requires
            old(self).wf(),
        ensures
            final(self).wf(),
            final(self)@ == (ManagerModel {
                textures: after_upload(old(self)@.textures, IdKey::Path(path@), result),
                ..old(self)@
            }),
    {
        self.texture_manager.complete(path, result);
        proof {
            assert(self@.materials == old(self)@.materials);
            assert(self@.descriptions == old(self)@.descriptions);
            assert(self@.loading == old(self)@.loading);
        }
    }

    /// The state of the texture that `handle` refers to.
    pub fn poll_texture(&self, handle: &AssetHandle) -> (r: HandleState<X>)
        requires
            self.wf(),
        ensures
            r == state_of(self@.textures.textures, handle@),
    {
        self.texture_manager.poll(handle)
    }

    /// The state of the material that `handle` refers to.
    pub fn poll(&self, handle: &AssetHandle) -> (r: HandleState<NewMaterialData<X, G>>)
        requires
            self.wf(),
        ensures
            r == state_of(self@.materials, handle@),
    {
        handle.poll(&self.material_cache)
    }

    /// The state of the description of the material that `handle` refers to.
    pub fn poll_description(&self, handle: &AssetHandle) -> (r: HandleState<NewMaterialHandle>)
        requires
            self.wf(),
        ensures
            r == state_of(self@.descriptions, handle@),
    {
        handle.poll(&self.ron_cache)
    }
}

} // verus!
