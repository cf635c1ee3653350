use std::sync::Arc;
use vstd::prelude::*;
use crate::cache::AssetError;
use crate::handle::HandleState;

verus! {

/// The shading model that a description calls for.
#[derive(Debug, Clone, Copy, PartialEq, Eq, Structural)]
pub enum MaterialKind {
    Unlit,
    PBR,
    /// The description fits neither model.
    Unknown,
}

/// A material description as stored on disk: the paths of its textures and
/// its scalar and colour parameters. Scalars are IEEE-754 single-precision
/// values held as their bit patterns.
#[derive(Debug, Hash)]
pub struct NewMaterialHandle {
    pub main_texture: Option<String>,
    pub roughness_texture: Option<String>,
    pub normal_texture: Option<String>,
    pub roughness: Option<u32>,
    pub metallic: Option<u32>,
    pub color: Option<[u32; 4]>,
}

/// The kind of material that `h` describes.
pub open spec fn kind_of(h: NewMaterialHandle) -> MaterialKind {
    if h.main_texture is Some && h.roughness_texture is Some && h.normal_texture is Some
        && h.roughness is Some && h.metallic is Some {
        MaterialKind::PBR
    } else if h.main_texture is Some && h.color is Some {
        MaterialKind::Unlit
    } else {
        MaterialKind::Unknown
    }
}

impl<'a> From<&'a NewMaterialHandle> for MaterialKind {
    fn from(h: &'a NewMaterialHandle) -> (r: MaterialKind) {
        if h.main_texture.is_some() && h.roughness_texture.is_some()
            && h.normal_texture.is_some() && h.roughness.is_some() && h.metallic.is_some() {
            MaterialKind::PBR
        } else if h.main_texture.is_some() && h.color.is_some() {
            MaterialKind::Unlit
        } else {
            MaterialKind::Unknown
        }
    }
}

impl<'a> vstd::std_specs::convert::FromSpecImpl<&'a NewMaterialHandle> for MaterialKind {
    open spec fn obeys_from_spec() -> bool {
        true
    }

    open spec fn from_spec(h: &'a NewMaterialHandle) -> MaterialKind {
        kind_of(*h)
    }
}

/// The paths of the textures that `h` declares, in declaration order:
/// main, roughness, normal.
pub open spec fn texture_paths_of(h: NewMaterialHandle) -> Seq<Seq<char>> {
    let a = match h.main_texture {
        Some(p) => seq![p@],
        None => Seq::<Seq<char>>::empty(),
    };
    let b = match h.roughness_texture {
        Some(p) => seq![p@],
        None => Seq::<Seq<char>>::empty(),
    };
    let c = match h.normal_texture {
        Some(p) => seq![p@],
        None => Seq::<Seq<char>>::empty(),
    };
    a + b + c
}

/// The per-material uniform block: the colour, then metallic and roughness
/// followed by two zero words. Each word is the bit pattern of a
/// single-precision value; an absent parameter is 0.0, whose pattern is 0.
#[derive(Debug, Clone, Copy)]
pub struct PBRMaterialUniform {
    pub color: [u32; 4],
    pub info: [u32; 4],
}

/// The colour words of the uniform block of `h`.
pub open spec fn uniform_color_of(h: NewMaterialHandle) -> Seq<u32> {
    match h.color {
        Some(c) => c@,
        None => seq![0u32, 0u32, 0u32, 0u32],
    }
}

/// The info words of the uniform block of `h`.
pub open spec fn uniform_info_of(h: NewMaterialHandle) -> Seq<u32> {
    let m = match h.metallic {
        Some(v) => v,
        None => 0u32,
    };
    let r = match h.roughness {
        Some(v) => v,
        None => 0u32,
    };
    seq![m, r, 0u32, 0u32]
}

/// Every dependency in `states` was resolved.
pub open spec fn all_ready<X>(states: Seq<HandleState<X>>) -> bool {
    forall|i: int| 0 <= i < states.len() ==> #[trigger] states[i] is Ready
}

/// The texture of the `i`-th dependency, if present, or `None` where the
/// description declares none for that slot.
pub open spec fn texture_at<X>(
    declared: bool,
    i: int,
    states: Seq<HandleState<X>>,
) -> Option<Arc<X>> {
    if declared {
        Some(states[i]->Ready_0)
    } else {
        None
    }
}

/// The number of textures that `h` declares before its roughness texture.
pub open spec fn roughness_index(h: NewMaterialHandle) -> int {
    if h.main_texture is Some { 1 } else { 0 }
}

/// The number of textures that `h` declares before its normal texture.
pub open spec fn normal_index(h: NewMaterialHandle) -> int {
    roughness_index(h) + if h.roughness_texture is Some { 1int } else { 0int }
}

/// `d` is the material that `h` resolves to when its declared textures,
/// in declaration order, resolved to `states`.
pub open spec fn resolved_from<X, G>(
    h: NewMaterialHandle,
    states: Seq<HandleState<X>>,
    d: NewMaterialData<X, G>,
) -> bool {
    &&& d.material_kind == kind_of(h)
    &&& d.main_texture == texture_at(h.main_texture is Some, 0, states)
    &&& d.roughness_texture == texture_at(h.roughness_texture is Some, roughness_index(h), states)
    &&& d.normal_texture == texture_at(h.normal_texture is Some, normal_index(h), states)
    &&& d.uniform.color@ == uniform_color_of(h)
    &&& d.uniform.info@ == uniform_info_of(h)
    &&& d.gpu is None
}

/// A material resolved against its textures: the shared textures, the
/// uniform block built from its parameters, and the objects that the
/// graphics device made for it, once they exist.
pub struct NewMaterialData<X, G> {
    pub material_kind: MaterialKind,
    pub main_texture: Option<Arc<X>>,
    pub roughness_texture: Option<Arc<X>>,
    pub normal_texture: Option<Arc<X>>,
    pub uniform: PBRMaterialUniform,
    pub gpu: Option<G>,
}

impl NewMaterialHandle {
    pub fn new(
        main_texture: Option<String>,
        roughness_texture: Option<String>,
        normal_texture: Option<String>,
        roughness: Option<u32>,
        metallic: Option<u32>,
        color: Option<[u32; 4]>,
    ) -> (r: Self)
        ensures
            r.main_texture == main_texture,
            r.roughness_texture == roughness_texture,
            r.normal_texture == normal_texture,
            r.roughness == roughness,
            r.metallic == metallic,
            r.color == color,
    {
        NewMaterialHandle {
            main_texture,
            roughness_texture,
            normal_texture,
            roughness,
            metallic,
            color,
        }
    }

    /// The paths of the declared textures, in declaration order.
    pub fn texture_paths(&self) -> (r: Vec<String>)
        ensures
            r@.map_values(|p: String| p@) == texture_paths_of(*self),
    {
        let mut r: Vec<String> = Vec::new();
        if let Some(p) = &self.main_texture {
            r.push(p.clone());
        }
        if let Some(p) = &self.roughness_texture {
            r.push(p.clone());
        }
        if let Some(p) = &self.normal_texture {
            r.push(p.clone());
        }
        assert(r@.map_values(|p: String| p@) =~= texture_paths_of(*self));
        r
    }

    /// The uniform block of this material.
    pub fn uniform(&self) -> (r: PBRMaterialUniform)
        ensures
            r.color@ == uniform_color_of(*self),
            r.info@ == uniform_info_of(*self),
    {
        let color: [u32; 4] = match self.color {
            Some(c) => c,
            None => [0u32, 0u32, 0u32, 0u32],
        };
        let metallic: u32 = match self.metallic {
            Some(v) => v,
            None => 0,
        };
        let roughness: u32 = match self.roughness {
            Some(v) => v,
            None => 0,
        };
        let info: [u32; 4] = [metallic, roughness, 0, 0];
        assert(color@ =~= uniform_color_of(*self));
        assert(info@ =~= uniform_info_of(*self));
        PBRMaterialUniform { color, info }
    }

    /// The material this description resolves to, given the outcome of each
    /// declared texture in declaration order. It fails with
    /// `MissingDependency` when any texture was not resolved.
    pub fn load_data<X, G>(&self, states: &Vec<HandleState<X>>) -> (r: Result<
        NewMaterialData<X, G>,
        AssetError,
    >)
        requires
            states.len() == texture_paths_of(*self).len(),
        ensures
            r is Ok <==> all_ready(states@),
            r is Ok ==> resolved_from(*self, states@, r->Ok_0),
            r is Err ==> r->Err_0 == AssetError::MissingDependency,
    {
        let mut textures: Vec<Arc<X>> = Vec::new();
        let mut i: usize = 0;
        while i < states.len()
            invariant
                i <= states.len(),
                textures.len() == i,
                forall|j: int| 0 <= j < i ==> #[trigger] states@[j] is Ready,
                forall|j: int| 0 <= j < i ==> #[trigger] textures@[j] == states@[j]->Ready_0,
            decreases states.len() - i,
        {
            match &states[i] {
                HandleState::Ready(t) => {
                    textures.push(Arc::clone(t));
                },
                _ => {
                    return Err(AssetError::MissingDependency);
                },
            }
            i = i + 1;
        }
        let mut next: usize = 0;
        let main_texture = match &self.main_texture {
            Some(_) => {
                next = next + 1;
                Some(Arc::clone(&textures[0]))
            },
            None => None,
        };
        let roughness_texture = match &self.roughness_texture {
            Some(_) => {
                let t = Arc::clone(&textures[next]);
                next = next + 1;
                Some(t)
            },
            None => None,
        };
        let normal_texture = match &self.normal_texture {
            Some(_) => Some(Arc::clone(&textures[next])),
            None => None,
        };
        Ok(NewMaterialData {
            material_kind: MaterialKind::from(self),
            main_texture,
            roughness_texture,
            normal_texture,
            uniform: self.uniform(),
            gpu: None,
        })
    }
}

impl<X, G> NewMaterialData<X, G> {
    /// The textures that the material's bind group samples: main, normal
    /// and roughness. It fails with `MissingDependency` when any of them is
    /// absent.
    pub fn bind_group_textures(&self) -> (r: Result<(Arc<X>, Arc<X>, Arc<X>), AssetError>)
        ensures
            r is Ok <==> (self.main_texture is Some && self.normal_texture is Some
                && self.roughness_texture is Some),
            r is Ok ==> r->Ok_0 == (
                self.main_texture->Some_0,
                self.normal_texture->Some_0,
                self.roughness_texture->Some_0,
            ),
            r is Err ==> r->Err_0 == AssetError::MissingDependency,
    {
        match (&self.main_texture, &self.normal_texture, &self.roughness_texture) {
            (Some(m), Some(n), Some(g)) => Ok((Arc::clone(m), Arc::clone(n), Arc::clone(g))),
            _ => Err(AssetError::MissingDependency),
        }
    }

    /// Attaches the objects that the graphics device made for the material.
    pub fn attach(&mut self, gpu: G)
        ensures
            final(self).gpu == Some(gpu),
            final(self).material_kind == old(self).material_kind,
            final(self).main_texture == old(self).main_texture,
            final(self).roughness_texture == old(self).roughness_texture,
            final(self).normal_texture == old(self).normal_texture,
            final(self).uniform == old(self).uniform,
    {
        self.gpu = Some(gpu);
    }
}

} // verus!
