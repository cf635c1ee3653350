//! Asset cache and asynchronous material resolution.
//!
//! The library holds the bookkeeping of an asset loader: a cache keyed by
//! identifier, handles that poll it without blocking, a texture resolver
//! that never starts two uploads for one path, and the decisions of the
//! material resolution pipeline (read, parse, resolve textures, build,
//! commit). The program around it performs the file reads, the parsing of
//! the on-disk description and the work on the graphics device, and hands
//! the outcomes back.

mod identifier;
mod cache;
mod handle;
mod material;
mod inflight;
mod texture;
mod manager;
mod pipeline;
pub mod laws;

pub use identifier::{Identifier, IdKey};
pub use cache::{AssetCache, AssetError, LoadResult};
pub use handle::{AssetHandle, HandleState, state_of};
pub use material::{
    MaterialKind, NewMaterialData, NewMaterialHandle, PBRMaterialUniform, all_ready, kind_of,
    normal_index, resolved_from, roughness_index, texture_at, texture_paths_of, uniform_color_of,
    uniform_info_of,
};
pub use inflight::InFlight;
pub use texture::{ResolverModel, TextureManager, after_request, after_upload, upload_starts};
pub use manager::{FileOutcome, ManagerModel, MaterialManager, after_insert, after_load, can_bind, committed, fails_with, load_starts, tokens_below};
pub use pipeline::{UnlitPipelineDesc, VertexAttribute, VertexFormat, format_size, packed_attributes, packed_size, unlit_formats};
