//! A voxel-world sandbox core: chunked block storage, face-culling mesh
//! generation, world/chunk coordinate translation, and a collide-and-slide
//! character mover driven by an external shape-cast service.

pub mod block;
pub mod chunk;
pub mod dimension;
pub mod fx;
pub mod mesh;
pub mod mover;
pub mod quad;
pub mod rng;
