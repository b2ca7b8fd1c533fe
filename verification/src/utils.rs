//! Geometry, sampling layout, caching and colour helpers.

pub mod sampling;
pub mod slice_cache;
pub mod colors;
pub mod argminmax2;
pub mod brain_volume;
pub mod sampler3d;
