//! Verified shape and layout logic of a Gaussian-splat renderer: the dimensions
//! of the per-splat parameter tensors, spherical-harmonic band counts, and the
//! render options and statistics that the renderer exchanges.
use vstd::prelude::*;

pub mod gaussian_splats;
pub mod sh;

verus! {

/// Counts reported by one render pass.
#[derive(Debug, Clone)]
pub struct RenderStats {
    pub num_visible: u32,
    pub num_intersections: u32,
}

/// How the alpha channel of a target image is read.
#[derive(Clone, Copy, Debug, PartialEq, Eq, Structural)]
pub enum AlphaMode {
    Masked,
    Transparent,
}

impl Default for AlphaMode {
    /// Alpha is a mask unless asked otherwise.
    fn default() -> (mode: Self)
        ensures
            mode == AlphaMode::Masked,
    {
        AlphaMode::Masked
    }
}

} // verus!
