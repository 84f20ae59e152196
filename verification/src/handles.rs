//! Opaque handles into the renderer's resource tables.

use vstd::prelude::*;

verus! {

/// Position of a pipeline in the renderer's pipeline table.
#[derive(Debug, Default, Clone, Copy, PartialEq, Eq, Structural)]
pub struct RPipelineId(pub usize);

/// Position of a render object in the renderer's object table.
#[derive(Debug, Default, Clone, Copy, PartialEq, Eq, Structural)]
pub struct RObjectId(pub usize);

/// The three table slots that make up one texture: the image itself, its
/// multisample companion and its depth companion.
#[derive(Debug, Default, Clone, Copy, PartialEq, Eq, Structural)]
pub struct RTextureId {
    pub base: usize,
    pub msaa: usize,
    pub zbuffer: usize,
}

impl RTextureId {
    /// True when the three slots are consecutive, as every handle handed out
    /// by the renderer is.
    pub open spec fn consecutive(self) -> bool {
        &&& self.msaa == self.base + 1
        &&& self.zbuffer == self.base + 2
    }
}

} // verus!
