//! The transfer command kind.
//!
//! Command recording itself is a thin pass-through to the backend driver
//! and lives outside the library; what belongs here is the kind marker and
//! the pipeline bind point it records against.

use vstd::prelude::*;

use crate::vkdef::PIPELINE_BIND_POINT_GRAPHICS;

verus! {

/// Marker for transfer command recording.
#[derive(Debug, Clone, Copy, PartialEq, Eq, Structural)]
pub struct ITransfer;

impl ITransfer {
    /// The pipeline bind point transfer commands record against.
    pub fn bind_point() -> (r: u32)
        ensures
            r == PIPELINE_BIND_POINT_GRAPHICS,
    {
        PIPELINE_BIND_POINT_GRAPHICS
    }
}

} // verus!
