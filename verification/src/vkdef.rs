//! Plain-value models of the backend's enumerations, flags and small structs.
//!
//! The negotiation and controller logic only ever reads these as numbers, so
//! the library holds them as plain integers carrying the backend's own codes;
//! the unverified driver glue converts them one for one into the backend's
//! types.

use vstd::prelude::*;

verus! {

// --- pixel formats (backend enumeration codes) ---

/// The backend's "no preferred format" sentinel.
pub const FORMAT_UNDEFINED: u32 = 0;
/// 32-bit BGRA, unsigned normalized: the default color format.
pub const FORMAT_B8G8R8A8_UNORM: u32 = 44;

// --- present modes (backend enumeration codes) ---

/// Tearing-allowed immediate presentation.
pub const PRESENT_MODE_IMMEDIATE: u32 = 0;
/// Low-latency, non-tearing presentation.
pub const PRESENT_MODE_MAILBOX: u32 = 1;
/// Strict vsync; always supported by the backend.
pub const PRESENT_MODE_FIFO: u32 = 2;

// --- image usage flag bits ---

/// The image may be the source of a transfer.
pub const IMAGE_USAGE_TRANSFER_SRC: u32 = 0x1;
/// The image may be the destination of a transfer.
pub const IMAGE_USAGE_TRANSFER_DST: u32 = 0x2;
/// The image may be used as a color attachment.
pub const IMAGE_USAGE_COLOR_ATTACHMENT: u32 = 0x10;

// --- surface transform flag bits ---

/// The non-rotated transform.
pub const SURFACE_TRANSFORM_IDENTITY: u32 = 0x1;

// --- composite alpha flag bits ---

/// Alpha is ignored.
pub const COMPOSITE_ALPHA_OPAQUE: u32 = 0x1;
/// Alpha is expected pre-multiplied.
pub const COMPOSITE_ALPHA_PRE_MULTIPLIED: u32 = 0x2;
/// Alpha is expected post-multiplied.
pub const COMPOSITE_ALPHA_POST_MULTIPLIED: u32 = 0x4;
/// Alpha handling is inherited from the platform.
pub const COMPOSITE_ALPHA_INHERIT: u32 = 0x8;

// --- sharing modes (backend enumeration codes) ---

/// Exclusive queue-family ownership of a resource.
pub const SHARING_MODE_EXCLUSIVE: u32 = 0;

// --- image view types and aspects (backend codes) ---

/// A two-dimensional image view.
pub const IMAGE_VIEW_TYPE_2D: u32 = 1;
/// The color aspect of an image.
pub const IMAGE_ASPECT_COLOR: u32 = 0x1;

// --- pipeline bind points (backend enumeration codes) ---

/// The graphics pipeline bind point.
pub const PIPELINE_BIND_POINT_GRAPHICS: u32 = 0;

/// The reserved magnitude that, on both axes of the current extent, means
/// "the surface size is undefined".
pub const SPECIAL_EXTENT: u32 = 0xFFFF_FFFF;

/// A two-dimensional extent in pixels.
#[derive(Debug, Clone, Copy, PartialEq, Eq, Structural)]
pub struct Extent2D {
    pub width: u32,
    pub height: u32,
}

/// A device queue: its backend handle and the queue family it belongs to.
#[derive(Debug, Clone, Copy, PartialEq, Eq, Structural)]
pub struct VkQueue {
    /// The backend handle of the queue.
    pub handle: u64,
    /// The index of the queue family this queue was created from.
    pub family_index: u32,
}

/// A wait duration handed to the backend, with an "infinite" sentinel.
#[derive(Debug, Clone, Copy, PartialEq, Eq, Structural)]
pub enum VkTimeDuration {
    /// Do not wait at all.
    Immediate,
    /// Wait up to the given number of nanoseconds.
    Time(u64),
    /// Wait without bound.
    Infinite,
}

impl VkTimeDuration {
    /// The raw nanosecond count the backend expects: zero for no wait, the
    /// all-ones value for an unbounded wait.
    pub open spec fn nanos(self) -> u64 {
        match self {
            VkTimeDuration::Immediate => 0,
            VkTimeDuration::Time(n) => n,
            VkTimeDuration::Infinite => u64::MAX,
        }
    }

    /// Convert into the raw nanosecond count the backend expects.
    pub fn as_nanos(&self) -> (r: u64)
        ensures
            r == self.nanos(),
    {
        match self {
            VkTimeDuration::Immediate => 0,
            VkTimeDuration::Time(n) => *n,
            VkTimeDuration::Infinite => u64::MAX,
        }
    }
}

} // verus!
