//! A builder for buffer-creation requests, over plain values.
//!
//! The request starts from fixed defaults and each builder method sets one
//! member; the backend call that turns the finished request into a buffer
//! lives outside the library.

use vstd::prelude::*;

use crate::vkdef::SHARING_MODE_EXCLUSIVE;

verus! {

/// The creation request for a buffer.
#[derive(Debug, Clone)]
pub struct BufferCI {
    /// The buffer size in bytes.
    pub size: u64,
    /// Creation flag bits.
    pub flags: u32,
    /// Usage flag bits.
    pub usage: u32,
    /// The sharing mode across queue families.
    pub sharing_mode: u32,
    /// The queue families sharing the buffer, when not exclusive.
    pub queue_families: Vec<u32>,
}

impl BufferCI {
    /// The default request: zero size, no flags, no usage, exclusive
    /// sharing, no sharing queue families.
    pub fn default_ci() -> (r: BufferCI)
        ensures
            r.size == 0,
            r.flags == 0,
            r.usage == 0,
            r.sharing_mode == SHARING_MODE_EXCLUSIVE,
            r.queue_families@.len() == 0,
    {
        BufferCI {
            size: 0,
            flags: 0,
            usage: 0,
            sharing_mode: SHARING_MODE_EXCLUSIVE,
            queue_families: Vec::new(),
        }
    }

    /// A request of the given size, with every other member at its default.
    pub fn new(size: u64) -> (r: BufferCI)
        ensures
            r.size == size,
            r.flags == 0,
            r.usage == 0,
            r.sharing_mode == SHARING_MODE_EXCLUSIVE,
            r.queue_families@.len() == 0,
    {
        let mut ci = BufferCI::default_ci();
        ci.size = size;
        ci
    }

    /// Set the creation flags; every other member is kept.
    pub fn flags(self, flags: u32) -> (r: BufferCI)
        ensures
            r.flags == flags,
            r.size == self.size,
            r.usage == self.usage,
            r.sharing_mode == self.sharing_mode,
            r.queue_families@ == self.queue_families@,
    {
        let mut ci = self;
        ci.flags = flags;
        ci
    }

    /// Set the usage flags; every other member is kept.
    pub fn usage(self, flags: u32) -> (r: BufferCI)
        ensures
            r.usage == flags,
            r.size == self.size,
            r.flags == self.flags,
            r.sharing_mode == self.sharing_mode,
            r.queue_families@ == self.queue_families@,
    {
        let mut ci = self;
        ci.usage = flags;
        ci
    }

    /// Set the sharing mode and the queue families it spans; every other
    /// member is kept.
    pub fn sharing_queues(self, mode: u32, families_indices: Vec<u32>) -> (r: BufferCI)
        ensures
            r.sharing_mode == mode,
            r.queue_families@ == families_indices@,
            r.size == self.size,
            r.flags == self.flags,
            r.usage == self.usage,
    {
        let mut ci = self;
        ci.queue_families = families_indices;
        ci.sharing_mode = mode;
        ci
    }
}

} // verus!
