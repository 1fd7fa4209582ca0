//! A builder for allocation-creation requests against the pooling
//! allocator, over plain values.
//!
//! The allocator itself is an external collaborator: the library only fills
//! in the request; the calls that allocate and free live outside it.

use vstd::prelude::*;

verus! {

/// The intended usage of the memory being requested.
#[derive(Debug, Clone, Copy, PartialEq, Eq, Structural)]
pub enum MemoryUsage {
    /// No stated intent.
    Unknown,
    /// Device-local memory, never mapped.
    GpuOnly,
    /// Host memory, mappable.
    CpuOnly,
    /// Host-written, device-read memory.
    CpuToGpu,
    /// Device-written, host-read memory.
    GpuToCpu,
}

/// The creation request for one allocation.
#[derive(Debug, Clone, Copy, PartialEq, Eq, Structural)]
pub struct VmaAllocationCI {
    /// The intended usage of the memory.
    pub usage: MemoryUsage,
    /// Allocation configuration flag bits.
    pub flags: u32,
    /// Property bits the chosen memory type must have.
    pub required_flags: u32,
    /// Property bits the chosen memory type should have.
    pub preferred_flags: u32,
    /// Acceptable memory type indices as a bit mask; zero accepts all.
    pub memory_type_bits: u32,
    /// A custom pool to allocate from, by its handle.
    pub pool: Option<u64>,
    /// An opaque word attached to the allocation.
    pub user_data: Option<u64>,
}

impl VmaAllocationCI {
    /// The default request: unknown usage, no flags, no property
    /// requirements or preferences, every memory type acceptable, no custom
    /// pool, no user data.
    pub fn default_ci() -> (r: VmaAllocationCI)
        ensures
            r.usage is Unknown,
            r.flags == 0,
            r.required_flags == 0,
            r.preferred_flags == 0,
            r.memory_type_bits == 0,
            r.pool is None,
            r.user_data is None,
    {
        VmaAllocationCI {
            usage: MemoryUsage::Unknown,
            flags: 0,
            required_flags: 0,
            preferred_flags: 0,
            memory_type_bits: 0,
            pool: None,
            user_data: None,
        }
    }

    /// A request with the given usage and required property bits, every
    /// other member at its default.
    pub fn new(usage: MemoryUsage, required_flags: u32) -> (r: VmaAllocationCI)
        ensures
            r.usage == usage,
            r.required_flags == required_flags,
            r.flags == 0,
            r.preferred_flags == 0,
            r.memory_type_bits == 0,
            r.pool is None,
            r.user_data is None,
    {
        let mut ci = VmaAllocationCI::default_ci();
        ci.usage = usage;
        ci.required_flags = required_flags;
        ci
    }

    /// Set the configuration flags; every other member is kept.
    pub fn flags(self, flags: u32) -> (r: VmaAllocationCI)
        ensures
            r == (VmaAllocationCI { flags, ..self }),
    {
        let mut ci = self;
        ci.flags = flags;
        ci
    }

    /// Set the preferred property bits; every other member is kept.
    pub fn preferred_flags(self, flags: u32) -> (r: VmaAllocationCI)
        ensures
            r == (VmaAllocationCI { preferred_flags: flags, ..self }),
    {
        let mut ci = self;
        ci.preferred_flags = flags;
        ci
    }

    /// Limit the acceptable memory types; every other member is kept.
    pub fn accept_memory_types(self, acceptable_type_bits: u32) -> (r: VmaAllocationCI)
        ensures
            r == (VmaAllocationCI { memory_type_bits: acceptable_type_bits, ..self }),
    {
        let mut ci = self;
        ci.memory_type_bits = acceptable_type_bits;
        ci
    }

    /// Allocate from the given custom pool; every other member is kept.
    pub fn with_pool(self, pool: u64) -> (r: VmaAllocationCI)
        ensures
            r == (VmaAllocationCI { pool: Some(pool), ..self }),
    {
        let mut ci = self;
        ci.pool = Some(pool);
        ci
    }

    /// Attach an opaque word to the allocation; every other member is kept.
    pub fn with_user_data(self, data_ptr: u64) -> (r: VmaAllocationCI)
        ensures
            r == (VmaAllocationCI { user_data: Some(data_ptr), ..self }),
    {
        let mut ci = self;
        ci.user_data = Some(data_ptr);
        ci
    }
}

} // verus!
