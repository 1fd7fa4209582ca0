//! The error taxonomy of the library.
//!
//! Negotiation and construction failures are reported through [`VkError`],
//! a tagged kind plus a short static description of what went wrong.

use vstd::prelude::*;

verus! {

/// The specific kind of error that can occur.
#[derive(Debug)]
pub enum VkErrorKind {
    /// Failed to bridge a connection between the application and the backend.
    Unlink { target_name: &'static str },
    /// Failed to query a property from the backend or the device.
    Query { query_target: &'static str },
    /// Failed to create a backend object.
    Create { create_target: &'static str },
    /// A required feature is not supported by the current device.
    UnSupport { feature: &'static str },
    /// An invalid device operation.
    Device { ops_description: &'static str },
    /// Runtime shader compilation failed.
    Shaderc { compile_message: &'static str },
    /// Interaction with the window failed.
    Window { description: &'static str },
    /// A file path could not be used.
    Path { path: &'static str },
    /// A called routine is not implemented yet.
    Unimplemented { function: &'static str },
    /// Serialization of data into bytes failed.
    Serialize { description: &'static str },
    /// Any other error.
    Custom { description: &'static str },
}

/// An error raised by this library, wrapping a [`VkErrorKind`].
#[derive(Debug)]
pub struct VkError {
    pub kind: VkErrorKind,
}

/// The result type used throughout the library.
pub type VkResult<T> = Result<T, VkError>;

impl VkError {
    /// The kind of this error.
    pub fn kind(&self) -> (r: &VkErrorKind)
        ensures
            *r == self.kind,
    {
        &self.kind
    }

    /// An error for a failed connection to the named target.
    pub fn unlink(target_name: &'static str) -> (r: VkError)
        ensures
            r.kind matches VkErrorKind::Unlink { target_name: t } && t@ == target_name@,
    {
        VkError { kind: VkErrorKind::Unlink { target_name } }
    }

    /// An error for a failed property query.
    pub fn query(query_target: &'static str) -> (r: VkError)
        ensures
            r.kind matches VkErrorKind::Query { query_target: t } && t@ == query_target@,
    {
        VkError { kind: VkErrorKind::Query { query_target } }
    }

    /// An error for a failed object creation.
    pub fn create(create_target: &'static str) -> (r: VkError)
        ensures
            r.kind matches VkErrorKind::Create { create_target: t } && t@ == create_target@,
    {
        VkError { kind: VkErrorKind::Create { create_target } }
    }

    /// An error for a feature the device does not support.
    pub fn unsupported(feature: &'static str) -> (r: VkError)
        ensures
            r.kind matches VkErrorKind::UnSupport { feature: f } && f@ == feature@,
    {
        VkError { kind: VkErrorKind::UnSupport { feature } }
    }

    /// An error for an invalid device operation.
    pub fn device(ops_description: &'static str) -> (r: VkError)
        ensures
            r.kind matches VkErrorKind::Device { ops_description: d } && d@ == ops_description@,
    {
        VkError { kind: VkErrorKind::Device { ops_description } }
    }

    /// An error for a failed runtime shader compilation.
    pub fn shaderc(compile_message: &'static str) -> (r: VkError)
        ensures
            r.kind matches VkErrorKind::Shaderc { compile_message: m } && m@ == compile_message@,
    {
        VkError { kind: VkErrorKind::Shaderc { compile_message } }
    }

    /// An error associated with a file path.
    pub fn path(path: &'static str) -> (r: VkError)
        ensures
            r.kind matches VkErrorKind::Path { path: p } && p@ == path@,
    {
        VkError { kind: VkErrorKind::Path { path } }
    }

    /// An error for a routine that is not implemented yet.
    pub fn unimplemented(function: &'static str) -> (r: VkError)
        ensures
            r.kind matches VkErrorKind::Unimplemented { function: f } && f@ == function@,
    {
        VkError { kind: VkErrorKind::Unimplemented { function } }
    }

    /// An error for a failed serialization of data into bytes.
    pub fn serialize(description: &'static str) -> (r: VkError)
        ensures
            r.kind matches VkErrorKind::Serialize { description: d } && d@ == description@,
    {
        VkError { kind: VkErrorKind::Serialize { description } }
    }

    /// An error with a free-form description.
    pub fn custom(description: &'static str) -> (r: VkError)
        ensures
            r.kind matches VkErrorKind::Custom { description: d } && d@ == description@,
    {
        VkError { kind: VkErrorKind::Custom { description } }
    }
}

} // verus!
