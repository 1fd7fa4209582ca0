//! A thin object-lifetime and state-negotiation layer over a native graphics
//! backend: it negotiates surface capabilities into a concrete swapchain
//! configuration, owns the chain of presentable images, and drives the
//! acquire / present / rebuild cycle with explicit resource release.
//!
//! All decisions (tie-break scanning, extent and image-count resolution, the
//! controller state machine) are verified here over plain values; the calls
//! into the backend driver live outside the library and hand their outcomes
//! back as events.

pub mod buffer;
pub mod error;
pub mod fps;
pub mod surface;
pub mod swapchain;
pub mod transfer;
pub mod vkdef;
pub mod vma;
