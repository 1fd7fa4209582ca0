//! The capability negotiator: it turns what the backend reports about a
//! surface (formats, present modes, capabilities) into one concrete
//! configuration, with fixed, deterministic tie-breaks.
//!
//! Every selection here is a pure function over plain values, so it can be
//! stated exactly and exercised without a live graphics device.

use vstd::prelude::*;

use crate::error::{VkError, VkResult};
use crate::swapchain::SwapchainConfig;
use crate::vkdef::{
    Extent2D, VkQueue, COMPOSITE_ALPHA_INHERIT, COMPOSITE_ALPHA_OPAQUE,
    COMPOSITE_ALPHA_POST_MULTIPLIED, COMPOSITE_ALPHA_PRE_MULTIPLIED, FORMAT_B8G8R8A8_UNORM,
    FORMAT_UNDEFINED, IMAGE_USAGE_COLOR_ATTACHMENT, IMAGE_USAGE_TRANSFER_DST,
    IMAGE_USAGE_TRANSFER_SRC, PRESENT_MODE_FIFO, PRESENT_MODE_IMMEDIATE, PRESENT_MODE_MAILBOX,
    SPECIAL_EXTENT, SURFACE_TRANSFORM_IDENTITY,
};

verus! {

/// One supported pairing of pixel format and color space, as the backend
/// reports it.
#[derive(Debug, Clone, Copy, PartialEq, Eq, Structural)]
pub struct SurfaceFormat {
    pub format: u32,
    pub color_space: u32,
}

/// The format pairing selected for the chain.
#[derive(Debug, Clone, Copy, PartialEq, Eq, Structural)]
pub struct SwapchainFormat {
    pub color_format: u32,
    pub color_space: u32,
}

/// What the backend reports about a surface, immutable per query.
#[derive(Debug, Clone, Copy, PartialEq, Eq, Structural)]
pub struct SurfaceCapabilities {
    pub min_image_count: u32,
    /// Zero means the backend imposes no maximum.
    pub max_image_count: u32,
    pub current_extent: Extent2D,
    pub min_image_extent: Extent2D,
    pub max_image_extent: Extent2D,
    pub supported_transforms: u32,
    pub current_transform: u32,
    pub supported_composite_alpha: u32,
    pub supported_usage_flags: u32,
}

/// The part of the resolved configuration derived from the surface
/// capabilities alone.
#[derive(Debug, Clone, Copy, PartialEq, Eq, Structural)]
pub struct SwapchainCapability {
    pub support_usage: u32,
    pub desired_image_count: u32,
    pub swapchain_extent: Extent2D,
    pub pre_transform: u32,
    pub composite_alpha: u32,
}

/// Everything one negotiation reads from the backend, queried as a single
/// snapshot and never cached beyond it.
#[derive(Debug, Clone)]
pub struct SurfaceProperties {
    /// The device's graphics queue.
    pub graphics_queue: VkQueue,
    /// Whether the graphics queue's family can present to the surface.
    pub queue_presentable: bool,
    /// The supported format pairings, in the backend's order.
    pub formats: Vec<SurfaceFormat>,
    /// The supported present modes.
    pub present_modes: Vec<u32>,
    /// The surface capabilities.
    pub capabilities: SurfaceCapabilities,
}

// --- format selection ---

/// The index of the first entry carrying the default BGRA format, or -1 if
/// no entry does.
pub open spec fn first_bgra(formats: Seq<SurfaceFormat>) -> int
    decreases formats.len(),
{
    if formats.len() == 0 {
        -1
    } else if formats[0].format == FORMAT_B8G8R8A8_UNORM {
        0
    } else if first_bgra(formats.drop_first()) < 0 {
        -1
    } else {
        first_bgra(formats.drop_first()) + 1
    }
}

/// Which format pairing a non-empty supported list resolves to: the lone
/// undefined-sentinel entry means "anything goes" and yields the default
/// BGRA format with the reported color space; otherwise the first entry
/// carrying the default BGRA format wins, and failing that the first entry
/// of the list.
pub open spec fn selected_format(formats: Seq<SurfaceFormat>) -> SwapchainFormat
    recommends
        formats.len() > 0,
{
    if formats.len() == 1 && formats[0].format == FORMAT_UNDEFINED {
        SwapchainFormat { color_format: FORMAT_B8G8R8A8_UNORM, color_space: formats[0].color_space }
    } else if first_bgra(formats) >= 0 {
        SwapchainFormat {
            color_format: FORMAT_B8G8R8A8_UNORM,
            color_space: formats[first_bgra(formats)].color_space,
        }
    } else {
        SwapchainFormat { color_format: formats[0].format, color_space: formats[0].color_space }
    }
}

/// `first_bgra` really is the least index of a default-BGRA entry, and is
/// negative exactly when there is none.
pub proof fn lemma_first_bgra(formats: Seq<SurfaceFormat>)
    ensures
        first_bgra(formats) >= 0 <==> (exists|i: int|
            0 <= i < formats.len() && formats[i].format == FORMAT_B8G8R8A8_UNORM),
        first_bgra(formats) >= 0 ==> {
            &&& first_bgra(formats) < formats.len()
            &&& formats[first_bgra(formats)].format == FORMAT_B8G8R8A8_UNORM
            &&& forall|j: int|
                0 <= j < first_bgra(formats) ==> formats[j].format != FORMAT_B8G8R8A8_UNORM
        },
    decreases formats.len(),
{
    if formats.len() == 0 {
    } else if formats[0].format == FORMAT_B8G8R8A8_UNORM {
        assert(formats[0].format == FORMAT_B8G8R8A8_UNORM);
    } else {
        let rest = formats.drop_first();
        lemma_first_bgra(rest);
        assert(forall|i: int| 0 <= i < rest.len() ==> rest[i] == formats[i + 1]);
        if first_bgra(rest) >= 0 {
            let k = first_bgra(rest);
            assert(formats[k + 1].format == FORMAT_B8G8R8A8_UNORM);
            assert(forall|j: int|
                1 <= j < k + 1 ==> formats[j].format != FORMAT_B8G8R8A8_UNORM) by {
                assert(forall|j: int|
                    1 <= j < k + 1 ==> formats[j] == rest[j - 1] && rest[j - 1].format
                        != FORMAT_B8G8R8A8_UNORM);
            }
        } else {
            assert(forall|i: int|
                0 <= i < formats.len() ==> formats[i].format != FORMAT_B8G8R8A8_UNORM) by {
                assert(forall|i: int| 1 <= i < formats.len() ==> formats[i] == rest[i - 1]);
            }
        }
    }
}

/// When an entry at `i` carries the default BGRA format and no earlier entry
/// does, `i` is the first such index.
pub proof fn lemma_first_bgra_at(formats: Seq<SurfaceFormat>, i: int)
    requires
        0 <= i < formats.len(),
        formats[i].format == FORMAT_B8G8R8A8_UNORM,
        forall|j: int| 0 <= j < i ==> formats[j].format != FORMAT_B8G8R8A8_UNORM,
    ensures
        first_bgra(formats) == i,
    decreases i,
{
    if i == 0 {
    } else {
        let rest = formats.drop_first();
        assert(forall|k: int| 0 <= k < rest.len() ==> rest[k] == formats[k + 1]);
        lemma_first_bgra_at(rest, i - 1);
    }
}

/// Law: a supported-format list holding only the undefined sentinel selects
/// the default BGRA format, paired with the sentinel's reported color
/// space.
pub proof fn lemma_format_undefined_sentinel(formats: Seq<SurfaceFormat>)
    requires
        formats.len() == 1,
        formats[0].format == FORMAT_UNDEFINED,
    ensures
        selected_format(formats) == (SwapchainFormat {
            color_format: FORMAT_B8G8R8A8_UNORM,
            color_space: formats[0].color_space,
        }),
{
}

/// Law: outside the lone-sentinel case, the default BGRA format is selected
/// wherever it occurs in the list; with no such entry, the first entry is
/// selected, in original order.
pub proof fn lemma_format_prefers_bgra(formats: Seq<SurfaceFormat>)
    requires
        formats.len() > 0,
        !(formats.len() == 1 && formats[0].format == FORMAT_UNDEFINED),
    ensures
        (exists|i: int| 0 <= i < formats.len() && formats[i].format == FORMAT_B8G8R8A8_UNORM)
            ==> selected_format(formats).color_format == FORMAT_B8G8R8A8_UNORM,
        (forall|i: int| 0 <= i < formats.len() ==> formats[i].format != FORMAT_B8G8R8A8_UNORM)
            ==> selected_format(formats) == (SwapchainFormat {
            color_format: formats[0].format,
            color_space: formats[0].color_space,
        }),
{
    lemma_first_bgra(formats);
}

/// Select the format pairing for the chain from the backend's supported
/// list, or fail when the surface reports none.
pub fn query_optimal_format(support_formats: &Vec<SurfaceFormat>) -> (r: VkResult<SwapchainFormat>)
    ensures
        r is Ok <==> support_formats@.len() > 0,
        r matches Err(e) ==> e.kind is UnSupport,
        r matches Ok(f) ==> f == selected_format(support_formats@),
{
    if support_formats.len() == 0 {
        return Err(VkError::unsupported("Surface format"));
    }
    if support_formats.len() == 1 && support_formats[0].format == FORMAT_UNDEFINED {
        return Ok(
            SwapchainFormat {
                color_format: FORMAT_B8G8R8A8_UNORM,
                color_space: support_formats[0].color_space,
            },
        );
    }
    let mut i: usize = 0;
    while i < support_formats.len()
        invariant
            0 <= i <= support_formats@.len(),
            forall|j: int| 0 <= j < i ==> support_formats@[j].format != FORMAT_B8G8R8A8_UNORM,
        decreases support_formats@.len() - i,
    {
        if support_formats[i].format == FORMAT_B8G8R8A8_UNORM {
            proof {
                lemma_first_bgra_at(support_formats@, i as int);
            }
            return Ok(
                SwapchainFormat {
                    color_format: FORMAT_B8G8R8A8_UNORM,
                    color_space: support_formats[i].color_space,
                },
            );
        }
        i = i + 1;
    }
    proof {
        lemma_first_bgra(support_formats@);
    }
    Ok(
        SwapchainFormat {
            color_format: support_formats[0].format,
            color_space: support_formats[0].color_space,
        },
    )
}

// --- present-mode selection ---

/// Whether the backend's list holds the given present mode.
pub open spec fn contains_mode(modes: Seq<u32>, mode: u32) -> bool {
    exists|i: int| 0 <= i < modes.len() && modes[i] == mode
}

/// Which present mode a request resolves to: strict vsync always takes the
/// FIFO mode; otherwise mailbox is preferred, then immediate, with FIFO as
/// the unconditional fallback.
pub open spec fn selected_present_mode(modes: Seq<u32>, vsync: bool) -> u32 {
    if vsync {
        PRESENT_MODE_FIFO
    } else if contains_mode(modes, PRESENT_MODE_MAILBOX) {
        PRESENT_MODE_MAILBOX
    } else if contains_mode(modes, PRESENT_MODE_IMMEDIATE) {
        PRESENT_MODE_IMMEDIATE
    } else {
        PRESENT_MODE_FIFO
    }
}

/// Law: with vsync off, mailbox wins whenever it is supported, wherever it
/// stands in the list and whatever else is supported.
pub proof fn lemma_present_mode_priority(modes: Seq<u32>)
    requires
        contains_mode(modes, PRESENT_MODE_MAILBOX),
    ensures
        selected_present_mode(modes, false) == PRESENT_MODE_MAILBOX,
{
}

/// Law: with vsync on, FIFO is selected regardless of what else is
/// supported.
pub proof fn lemma_present_mode_vsync(modes: Seq<u32>)
    ensures
        selected_present_mode(modes, true) == PRESENT_MODE_FIFO,
{
}

/// Select the present mode for the chain, or fail when the surface reports
/// none.
pub fn query_optimal_present_mode(available_modes: &Vec<u32>, config: &SwapchainConfig) -> (r:
    VkResult<u32>)
    ensures
        r is Ok <==> available_modes@.len() > 0,
        r matches Err(e) ==> e.kind is UnSupport,
        r matches Ok(m) ==> m == selected_present_mode(available_modes@, config.present_vsync),
{
    if available_modes.len() == 0 {
        return Err(VkError::unsupported("Surface present mode"));
    }
    if config.present_vsync {
        return Ok(PRESENT_MODE_FIFO);
    }
    let mut i: usize = 0;
    while i < available_modes.len()
        invariant
            !config.present_vsync,
            0 <= i <= available_modes@.len(),
            forall|j: int| 0 <= j < i ==> available_modes@[j] != PRESENT_MODE_MAILBOX,
        decreases available_modes@.len() - i,
    {
        if available_modes[i] == PRESENT_MODE_MAILBOX {
            proof {
                assert(contains_mode(available_modes@, PRESENT_MODE_MAILBOX)) by {
                    assert(available_modes@[i as int] == PRESENT_MODE_MAILBOX);
                }
            }
            return Ok(PRESENT_MODE_MAILBOX);
        }
        i = i + 1;
    }
    let mut k: usize = 0;
    while k < available_modes.len()
        invariant
            !config.present_vsync,
            0 <= k <= available_modes@.len(),
            forall|j: int| 0 <= j < available_modes@.len() ==> available_modes@[j]
                != PRESENT_MODE_MAILBOX,
            forall|j: int| 0 <= j < k ==> available_modes@[j] != PRESENT_MODE_IMMEDIATE,
        decreases available_modes@.len() - k,
    {
        if available_modes[k] == PRESENT_MODE_IMMEDIATE {
            proof {
                assert(contains_mode(available_modes@, PRESENT_MODE_IMMEDIATE)) by {
                    assert(available_modes@[k as int] == PRESENT_MODE_IMMEDIATE);
                }
            }
            return Ok(PRESENT_MODE_IMMEDIATE);
        }
        k = k + 1;
    }
    Ok(PRESENT_MODE_FIFO)
}

// --- capability resolution ---

/// The usage flags the chain's images get: always a color attachment, with
/// each transfer direction added exactly when the backend supports it.
pub open spec fn resolved_usage(supported: u32) -> int {
    IMAGE_USAGE_COLOR_ATTACHMENT + (
    if supported & IMAGE_USAGE_TRANSFER_SRC != 0 {
        IMAGE_USAGE_TRANSFER_SRC as int
    } else {
        0
    }) + (
    if supported & IMAGE_USAGE_TRANSFER_DST != 0 {
        IMAGE_USAGE_TRANSFER_DST as int
    } else {
        0
    })
}

/// One axis of the requested size clamped into the backend's bounds: raised
/// to the minimum first, then capped at the maximum.
pub open spec fn clamped_axis(requested: u32, lo: u32, hi: u32) -> u32 {
    let raised = if requested >= lo {
        requested
    } else {
        lo
    };
    if raised <= hi {
        raised
    } else {
        hi
    }
}

/// The extent the chain resolves to: the backend's current extent is
/// authoritative unless it carries the all-ones undefined sentinel on both
/// axes, in which case each requested axis is clamped into the backend's
/// bounds independently.
pub open spec fn resolved_extent(caps: SurfaceCapabilities, dimension: Extent2D) -> Extent2D {
    if caps.current_extent.width == SPECIAL_EXTENT && caps.current_extent.height
        == SPECIAL_EXTENT {
        Extent2D {
            width: clamped_axis(
                dimension.width,
                caps.min_image_extent.width,
                caps.max_image_extent.width,
            ),
            height: clamped_axis(
                dimension.height,
                caps.min_image_extent.height,
                caps.max_image_extent.height,
            ),
        }
    } else {
        caps.current_extent
    }
}

/// The image count the chain resolves to: one more than the backend's
/// minimum, clamped down to a nonzero reported maximum.
pub open spec fn resolved_image_count(caps: SurfaceCapabilities) -> int {
    if caps.max_image_count > 0 && caps.min_image_count + 1 > caps.max_image_count {
        caps.max_image_count as int
    } else {
        caps.min_image_count + 1
    }
}

/// The pre-transform the chain resolves to: identity when supported, else
/// whatever the backend currently applies.
pub open spec fn resolved_transform(caps: SurfaceCapabilities) -> u32 {
    if caps.supported_transforms & SURFACE_TRANSFORM_IDENTITY != 0 {
        SURFACE_TRANSFORM_IDENTITY
    } else {
        caps.current_transform
    }
}

/// The composite-alpha mode the chain resolves to: the first supported of
/// opaque, pre-multiplied, post-multiplied, inherited, defaulting to opaque.
pub open spec fn resolved_alpha(supported: u32) -> u32 {
    if supported & COMPOSITE_ALPHA_OPAQUE != 0 {
        COMPOSITE_ALPHA_OPAQUE
    } else if supported & COMPOSITE_ALPHA_PRE_MULTIPLIED != 0 {
        COMPOSITE_ALPHA_PRE_MULTIPLIED
    } else if supported & COMPOSITE_ALPHA_POST_MULTIPLIED != 0 {
        COMPOSITE_ALPHA_POST_MULTIPLIED
    } else if supported & COMPOSITE_ALPHA_INHERIT != 0 {
        COMPOSITE_ALPHA_INHERIT
    } else {
        COMPOSITE_ALPHA_OPAQUE
    }
}

/// Resolve the queried surface capabilities and the requested dimension into
/// the capability-derived part of the chain configuration.
pub fn query_swapchain_capability(surface_caps: &SurfaceCapabilities, dimension: Extent2D) -> (r:
    SwapchainCapability)
    requires
        surface_caps.min_image_count < u32::MAX,
    ensures
        r.support_usage == resolved_usage(surface_caps.supported_usage_flags),
        r.desired_image_count == resolved_image_count(*surface_caps),
        r.swapchain_extent == resolved_extent(*surface_caps, dimension),
        r.pre_transform == resolved_transform(*surface_caps),
        r.composite_alpha == resolved_alpha(surface_caps.supported_composite_alpha),
{
    let mut image_usage: u32 = IMAGE_USAGE_COLOR_ATTACHMENT;
    if surface_caps.supported_usage_flags & IMAGE_USAGE_TRANSFER_SRC != 0 {
        image_usage = image_usage + IMAGE_USAGE_TRANSFER_SRC;
    }
    if surface_caps.supported_usage_flags & IMAGE_USAGE_TRANSFER_DST != 0 {
        image_usage = image_usage + IMAGE_USAGE_TRANSFER_DST;
    }

    let optimal_extent = if surface_caps.current_extent.width == SPECIAL_EXTENT
        && surface_caps.current_extent.height == SPECIAL_EXTENT {
        let lo_w = surface_caps.min_image_extent.width;
        let hi_w = surface_caps.max_image_extent.width;
        let lo_h = surface_caps.min_image_extent.height;
        let hi_h = surface_caps.max_image_extent.height;
        let raised_w = if dimension.width >= lo_w { dimension.width } else { lo_w };
        let raised_h = if dimension.height >= lo_h { dimension.height } else { lo_h };
        Extent2D {
            width: if raised_w <= hi_w { raised_w } else { hi_w },
            height: if raised_h <= hi_h { raised_h } else { hi_h },
        }
    } else {
        surface_caps.current_extent
    };

    let mut optimal_image_count: u32 = surface_caps.min_image_count + 1;
    if surface_caps.max_image_count > 0 && optimal_image_count > surface_caps.max_image_count {
        optimal_image_count = surface_caps.max_image_count;
    }

    let surface_transform = if surface_caps.supported_transforms & SURFACE_TRANSFORM_IDENTITY
        != 0 {
        SURFACE_TRANSFORM_IDENTITY
    } else {
        surface_caps.current_transform
    };

    let composite_alpha_flag = if surface_caps.supported_composite_alpha & COMPOSITE_ALPHA_OPAQUE
        != 0 {
        COMPOSITE_ALPHA_OPAQUE
    } else if surface_caps.supported_composite_alpha & COMPOSITE_ALPHA_PRE_MULTIPLIED != 0 {
        COMPOSITE_ALPHA_PRE_MULTIPLIED
    } else if surface_caps.supported_composite_alpha & COMPOSITE_ALPHA_POST_MULTIPLIED != 0 {
        COMPOSITE_ALPHA_POST_MULTIPLIED
    } else if surface_caps.supported_composite_alpha & COMPOSITE_ALPHA_INHERIT != 0 {
        COMPOSITE_ALPHA_INHERIT
    } else {
        COMPOSITE_ALPHA_OPAQUE
    };

    SwapchainCapability {
        support_usage: image_usage,
        desired_image_count: optimal_image_count,
        swapchain_extent: optimal_extent,
        pre_transform: surface_transform,
        composite_alpha: composite_alpha_flag,
    }
}

/// The queue that will present: the graphics queue, exactly when its family
/// can present to the surface.
pub fn query_present_queue(graphics_queue: &VkQueue, is_family_presentable: bool) -> (r: Option<
    VkQueue,
>)
    ensures
        is_family_presentable ==> r == Some(*graphics_queue),
        !is_family_presentable ==> r is None,
{
    if is_family_presentable {
        Some(*graphics_queue)
    } else {
        None
    }
}

} // verus!
