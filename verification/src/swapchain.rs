//! The swapchain controller: negotiation of a concrete chain configuration,
//! ownership of the presentable-image set, and the acquire / present /
//! rebuild / discard state machine.
//!
//! The controller never talks to the backend driver itself: it computes the
//! creation requests and interprets the driver's responses, which the
//! unverified glue around the library performs and hands back as events.
//! An instance is either Active (usable for acquire and present) or
//! Discarded, a terminal state in which no operation's precondition holds.

use vstd::prelude::*;

use crate::error::{VkError, VkResult};
use crate::surface::{
    query_optimal_format, query_optimal_present_mode, query_present_queue,
    query_swapchain_capability, resolved_alpha, resolved_extent, resolved_image_count,
    resolved_transform, resolved_usage, selected_format, selected_present_mode,
    SurfaceProperties,
};
use crate::vkdef::{
    Extent2D, VkQueue, VkTimeDuration, IMAGE_ASPECT_COLOR, IMAGE_VIEW_TYPE_2D,
    SHARING_MODE_EXCLUSIVE,
};

verus! {

/// Caller-supplied preferences for one chain instance.
#[derive(Debug, Clone, Copy, PartialEq, Eq, Structural)]
pub struct SwapchainConfig {
    /// Whether presentation should wait for the vertical blank.
    pub present_vsync: bool,
    /// How long an image acquisition may wait.
    pub image_acquire_time: VkTimeDuration,
}

impl Default for SwapchainConfig {
    /// The default configuration: vsync off, unbounded acquire wait.
    fn default() -> (r: SwapchainConfig)
        ensures
            !r.present_vsync,
            r.image_acquire_time is Infinite,
    {
        SwapchainConfig { present_vsync: false, image_acquire_time: VkTimeDuration::Infinite }
    }
}

/// One presentable image slot: the chain-owned image, whose lifetime is
/// bound to the chain, and this library's view of it, which must be
/// released explicitly.
#[derive(Debug, Clone, Copy, PartialEq, Eq, Structural)]
pub struct SwapchainImage {
    /// The backend handle of the presentable image.
    pub image: u64,
    /// The backend handle of the image view created for it.
    pub view: u64,
}

/// The creation request for a chain, filled in by negotiation and handed to
/// the backend driver.
#[derive(Debug, Clone, Copy, PartialEq, Eq, Structural)]
pub struct SwapchainCI {
    pub surface: u64,
    pub min_image_count: u32,
    pub image_format: u32,
    pub image_color_space: u32,
    pub image_extent: Extent2D,
    pub image_array_layers: u32,
    pub image_usage: u32,
    pub image_sharing_mode: u32,
    pub pre_transform: u32,
    pub composite_alpha: u32,
    pub present_mode: u32,
    /// Allows the backend to discard rendering outside the surface area.
    pub clipped: bool,
    /// The chain being replaced, as a reuse hint; zero when none.
    pub old_swapchain: u64,
}

/// A complete negotiation outcome: the creation request, the queue that
/// will present, and the configuration it was negotiated for.
#[derive(Debug, Clone, Copy, PartialEq, Eq, Structural)]
pub struct SwapchainPlan {
    pub ci: SwapchainCI,
    pub present_queue: VkQueue,
    pub config: SwapchainConfig,
}

/// The native resources of a superseded or discarded chain, to be released
/// exactly once: every image view first, the chain handle after them.
#[derive(Debug, Clone, PartialEq, Eq)]
pub struct RetiredChain {
    /// The chain handle to destroy last.
    pub chain: u64,
    /// The view handles to destroy, in image order.
    pub views: Vec<u64>,
}

/// The failure taxonomy of the acquire and present handshakes.
#[derive(Debug, Clone, Copy, PartialEq, Eq, Structural)]
pub enum SwapchainSyncError {
    /// No image became available within the time allowed.
    TimeOut,
    /// The chain no longer matches the surface properties exactly; the frame
    /// is still usable, but a rebuild should be scheduled.
    SubOptimal,
    /// The surface has changed and is not compatible with the chain; the
    /// caller must rebuild before retrying.
    SurfaceOutDate,
    /// Any other backend error.
    Unknown,
}

/// The backend driver's response to an image-acquire request.
#[derive(Debug, Clone, Copy, PartialEq, Eq, Structural)]
pub enum AcquireEvent {
    /// An image is ready at the given index; the backend may add that the
    /// chain no longer matches the surface exactly.
    Ready { image_index: u32, suboptimal: bool },
    /// No image became available within the wait duration.
    TimedOut,
    /// The surface no longer matches the chain.
    OutOfDate,
    /// Any other backend error.
    Failed,
}

/// The backend driver's response to a present request.
#[derive(Debug, Clone, Copy, PartialEq, Eq, Structural)]
pub enum PresentEvent {
    /// The image was queued for display; the backend may add that the chain
    /// no longer matches the surface exactly.
    Done { suboptimal: bool },
    /// Any other backend error.
    Failed,
}

/// What an acquire returns for a given response of the backend, over the
/// outstanding-image marks: ready images are handed out only while their
/// slot is free, a suboptimal signal is reported as an error the caller
/// should react to, and the three failure responses map to their taxonomy
/// kinds.
pub open spec fn acquire_result(acq: Seq<bool>, ev: AcquireEvent) -> Result<u32, SwapchainSyncError> {
    match ev {
        AcquireEvent::Ready { image_index, suboptimal } => {
            if image_index < acq.len() && !acq[image_index as int] {
                if suboptimal {
                    Err(SwapchainSyncError::SubOptimal)
                } else {
                    Ok(image_index)
                }
            } else {
                Err(SwapchainSyncError::Unknown)
            }
        },
        AcquireEvent::TimedOut => Err(SwapchainSyncError::TimeOut),
        AcquireEvent::OutOfDate => Err(SwapchainSyncError::SurfaceOutDate),
        AcquireEvent::Failed => Err(SwapchainSyncError::Unknown),
    }
}

/// How the outstanding-image marks change under an acquire: a ready, free
/// image becomes outstanding (also on a suboptimal signal, since the backend
/// did hand it out); every failure leaves the marks as they were.
pub open spec fn acquire_marks(acq: Seq<bool>, ev: AcquireEvent) -> Seq<bool> {
    match ev {
        AcquireEvent::Ready { image_index, .. } => {
            if image_index < acq.len() && !acq[image_index as int] {
                acq.update(image_index as int, true)
            } else {
                acq
            }
        },
        _ => acq,
    }
}

/// What a present returns for a given response of the backend.
pub open spec fn present_result(ev: PresentEvent) -> Result<(), SwapchainSyncError> {
    match ev {
        PresentEvent::Done { suboptimal } => {
            if suboptimal {
                Err(SwapchainSyncError::SubOptimal)
            } else {
                Ok(())
            }
        },
        PresentEvent::Failed => Err(SwapchainSyncError::Unknown),
    }
}

/// How the outstanding-image marks change under a present: a queued image's
/// slot is free again (also on a suboptimal signal); a failed present leaves
/// the slot outstanding.
pub open spec fn present_marks(acq: Seq<bool>, image_index: u32, ev: PresentEvent) -> Seq<bool> {
    match ev {
        PresentEvent::Done { .. } => acq.update(image_index as int, false),
        PresentEvent::Failed => acq,
    }
}

/// What a successful negotiation resolves to, field by field, in terms of
/// the pure selection functions over the queried snapshot.
pub open spec fn plan_resolves(
    p: SwapchainPlan,
    props: SurfaceProperties,
    config: SwapchainConfig,
    surface: u64,
    dimension: Extent2D,
    old_chain: u64,
) -> bool {
    &&& p.present_queue == props.graphics_queue
    &&& p.config == config
    &&& p.ci.surface == surface
    &&& p.ci.min_image_count == resolved_image_count(props.capabilities)
    &&& p.ci.image_format == selected_format(props.formats@).color_format
    &&& p.ci.image_color_space == selected_format(props.formats@).color_space
    &&& p.ci.image_extent == resolved_extent(props.capabilities, dimension)
    &&& p.ci.image_array_layers == 1
    &&& p.ci.image_usage == resolved_usage(props.capabilities.supported_usage_flags)
    &&& p.ci.image_sharing_mode == SHARING_MODE_EXCLUSIVE
    &&& p.ci.pre_transform == resolved_transform(props.capabilities)
    &&& p.ci.composite_alpha == resolved_alpha(props.capabilities.supported_composite_alpha)
    &&& p.ci.present_mode == selected_present_mode(props.present_modes@, config.present_vsync)
    &&& p.ci.clipped == true
    &&& p.ci.old_swapchain == old_chain
}

/// The retired resources handed back when an instance is superseded or
/// discarded: its chain handle, and its view handles in image order.
pub open spec fn retired_from(ret: RetiredChain, pre: VkSwapchain) -> bool {
    &&& ret.chain == pre.handle
    &&& ret.views@.len() == pre.images@.len()
    &&& forall|i: int| 0 <= i < pre.images@.len() ==> ret.views@[i] == pre.images@[i].view
}

/// The swapchain controller: the chain handle, the negotiated image set and
/// configuration, and the outstanding-image bookkeeping of the
/// acquire / present handshake.
#[derive(Debug)]
pub struct VkSwapchain {
    /// The backend handle of the chain.
    pub handle: u64,
    /// The queue used to present images.
    pub present_queue: VkQueue,
    /// The presentable images of the current chain, in backend order.
    pub images: Vec<SwapchainImage>,
    /// The resolved format of the presentable images.
    pub backend_format: u32,
    /// The resolved dimension of the presentable images.
    pub dimension: Extent2D,
    /// The number of frames that may be mid-flight: always the image count.
    pub frame_in_flight: usize,
    /// The resolved acquire wait, in raw backend nanoseconds.
    pub image_acquire_time: u64,
    /// The configuration this chain was negotiated for.
    pub config: SwapchainConfig,
    /// Which image slots are outstanding between acquire and present.
    pub acquired: Vec<bool>,
    /// Whether the instance is Active; discard clears this for good.
    pub alive: bool,
}

impl VkSwapchain {
    /// The structural invariant: the in-flight count and the bookkeeping
    /// both match the image set.
    pub open spec fn wf(self) -> bool {
        &&& self.frame_in_flight == self.images@.len()
        &&& self.acquired@.len() == self.images@.len()
    }

    /// Whether the instance is Active and well formed: the precondition of
    /// every acquire, present, rebuild and discard call.
    pub open spec fn usable(self) -> bool {
        self.alive && self.wf()
    }

    /// Everything but the outstanding-image marks is unchanged.
    pub open spec fn same_except_marks(pre: VkSwapchain, post: VkSwapchain) -> bool {
        &&& post.handle == pre.handle
        &&& post.present_queue == pre.present_queue
        &&& post.images@ == pre.images@
        &&& post.backend_format == pre.backend_format
        &&& post.dimension == pre.dimension
        &&& post.frame_in_flight == pre.frame_in_flight
        &&& post.image_acquire_time == pre.image_acquire_time
        &&& post.config == pre.config
        &&& post.alive == pre.alive
    }

    /// Negotiate a creation request against one queried snapshot of the
    /// surface: select the present queue, the format pairing, the
    /// capability-derived fields and the present mode, or fail with the
    /// reason the surface is incompatible. Nothing is allocated here.
    pub fn plan(
        props: &SurfaceProperties,
        config: &SwapchainConfig,
        surface: u64,
        dimension: Extent2D,
        old_chain: Option<u64>,
    ) -> (r: VkResult<SwapchainPlan>)
        requires
            props.capabilities.min_image_count < u32::MAX,
        ensures
            r is Ok <==> (props.queue_presentable && props.formats@.len() > 0
                && props.present_modes@.len() > 0),
            r matches Ok(p) ==> plan_resolves(
                p,
                *props,
                *config,
                surface,
                dimension,
                (match old_chain {
                    Some(h) => h,
                    None => 0,
                }),
            ),
            r matches Err(e) ==> e.kind is UnSupport,
    {
        let present_queue = match query_present_queue(
            &props.graphics_queue,
            props.queue_presentable,
        ) {
            Some(q) => q,
            None => {
                // the surface is incompatible: no queue can present to it
                return Err(VkError::unsupported("Graphics queue presentation to the surface"));
            },
        };
        let swapchain_format = match query_optimal_format(&props.formats) {
            Ok(f) => f,
            Err(e) => {
                return Err(e);
            },
        };
        let capability = query_swapchain_capability(&props.capabilities, dimension);
        let present_mode = match query_optimal_present_mode(&props.present_modes, config) {
            Ok(m) => m,
            Err(e) => {
                return Err(e);
            },
        };
        let ci = SwapchainCI {
            surface,
            min_image_count: capability.desired_image_count,
            image_format: swapchain_format.color_format,
            image_color_space: swapchain_format.color_space,
            image_extent: capability.swapchain_extent,
            image_array_layers: 1,
            image_usage: capability.support_usage,
            image_sharing_mode: SHARING_MODE_EXCLUSIVE,
            pre_transform: capability.pre_transform,
            composite_alpha: capability.composite_alpha,
            present_mode,
            clipped: true,
            old_swapchain: match old_chain {
                Some(h) => h,
                None => 0,
            },
        };
        Ok(SwapchainPlan { ci, present_queue, config: *config })
    }

    /// Assemble an Active instance from a negotiation outcome and the chain
    /// the backend constructed from it: the chain handle and the fully
    /// built, view-carrying image set. No image is outstanding yet.
    pub fn build(plan: &SwapchainPlan, handle: u64, images: Vec<SwapchainImage>) -> (r: VkSwapchain)
        ensures
            r.usable(),
            r.alive,
            r.handle == handle,
            r.present_queue == plan.present_queue,
            r.images@ == images@,
            r.backend_format == plan.ci.image_format,
            r.dimension == plan.ci.image_extent,
            r.frame_in_flight == images@.len(),
            r.image_acquire_time == plan.config.image_acquire_time.nanos(),
            r.config == plan.config,
            r.acquired@.len() == images@.len(),
            forall|i: int| 0 <= i < r.acquired@.len() ==> !r.acquired@[i],
    {
        let frame_in_flight = images.len();
        let mut acquired: Vec<bool> = Vec::new();
        while acquired.len() < frame_in_flight
            invariant
                acquired@.len() <= frame_in_flight,
                forall|i: int| 0 <= i < acquired@.len() ==> !acquired@[i],
            decreases frame_in_flight - acquired.len(),
        {
            acquired.push(false);
        }
        VkSwapchain {
            handle,
            present_queue: plan.present_queue,
            images,
            backend_format: plan.ci.image_format,
            dimension: plan.ci.image_extent,
            frame_in_flight,
            image_acquire_time: plan.config.image_acquire_time.as_nanos(),
            config: plan.config,
            acquired,
            alive: true,
        }
    }

    /// Ask for the next presentable image: interpret the backend's response
    /// to the acquire request and record a handed-out image as outstanding.
    /// A suboptimal signal is an error the caller should schedule a rebuild
    /// for; the slot is nevertheless consumed, since the backend did hand
    /// the image out.
    pub fn next_image(&mut self, event: AcquireEvent) -> (r: Result<u32, SwapchainSyncError>)
        requires
            old(self).usable(),
        ensures
            final(self).usable(),
            Self::same_except_marks(*old(self), *final(self)),
            r == acquire_result(old(self).acquired@, event),
            final(self).acquired@ == acquire_marks(old(self).acquired@, event),
            r matches Ok(i) ==> (i < old(self).frame_in_flight && !old(self).acquired@[i as int]
                && final(self).acquired@[i as int]),
    {
        match event {
            AcquireEvent::TimedOut => Err(SwapchainSyncError::TimeOut),
            AcquireEvent::OutOfDate => Err(SwapchainSyncError::SurfaceOutDate),
            AcquireEvent::Failed => Err(SwapchainSyncError::Unknown),
            AcquireEvent::Ready { image_index, suboptimal } => {
                let idx = image_index as usize;
                if idx < self.acquired.len() && !self.acquired[idx] {
                    self.acquired.set(idx, true);
                    if suboptimal {
                        Err(SwapchainSyncError::SubOptimal)
                    } else {
                        Ok(image_index)
                    }
                } else {
                    Err(SwapchainSyncError::Unknown)
                }
            },
        }
    }

    /// Queue an outstanding image for display on the present queue, after
    /// the caller's wait semaphores: interpret the backend's response and
    /// free the slot once the backend took the image. Presenting an image
    /// that is not outstanding is a caller error, ruled out here.
    pub fn present(&mut self, image_index: u32, event: PresentEvent) -> (r: Result<
        (),
        SwapchainSyncError,
    >)
        requires
            old(self).usable(),
            image_index < old(self).frame_in_flight,
            old(self).acquired@[image_index as int],
        ensures
            final(self).usable(),
            Self::same_except_marks(*old(self), *final(self)),
            r == present_result(event),
            final(self).acquired@ == present_marks(old(self).acquired@, image_index, event),
    {
        match event {
            PresentEvent::Done { suboptimal } => {
                let idx = image_index as usize;
                self.acquired.set(idx, false);
                if suboptimal {
                    Err(SwapchainSyncError::SubOptimal)
                } else {
                    Ok(())
                }
            },
            PresentEvent::Failed => Err(SwapchainSyncError::Unknown),
        }
    }

    /// Re-negotiate against the same surface for a rebuild, with the
    /// existing chain handle as the backend's reuse hint. The instance is
    /// not touched: a failed re-negotiation leaves it exactly as it stands,
    /// still usable for acquire and present.
    pub fn rebuild_plan(
        &self,
        props: &SurfaceProperties,
        surface: u64,
        dimension: Extent2D,
    ) -> (r: VkResult<SwapchainPlan>)
        requires
            self.usable(),
            props.capabilities.min_image_count < u32::MAX,
        ensures
            r is Ok <==> (props.queue_presentable && props.formats@.len() > 0
                && props.present_modes@.len() > 0),
            r matches Ok(p) ==> plan_resolves(
                p,
                *props,
                self.config,
                surface,
                dimension,
                self.handle,
            ),
            r matches Err(e) ==> e.kind is UnSupport,
    {
        Self::plan(props, &self.config, surface, dimension, Some(self.handle))
    }

    /// Replace the live chain with the outcome of a rebuild. `outcome` is
    /// what the backend made of the rebuild plan: a fully constructed chain
    /// handle and image set, or nothing when any part of the construction
    /// failed. Failure leaves the instance exactly as it was, still usable;
    /// success installs the new chain with no image outstanding and returns
    /// the superseded chain's resources, to be released exactly once.
    pub fn rebuild(&mut self, plan: &SwapchainPlan, outcome: Option<(u64, Vec<SwapchainImage>)>) -> (r:
        VkResult<RetiredChain>)
        requires
            old(self).usable(),
        ensures
            outcome is None ==> ((r matches Err(e) && e.kind is Create)
                && *final(self) == *old(self) && final(self).usable()),
            outcome matches Some(parts) ==> {
                &&& (r matches Ok(ret) && retired_from(ret, *old(self)))
                &&& final(self).usable()
                &&& final(self).alive
                &&& final(self).handle == parts.0
                &&& final(self).images@ == parts.1@
                &&& final(self).frame_in_flight == parts.1@.len()
                &&& final(self).backend_format == plan.ci.image_format
                &&& final(self).dimension == plan.ci.image_extent
                &&& final(self).present_queue == plan.present_queue
                &&& final(self).config == plan.config
                &&& final(self).image_acquire_time == plan.config.image_acquire_time.nanos()
                &&& final(self).acquired@.len() == parts.1@.len()
                &&& forall|i: int| 0 <= i < final(self).acquired@.len()
                    ==> !final(self).acquired@[i]
            },
    {
        match outcome {
            None => Err(VkError::create("Swapchain")),
            Some((handle, images)) => {
                let views = view_handles(&self.images);
                let retired = RetiredChain { chain: self.handle, views };
                let fresh = VkSwapchain::build(plan, handle, images);
                *self = fresh;
                Ok(retired)
            },
        }
    }

    /// The number of frames that may be mid-flight.
    pub fn frame_in_flight(&self) -> (r: usize)
        ensures
            r == self.frame_in_flight,
    {
        self.frame_in_flight
    }

    /// Leave the Active state for good: no acquire, present or rebuild may
    /// follow. Returns the native resources to release, every image view
    /// first and the chain handle after them. The caller must ensure no
    /// in-flight backend work still references any image of this instance.
    pub fn discard(&mut self) -> (r: RetiredChain)
        requires
            old(self).usable(),
        ensures
            !final(self).alive,
            !final(self).usable(),
            retired_from(r, *old(self)),
    {
        let views = view_handles(&self.images);
        let retired = RetiredChain { chain: self.handle, views };
        self.alive = false;
        retired
    }
}

/// The creation request for one presentable image's view.
#[derive(Debug, Clone, Copy, PartialEq, Eq, Structural)]
pub struct SwapchainViewCI {
    pub image: u64,
    pub view_type: u32,
    pub format: u32,
    pub aspect_mask: u32,
    pub base_mip_level: u32,
    pub level_count: u32,
    pub base_array_layer: u32,
    pub layer_count: u32,
}

/// The view-creation request for one chain image in the given color format:
/// two-dimensional, a single mip level, a single array layer, color aspect.
pub fn swapchain_view_ci(image: u64, color_format: u32) -> (r: SwapchainViewCI)
    ensures
        r.image == image,
        r.view_type == IMAGE_VIEW_TYPE_2D,
        r.format == color_format,
        r.aspect_mask == IMAGE_ASPECT_COLOR,
        r.base_mip_level == 0,
        r.level_count == 1,
        r.base_array_layer == 0,
        r.layer_count == 1,
{
    SwapchainViewCI {
        image,
        view_type: IMAGE_VIEW_TYPE_2D,
        format: color_format,
        aspect_mask: IMAGE_ASPECT_COLOR,
        base_mip_level: 0,
        level_count: 1,
        base_array_layer: 0,
        layer_count: 1,
    }
}

/// Pair the chain's backend-owned images with the views created for them,
/// preserving the backend's enumeration order. The caller hands in exactly
/// one view per image; when any view creation failed, it must destroy the
/// views already created and never reach this pairing, so that a partially
/// built set is never observable.
pub fn obtain_swapchain_images(image_handles: &Vec<u64>, view_handles: &Vec<u64>) -> (r: Vec<
    SwapchainImage,
>)
    requires
        image_handles@.len() == view_handles@.len(),
    ensures
        r@.len() == image_handles@.len(),
        forall|i: int| 0 <= i < r@.len() ==> (r@[i].image == image_handles@[i] && r@[i].view
            == view_handles@[i]),
{
    let mut result: Vec<SwapchainImage> = Vec::new();
    let mut i: usize = 0;
    while i < image_handles.len()
        invariant
            image_handles@.len() == view_handles@.len(),
            0 <= i <= image_handles@.len(),
            result@.len() == i,
            forall|j: int| 0 <= j < i ==> (result@[j].image == image_handles@[j] && result@[j].view
                == view_handles@[j]),
        decreases image_handles@.len() - i,
    {
        result.push(SwapchainImage { image: image_handles[i], view: view_handles[i] });
        i = i + 1;
    }
    result
}

/// The view handles of an image set, in image order.
fn view_handles(images: &Vec<SwapchainImage>) -> (r: Vec<u64>)
    ensures
        r@.len() == images@.len(),
        forall|i: int| 0 <= i < images@.len() ==> r@[i] == images@[i].view,
{
    let mut views: Vec<u64> = Vec::new();
    let mut i: usize = 0;
    while i < images.len()
        invariant
            0 <= i <= images@.len(),
            views@.len() == i,
            forall|j: int| 0 <= j < i ==> views@[j] == images@[j].view,
        decreases images@.len() - i,
    {
        views.push(images[i].view);
        i = i + 1;
    }
    views
}

/// Law: a discarded instance is terminal — it satisfies the precondition of
/// no acquire, present, rebuild or discard call.
pub proof fn lemma_discarded_unusable(s: VkSwapchain)
    requires
        !s.alive,
    ensures
        !s.usable(),
{
}

// --- the acquire round-trip, over runs of backend responses ---

/// The outstanding-image marks of a freshly built instance with `n` images:
/// none outstanding.
pub open spec fn fresh_marks(n: nat) -> Seq<bool> {
    Seq::new(n, |i: int| false)
}

/// The marks after a whole run of acquire responses, applied in order.
pub open spec fn run_marks(acq: Seq<bool>, events: Seq<AcquireEvent>) -> Seq<bool>
    decreases events.len(),
{
    if events.len() == 0 {
        acq
    } else {
        run_marks(acquire_marks(acq, events[0]), events.drop_first())
    }
}

/// The image indices a run of acquire responses hands out, in order.
pub open spec fn run_ok_indices(acq: Seq<bool>, events: Seq<AcquireEvent>) -> Seq<u32>
    decreases events.len(),
{
    if events.len() == 0 {
        Seq::empty()
    } else {
        let rest = run_ok_indices(acquire_marks(acq, events[0]), events.drop_first());
        match acquire_result(acq, events[0]) {
            Ok(i) => seq![i] + rest,
            Err(_) => rest,
        }
    }
}

/// One acquire step keeps the length of the marks and never clears a mark.
pub proof fn lemma_acquire_marks_monotone(acq: Seq<bool>, ev: AcquireEvent)
    ensures
        acquire_marks(acq, ev).len() == acq.len(),
        forall|j: int| 0 <= j < acq.len() && acq[j] ==> acquire_marks(acq, ev)[j],
{
}

/// The number of free (not outstanding) slots among the marks.
pub open spec fn free_count(acq: Seq<bool>) -> int
    decreases acq.len(),
{
    if acq.len() == 0 {
        0
    } else {
        (if acq.last() {
            0int
        } else {
            1int
        }) + free_count(acq.drop_last())
    }
}

/// The free count is never negative and never exceeds the slot count.
pub proof fn lemma_free_count_bounds(acq: Seq<bool>)
    ensures
        0 <= free_count(acq) <= acq.len(),
    decreases acq.len(),
{
    if acq.len() > 0 {
        lemma_free_count_bounds(acq.drop_last());
    }
}

/// Marking a free slot outstanding takes exactly one slot off the free
/// count.
pub proof fn lemma_free_count_update(acq: Seq<bool>, i: int)
    requires
        0 <= i < acq.len(),
        !acq[i],
    ensures
        free_count(acq.update(i, true)) == free_count(acq) - 1,
    decreases acq.len(),
{
    let upd = acq.update(i, true);
    if i == acq.len() - 1 {
        assert(upd.drop_last() =~= acq.drop_last());
    } else {
        assert(upd.drop_last() =~= acq.drop_last().update(i, true));
        lemma_free_count_update(acq.drop_last(), i);
    }
}

/// With no slot free, every mark is set; and with every mark set, no slot
/// is free.
pub proof fn lemma_free_count_zero(acq: Seq<bool>)
    ensures
        free_count(acq) == 0 <==> (forall|j: int| 0 <= j < acq.len() ==> acq[j]),
    decreases acq.len(),
{
    if acq.len() > 0 {
        lemma_free_count_zero(acq.drop_last());
        lemma_free_count_bounds(acq.drop_last());
        assert(forall|j: int| 0 <= j < acq.len() - 1 ==> acq[j] == acq.drop_last()[j]);
    }
}

/// The marks of a fresh instance are all free.
pub proof fn lemma_fresh_marks_free(n: nat)
    ensures
        fresh_marks(n).len() == n,
        free_count(fresh_marks(n)) == n,
        forall|j: int| 0 <= j < n ==> !fresh_marks(n)[j],
    decreases n,
{
    if n > 0 {
        lemma_fresh_marks_free((n - 1) as nat);
        assert(fresh_marks(n).drop_last() =~= fresh_marks((n - 1) as nat));
    }
}

/// Law: over any run of backend responses, the handed-out image indices are
/// pairwise distinct, lie within the image set, and each names a slot that
/// was free when the run began; and the run hands out at most as many
/// images as there were free slots.
pub proof fn lemma_run_ok_indices(acq: Seq<bool>, events: Seq<AcquireEvent>)
    ensures
        run_marks(acq, events).len() == acq.len(),
        run_ok_indices(acq, events).len() + free_count(run_marks(acq, events)) <= free_count(acq)
            + events.len(),
        run_ok_indices(acq, events).len() <= free_count(acq),
        forall|k: int| 0 <= k < run_ok_indices(acq, events).len() ==> (run_ok_indices(acq, events)[k]
            < acq.len() && !acq[run_ok_indices(acq, events)[k] as int]),
        forall|k1: int, k2: int| 0 <= k1 < k2 < run_ok_indices(acq, events).len()
            ==> run_ok_indices(acq, events)[k1] != run_ok_indices(acq, events)[k2],
    decreases events.len(),
{
    lemma_free_count_bounds(acq);
    if events.len() > 0 {
        let ev = events[0];
        let stepped = acquire_marks(acq, ev);
        let rest = events.drop_first();
        lemma_acquire_marks_monotone(acq, ev);
        lemma_run_ok_indices(stepped, rest);
        lemma_free_count_bounds(stepped);
        let oks = run_ok_indices(acq, events);
        let rest_oks = run_ok_indices(stepped, rest);
        match acquire_result(acq, ev) {
            Ok(i) => {
                assert(stepped == acq.update(i as int, true));
                lemma_free_count_update(acq, i as int);
                assert(oks == seq![i] + rest_oks);
                assert(oks[0] == i);
                assert forall|k: int| 1 <= k < oks.len() implies (oks[k] != i && oks[k] < acq.len()
                    && !acq[oks[k] as int]) by {
                    assert(oks[k] == rest_oks[k - 1]);
                    assert(rest_oks[k - 1] < stepped.len() && !stepped[rest_oks[k - 1] as int]);
                    assert(stepped[i as int]);
                }
            },
            Err(_) => {
                if stepped != acq {
                    // a suboptimal hand-out: one free slot was consumed
                    match ev {
                        AcquireEvent::Ready { image_index, .. } => {
                            lemma_free_count_update(acq, image_index as int);
                        },
                        _ => {},
                    }
                }
                assert(oks == rest_oks);
                assert forall|k: int| 0 <= k < oks.len() implies (oks[k] < acq.len()
                    && !acq[oks[k] as int]) by {
                    assert(rest_oks[k] < stepped.len() && !stepped[rest_oks[k] as int]);
                }
            },
        }
    }
}

/// Law: a fresh instance with `n` images hands out at most `n` image
/// indices over any run of backend responses, all pairwise distinct and all
/// within `[0, n)` — the acquire round-trip of a freshly built chain.
pub proof fn lemma_fresh_acquire_round_trip(n: nat, events: Seq<AcquireEvent>)
    ensures
        run_ok_indices(fresh_marks(n), events).len() <= n,
        forall|k: int| 0 <= k < run_ok_indices(fresh_marks(n), events).len() ==> run_ok_indices(
            fresh_marks(n),
            events,
        )[k] < n,
        forall|k1: int, k2: int| 0 <= k1 < k2 < run_ok_indices(fresh_marks(n), events).len()
            ==> run_ok_indices(fresh_marks(n), events)[k1] != run_ok_indices(fresh_marks(n), events)[k2],
{
    lemma_fresh_marks_free(n);
    lemma_run_ok_indices(fresh_marks(n), events);
}

/// Law: once every slot is outstanding, no backend response can make an
/// acquire succeed — the instance supports no further hand-out until an
/// image is presented or the chain is rebuilt.
pub proof fn lemma_acquire_exhausted(acq: Seq<bool>, ev: AcquireEvent)
    requires
        forall|j: int| 0 <= j < acq.len() ==> acq[j],
    ensures
        acquire_result(acq, ev) is Err,
{
}

} // verus!
