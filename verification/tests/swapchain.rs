use vkbase::surface::{SurfaceCapabilities, SurfaceFormat, SurfaceProperties};
use vkbase::swapchain::{
    obtain_swapchain_images, swapchain_view_ci, AcquireEvent, PresentEvent, SwapchainConfig,
    SwapchainImage, SwapchainPlan, SwapchainSyncError, VkSwapchain,
};
use vkbase::vkdef::{
    Extent2D, VkQueue, VkTimeDuration, COMPOSITE_ALPHA_OPAQUE, FORMAT_B8G8R8A8_UNORM,
    IMAGE_ASPECT_COLOR, IMAGE_USAGE_COLOR_ATTACHMENT, IMAGE_VIEW_TYPE_2D, PRESENT_MODE_FIFO,
    SURFACE_TRANSFORM_IDENTITY,
};

fn props() -> SurfaceProperties {
    SurfaceProperties {
        graphics_queue: VkQueue { handle: 5, family_index: 0 },
        queue_presentable: true,
        formats: vec![SurfaceFormat { format: FORMAT_B8G8R8A8_UNORM, color_space: 9 }],
        present_modes: vec![PRESENT_MODE_FIFO],
        capabilities: SurfaceCapabilities {
            min_image_count: 2,
            max_image_count: 0,
            current_extent: Extent2D { width: 800, height: 600 },
            min_image_extent: Extent2D { width: 1, height: 1 },
            max_image_extent: Extent2D { width: 4096, height: 4096 },
            supported_transforms: SURFACE_TRANSFORM_IDENTITY,
            current_transform: SURFACE_TRANSFORM_IDENTITY,
            supported_composite_alpha: COMPOSITE_ALPHA_OPAQUE,
            supported_usage_flags: IMAGE_USAGE_COLOR_ATTACHMENT,
        },
    }
}

fn plan() -> SwapchainPlan {
    let config =
        SwapchainConfig { present_vsync: false, image_acquire_time: VkTimeDuration::Time(5000) };
    VkSwapchain::plan(&props(), &config, 77, Extent2D { width: 0, height: 0 }, None).unwrap()
}

fn images(n: u64) -> Vec<SwapchainImage> {
    (0..n).map(|i| SwapchainImage { image: 100 + i, view: 200 + i }).collect()
}

fn chain(n: u64) -> VkSwapchain {
    VkSwapchain::build(&plan(), 99, images(n))
}

#[test]
fn build_assembles_the_negotiated_instance() {
    let sc = chain(3);
    assert!(sc.alive);
    assert_eq!(sc.handle, 99);
    assert_eq!(sc.images.len(), 3);
    assert_eq!(sc.frame_in_flight(), 3);
    assert_eq!(sc.backend_format, FORMAT_B8G8R8A8_UNORM);
    assert_eq!(sc.dimension, Extent2D { width: 800, height: 600 });
    assert_eq!(sc.image_acquire_time, 5000);
    assert_eq!(sc.present_queue, VkQueue { handle: 5, family_index: 0 });
    assert!(sc.acquired.iter().all(|a| !a));
}

#[test]
fn acquire_hands_out_each_free_slot_once() {
    // a fresh instance with 3 images supports exactly 3 acquires,
    // with distinct indices, before any slot repeats
    let mut sc = chain(3);
    let mut seen = Vec::new();
    for i in 0..3u32 {
        let r = sc.next_image(AcquireEvent::Ready { image_index: i, suboptimal: false });
        let idx = r.unwrap();
        assert!(idx < 3);
        assert!(!seen.contains(&idx));
        seen.push(idx);
    }
    // every slot is outstanding: no response can make an acquire succeed
    for i in 0..3u32 {
        let r = sc.next_image(AcquireEvent::Ready { image_index: i, suboptimal: false });
        assert_eq!(r, Err(SwapchainSyncError::Unknown));
    }
}

#[test]
fn acquire_maps_each_failure_to_its_kind() {
    let mut sc = chain(2);
    assert_eq!(sc.next_image(AcquireEvent::TimedOut), Err(SwapchainSyncError::TimeOut));
    assert_eq!(sc.next_image(AcquireEvent::OutOfDate), Err(SwapchainSyncError::SurfaceOutDate));
    assert_eq!(sc.next_image(AcquireEvent::Failed), Err(SwapchainSyncError::Unknown));
    // the failures left every slot free
    assert!(sc.acquired.iter().all(|a| !a));
}

#[test]
fn suboptimal_acquire_reports_and_consumes_the_slot() {
    let mut sc = chain(2);
    let r = sc.next_image(AcquireEvent::Ready { image_index: 1, suboptimal: true });
    assert_eq!(r, Err(SwapchainSyncError::SubOptimal));
    // the backend did hand the image out: the slot is no longer free
    let r = sc.next_image(AcquireEvent::Ready { image_index: 1, suboptimal: false });
    assert_eq!(r, Err(SwapchainSyncError::Unknown));
}

#[test]
fn present_frees_the_slot_for_reacquisition() {
    let mut sc = chain(2);
    let idx = sc.next_image(AcquireEvent::Ready { image_index: 0, suboptimal: false }).unwrap();
    assert_eq!(sc.present(idx, PresentEvent::Done { suboptimal: false }), Ok(()));
    // the round trip freed the slot: the same index can be acquired again
    let again = sc.next_image(AcquireEvent::Ready { image_index: 0, suboptimal: false });
    assert_eq!(again, Ok(0));
}

#[test]
fn present_suboptimal_still_queues_the_image() {
    let mut sc = chain(2);
    let idx = sc.next_image(AcquireEvent::Ready { image_index: 0, suboptimal: false }).unwrap();
    let r = sc.present(idx, PresentEvent::Done { suboptimal: true });
    assert_eq!(r, Err(SwapchainSyncError::SubOptimal));
    assert!(!sc.acquired[0]);
}

#[test]
fn present_failure_keeps_the_slot_outstanding() {
    let mut sc = chain(2);
    let idx = sc.next_image(AcquireEvent::Ready { image_index: 0, suboptimal: false }).unwrap();
    let r = sc.present(idx, PresentEvent::Failed);
    assert_eq!(r, Err(SwapchainSyncError::Unknown));
    assert!(sc.acquired[0]);
}

#[test]
fn rebuild_plan_hints_with_the_live_chain() {
    let sc = chain(2);
    let p = sc.rebuild_plan(&props(), 77, Extent2D { width: 10, height: 10 }).unwrap();
    assert_eq!(p.ci.old_swapchain, 99);
    assert_eq!(p.ci.surface, 77);
    assert_eq!(p.config.present_vsync, false);
}

#[test]
fn failed_rebuild_leaves_the_instance_untouched() {
    let mut sc = chain(2);
    let p = sc.rebuild_plan(&props(), 77, Extent2D { width: 10, height: 10 }).unwrap();
    let r = sc.rebuild(&p, None);
    assert!(matches!(r.unwrap_err().kind, vkbase::error::VkErrorKind::Create { .. }));
    // chain handle, extent and image set are exactly as before
    assert_eq!(sc.handle, 99);
    assert_eq!(sc.dimension, Extent2D { width: 800, height: 600 });
    assert_eq!(sc.images.len(), 2);
    assert!(sc.alive);
    // and the instance is still usable for acquire and present
    let idx = sc.next_image(AcquireEvent::Ready { image_index: 0, suboptimal: false }).unwrap();
    assert_eq!(sc.present(idx, PresentEvent::Done { suboptimal: false }), Ok(()));
}

#[test]
fn successful_rebuild_supersedes_and_retires_the_old_chain() {
    let mut sc = chain(2);
    sc.next_image(AcquireEvent::Ready { image_index: 0, suboptimal: false }).unwrap();
    let p = sc.rebuild_plan(&props(), 77, Extent2D { width: 10, height: 10 }).unwrap();
    let retired = sc.rebuild(&p, Some((111, images(3)))).unwrap();
    // the retired resources are the old chain's, views in image order
    assert_eq!(retired.chain, 99);
    assert_eq!(retired.views, vec![200, 201]);
    // the new instance is fully swapped in, with no image outstanding
    assert_eq!(sc.handle, 111);
    assert_eq!(sc.frame_in_flight(), 3);
    assert!(sc.acquired.iter().all(|a| !a));
    assert!(sc.alive);
}

#[test]
fn discard_retires_everything_and_is_terminal() {
    let mut sc = chain(3);
    let retired = sc.discard();
    assert_eq!(retired.chain, 99);
    assert_eq!(retired.views, vec![200, 201, 202]);
    // terminal: no acquire, present or rebuild call is valid any more
    assert!(!sc.alive);
}

#[test]
fn view_ci_is_single_level_2d_color() {
    let ci = swapchain_view_ci(123, FORMAT_B8G8R8A8_UNORM);
    assert_eq!(ci.image, 123);
    assert_eq!(ci.view_type, IMAGE_VIEW_TYPE_2D);
    assert_eq!(ci.format, FORMAT_B8G8R8A8_UNORM);
    assert_eq!(ci.aspect_mask, IMAGE_ASPECT_COLOR);
    assert_eq!(ci.base_mip_level, 0);
    assert_eq!(ci.level_count, 1);
    assert_eq!(ci.base_array_layer, 0);
    assert_eq!(ci.layer_count, 1);
}

#[test]
fn image_pairing_preserves_backend_order() {
    let imgs = vec![10, 11, 12];
    let views = vec![20, 21, 22];
    let set = obtain_swapchain_images(&imgs, &views);
    assert_eq!(set.len(), 3);
    for i in 0..3 {
        assert_eq!(set[i].image, imgs[i]);
        assert_eq!(set[i].view, views[i]);
    }
}

#[test]
fn config_defaults_to_no_vsync_and_infinite_wait() {
    let c = SwapchainConfig::default();
    assert!(!c.present_vsync);
    assert_eq!(c.image_acquire_time, VkTimeDuration::Infinite);
}
