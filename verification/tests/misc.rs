use vkbase::buffer::BufferCI;
use vkbase::error::{VkError, VkErrorKind};
use vkbase::fps::{FpsCounter, FPS_SAMPLE_COUNT};
use vkbase::transfer::ITransfer;
use vkbase::vkdef::{VkTimeDuration, PIPELINE_BIND_POINT_GRAPHICS, SHARING_MODE_EXCLUSIVE};
use vkbase::vma::{MemoryUsage, VmaAllocationCI};

#[test]
fn fps_counter_starts_empty() {
    let c = FpsCounter::new();
    assert_eq!(c.frame_time_prefer, 16666);
    assert_eq!(c.samples, vec![0; FPS_SAMPLE_COUNT]);
    assert_eq!(c.current_frame, 0);
    assert_eq!(c.delta_frame, 0);
    assert_eq!(c.second_counter, 0);
    assert!(!c.is_tick_second());
}

#[test]
fn tick_frame_records_the_delta_and_advances() {
    let mut c = FpsCounter::new();
    c.tick_frame(16000);
    assert_eq!(c.delta_frame, 16000);
    assert_eq!(c.samples[0], 16000);
    assert_eq!(c.current_frame, 1);
    assert_eq!(c.second_counter, 16000);
}

#[test]
fn tick_frame_wraps_the_sample_window() {
    let mut c = FpsCounter::new();
    for i in 0..FPS_SAMPLE_COUNT as u32 {
        c.tick_frame(1000 + i);
    }
    assert_eq!(c.current_frame, 0);
    assert_eq!(c.samples, vec![1000, 1001, 1002, 1003, 1004]);
    c.tick_frame(9);
    assert_eq!(c.samples[0], 9);
    assert_eq!(c.current_frame, 1);
}

#[test]
fn second_counter_ticks_and_resets() {
    let mut c = FpsCounter::new();
    c.tick_frame(600_000);
    assert!(!c.is_tick_second());
    c.tick_frame(600_000);
    // 1_200_000 accumulated: past one second
    assert!(c.is_tick_second());
    c.tick_frame(5);
    assert_eq!(c.second_counter, 0);
    assert!(!c.is_tick_second());
}

#[test]
fn buffer_ci_builder_sets_one_member_at_a_time() {
    let ci = BufferCI::new(4096);
    assert_eq!(ci.size, 4096);
    assert_eq!(ci.flags, 0);
    assert_eq!(ci.usage, 0);
    assert_eq!(ci.sharing_mode, SHARING_MODE_EXCLUSIVE);
    assert!(ci.queue_families.is_empty());

    let ci = ci.flags(0x2).usage(0x80);
    assert_eq!(ci.size, 4096);
    assert_eq!(ci.flags, 0x2);
    assert_eq!(ci.usage, 0x80);

    let ci = ci.sharing_queues(1, vec![0, 2]);
    assert_eq!(ci.sharing_mode, 1);
    assert_eq!(ci.queue_families, vec![0, 2]);
    assert_eq!(ci.usage, 0x80);
}

#[test]
fn vma_allocation_ci_builder_sets_one_member_at_a_time() {
    let ci = VmaAllocationCI::new(MemoryUsage::GpuOnly, 0x1);
    assert_eq!(ci.usage, MemoryUsage::GpuOnly);
    assert_eq!(ci.required_flags, 0x1);
    assert_eq!(ci.flags, 0);
    assert_eq!(ci.preferred_flags, 0);
    assert_eq!(ci.memory_type_bits, 0);
    assert_eq!(ci.pool, None);
    assert_eq!(ci.user_data, None);

    let ci = ci.flags(0x4).preferred_flags(0x2).accept_memory_types(0xF);
    assert_eq!(ci.flags, 0x4);
    assert_eq!(ci.preferred_flags, 0x2);
    assert_eq!(ci.memory_type_bits, 0xF);
    assert_eq!(ci.usage, MemoryUsage::GpuOnly);

    let ci = ci.with_pool(31).with_user_data(17);
    assert_eq!(ci.pool, Some(31));
    assert_eq!(ci.user_data, Some(17));
    assert_eq!(ci.required_flags, 0x1);
}

#[test]
fn transfer_commands_bind_to_the_graphics_pipeline() {
    let _marker = ITransfer;
    assert_eq!(ITransfer::bind_point(), PIPELINE_BIND_POINT_GRAPHICS);
}

#[test]
fn time_duration_maps_to_raw_nanoseconds() {
    assert_eq!(VkTimeDuration::Immediate.as_nanos(), 0);
    assert_eq!(VkTimeDuration::Time(12345).as_nanos(), 12345);
    assert_eq!(VkTimeDuration::Infinite.as_nanos(), u64::MAX);
}

#[test]
fn error_constructors_tag_their_kind() {
    assert!(matches!(VkError::unlink("a").kind, VkErrorKind::Unlink { target_name: "a" }));
    assert!(matches!(VkError::query("b").kind, VkErrorKind::Query { query_target: "b" }));
    assert!(matches!(VkError::create("c").kind, VkErrorKind::Create { create_target: "c" }));
    assert!(matches!(VkError::unsupported("d").kind, VkErrorKind::UnSupport { feature: "d" }));
    assert!(matches!(VkError::device("e").kind, VkErrorKind::Device { ops_description: "e" }));
    assert!(matches!(VkError::shaderc("f").kind, VkErrorKind::Shaderc { compile_message: "f" }));
    assert!(matches!(VkError::path("g").kind, VkErrorKind::Path { path: "g" }));
    assert!(matches!(
        VkError::unimplemented("h").kind,
        VkErrorKind::Unimplemented { function: "h" }
    ));
    assert!(matches!(VkError::serialize("i").kind, VkErrorKind::Serialize { description: "i" }));
    assert!(matches!(VkError::custom("j").kind, VkErrorKind::Custom { description: "j" }));
    // the accessor hands the kind back
    assert!(matches!(VkError::custom("k").kind(), VkErrorKind::Custom { description: "k" }));
}
