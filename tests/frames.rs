use choam_vk::commands::{instance_layout, InstanceCount, InstanceLayout, SecondaryCommandTable, MAX_INSTANCES};
use choam_vk::engine::Engine;
use choam_vk::error::RenderError;
use choam_vk::frame::{AcquireAction, AcquireOutcome, FrameSync, PresentAction, PresentOutcome, MAX_FRAMES_IN_FLIGHT};
use choam_vk::swapchain::{
    choose_extent, choose_image_count, choose_present_mode, choose_surface_format, plan_swapchain, Extent2D,
    SurfaceCapabilities, SurfaceFormat, SwapchainSupport, COLOR_SPACE_SRGB_NONLINEAR, FORMAT_B8G8R8A8_SRGB,
    PRESENT_MODE_FIFO, PRESENT_MODE_MAILBOX,
};

fn caps(min: u32, max: u32) -> SurfaceCapabilities {
    SurfaceCapabilities {
        min_image_count: min,
        max_image_count: max,
        min_image_extent: Extent2D { width: 16, height: 16 },
        max_image_extent: Extent2D { width: 4096, height: 2048 },
    }
}

fn support() -> SwapchainSupport {
    SwapchainSupport {
        capabilities: caps(2, 8),
        formats: vec![
            SurfaceFormat { format: 44, color_space: COLOR_SPACE_SRGB_NONLINEAR },
            SurfaceFormat { format: FORMAT_B8G8R8A8_SRGB, color_space: COLOR_SPACE_SRGB_NONLINEAR },
        ],
        present_modes: vec![PRESENT_MODE_FIFO, PRESENT_MODE_MAILBOX],
    }
}

#[test]
fn surface_format_preference() {
    let s = support();
    assert_eq!(
        choose_surface_format(&s.formats),
        SurfaceFormat { format: FORMAT_B8G8R8A8_SRGB, color_space: COLOR_SPACE_SRGB_NONLINEAR }
    );
    let other = vec![SurfaceFormat { format: 44, color_space: 1 }, SurfaceFormat { format: FORMAT_B8G8R8A8_SRGB, color_space: 1 }];
    assert_eq!(choose_surface_format(&other), SurfaceFormat { format: 44, color_space: 1 });
}

#[test]
fn present_mode_preference() {
    assert_eq!(choose_present_mode(&vec![PRESENT_MODE_FIFO, PRESENT_MODE_MAILBOX]), PRESENT_MODE_MAILBOX);
    assert_eq!(choose_present_mode(&vec![0, PRESENT_MODE_FIFO]), PRESENT_MODE_FIFO);
    assert_eq!(choose_present_mode(&vec![]), PRESENT_MODE_FIFO);
}

#[test]
fn extent_is_clamped() {
    let c = caps(2, 0);
    assert_eq!(choose_extent(&c, Extent2D { width: 1024, height: 768 }), Extent2D { width: 1024, height: 768 });
    assert_eq!(choose_extent(&c, Extent2D { width: 8000, height: 4 }), Extent2D { width: 4096, height: 16 });
}

#[test]
fn image_count_one_above_minimum() {
    assert_eq!(choose_image_count(&caps(2, 0)), 3);
    assert_eq!(choose_image_count(&caps(2, 8)), 3);
    assert_eq!(choose_image_count(&caps(3, 3)), 3);
    assert_eq!(choose_image_count(&caps(1, 2)), 2);
}

#[test]
fn recreation_twice_gives_same_swapchain() {
    let s = support();
    let window = Extent2D { width: 1024, height: 768 };
    let first = plan_swapchain(&s, window);
    let mut engine = Engine::initialize(first, first.image_count as usize);
    assert_eq!(first.extent, window);
    assert_eq!(first.image_count, 3);
    assert_eq!(first.present_mode, PRESENT_MODE_MAILBOX);

    let again = plan_swapchain(&s, window);
    engine.swapchain_recreated(again, again.image_count as usize);
    let after_one = (engine.plan(), engine.image_count(), engine.current_slot());
    let once_more = plan_swapchain(&s, window);
    engine.swapchain_recreated(once_more, once_more.image_count as usize);
    let after_two = (engine.plan(), engine.image_count(), engine.current_slot());
    assert_eq!(after_one, after_two);
    assert_eq!(after_two.0.extent, window);
    assert_eq!(after_two.1, 3);
}

fn slots_of(sync: &FrameSync) -> Vec<Option<usize>> {
    (0..sync.image_count()).map(|i| sync.image_owner(i)).collect()
}

fn assert_tracking_consistent(sync: &FrameSync) {
    for owner in slots_of(sync).into_iter().flatten() {
        assert!(owner < MAX_FRAMES_IN_FLIGHT);
    }
}

#[test]
fn images_in_flight_track_one_slot_each() {
    let mut sync = FrameSync::new(3);
    assert_eq!(slots_of(&sync), vec![None, None, None]);
    let sequence = [0u32, 1, 2, 0, 1, 1, 2, 0, 2, 2];
    for image in sequence {
        let slot = sync.current_slot();
        let before = sync.image_owner(image as usize);
        let others: Vec<Option<usize>> = slots_of(&sync);
        let action = sync.on_acquire(AcquireOutcome::Acquired(image));
        assert_eq!(action, AcquireAction::Render { image: image as usize, slot, wait_slot: before });
        assert_eq!(sync.image_owner(image as usize), Some(slot));
        for (i, owner) in slots_of(&sync).into_iter().enumerate() {
            if i != image as usize {
                assert_eq!(owner, others[i]);
            }
        }
        assert_tracking_consistent(&sync);
        assert_eq!(sync.on_present(PresentOutcome::Presented), PresentAction::Continue);
        assert_eq!(sync.current_slot(), (slot + 1) % MAX_FRAMES_IN_FLIGHT);
        assert_tracking_consistent(&sync);
    }
}

#[test]
fn acquire_leaves_other_images_alone() {
    let mut sync = FrameSync::new(3);
    sync.on_acquire(AcquireOutcome::Acquired(0));
    sync.on_present(PresentOutcome::Presented);
    sync.on_acquire(AcquireOutcome::Acquired(1));
    sync.on_present(PresentOutcome::Presented);
    // slot 0 again, now on image 2: image 0 keeps its record of slot 0
    let action = sync.on_acquire(AcquireOutcome::Acquired(2));
    assert_eq!(action, AcquireAction::Render { image: 2, slot: 0, wait_slot: None });
    assert_eq!(slots_of(&sync), vec![Some(0), Some(1), Some(0)]);
}

#[test]
fn slot_reuse_waits_on_previous_owner() {
    let mut sync = FrameSync::new(3);
    sync.on_acquire(AcquireOutcome::Acquired(0));
    sync.on_present(PresentOutcome::Presented);
    // slot 1 takes image 0, still tracked by slot 0
    let action = sync.on_acquire(AcquireOutcome::Acquired(0));
    assert_eq!(action, AcquireAction::Render { image: 0, slot: 1, wait_slot: Some(0) });
    assert_eq!(slots_of(&sync), vec![Some(1), None, None]);
}

#[test]
fn out_of_date_acquire_skips_frame_and_recreates_once() {
    let s = support();
    let window = Extent2D { width: 800, height: 600 };
    let plan = plan_swapchain(&s, window);
    let mut engine = Engine::initialize(plan, 3);
    engine.on_acquire(AcquireOutcome::Acquired(1));
    engine.on_present(PresentOutcome::Presented);
    let slot = engine.current_slot();

    let mut recreations = 0;
    let mut submissions = 0;
    match engine.on_acquire(AcquireOutcome::OutOfDate) {
        AcquireAction::Recreate => {
            let rebuilt = plan_swapchain(&s, window);
            engine.swapchain_recreated(rebuilt, 4);
            recreations += 1;
        }
        AcquireAction::Render { .. } => submissions += 1,
        AcquireAction::Fail(_) => panic!("out-of-date is not fatal"),
    }
    assert_eq!(recreations, 1);
    assert_eq!(submissions, 0);
    // The frame slot did not advance, and tracking was reset for the new images.
    assert_eq!(engine.current_slot(), slot);
    assert_eq!(engine.image_count(), 4);
    for i in 0..4 {
        assert_eq!(engine.image_owner(i), None);
    }
    // The next frame proceeds normally.
    assert_eq!(engine.on_acquire(AcquireOutcome::Acquired(3)), AcquireAction::Render { image: 3, slot, wait_slot: None });
}

#[test]
fn acquire_error_is_fatal() {
    let mut sync = FrameSync::new(2);
    assert_eq!(sync.on_acquire(AcquireOutcome::Failed(-4)), AcquireAction::Fail(RenderError::Api(-4)));
    assert_eq!(slots_of(&sync), vec![None, None]);
}

#[test]
fn present_outcomes() {
    let mut sync = FrameSync::new(2);
    assert_eq!(sync.on_present(PresentOutcome::Suboptimal), PresentAction::Recreate);
    assert_eq!(sync.current_slot(), 1);
    assert_eq!(sync.on_present(PresentOutcome::OutOfDate), PresentAction::Recreate);
    assert_eq!(sync.current_slot(), 0);
    assert_eq!(sync.on_present(PresentOutcome::Failed(-3)), PresentAction::Fail(RenderError::Api(-3)));
    assert_eq!(sync.current_slot(), 0);
    sync.notify_resized();
    assert!(sync.resized());
    assert_eq!(sync.on_present(PresentOutcome::Failed(-3)), PresentAction::Fail(RenderError::Api(-3)));
    assert!(sync.resized());
    assert_eq!(sync.current_slot(), 0);
    assert_eq!(sync.on_present(PresentOutcome::Presented), PresentAction::Recreate);
    assert!(!sync.resized());
    assert_eq!(sync.current_slot(), 1);
    assert_eq!(sync.on_present(PresentOutcome::Presented), PresentAction::Continue);
}

#[test]
fn instance_count_grows_table_without_reallocation() {
    let plan = plan_swapchain(&support(), Extent2D { width: 640, height: 480 });
    let mut engine = Engine::initialize(plan, 3);
    assert_eq!(engine.instances(), 1);
    let image = 2;
    let mut next_handle = 100usize;
    let mut record = |engine: &mut Engine| {
        let missing = engine.secondary_shortfall(image);
        let fresh: Vec<usize> = (0..missing).map(|k| next_handle + k).collect();
        next_handle += missing;
        engine.add_secondary_buffers(image, &fresh);
        engine.secondary_buffers(image)
    };
    assert_eq!(record(&mut engine), vec![100]);
    for _ in 0..3 {
        assert!(engine.increase_instances());
        record(&mut engine);
    }
    assert!(!engine.increase_instances());
    assert_eq!(engine.instances(), MAX_INSTANCES);
    let buffers = record(&mut engine);
    assert_eq!(buffers, vec![100, 101, 102, 103]);
    assert_eq!(engine.all_secondary_buffers(image).len(), 4);

    for _ in 0..3 {
        assert!(engine.decrease_instances());
    }
    assert!(!engine.decrease_instances());
    assert_eq!(engine.instances(), 1);
    assert_eq!(record(&mut engine), vec![100]);
    assert_eq!(engine.all_secondary_buffers(image), vec![100, 101, 102, 103]);
    assert!(!engine.set_instance_count(0));
    assert!(!engine.set_instance_count(5));
    assert!(engine.set_instance_count(3));
    assert_eq!(engine.instances(), 3);
}

#[test]
fn instance_count_bounds() {
    let mut c = InstanceCount::new();
    assert_eq!(c.count, 1);
    assert!(!c.decrease());
    assert_eq!(c.count, 1);
    assert!(c.increase() && c.increase() && c.increase());
    assert!(!c.increase());
    assert_eq!(c.count, 4);
}

#[test]
fn secondary_table_rows() {
    let mut t = SecondaryCommandTable::new(2);
    assert_eq!(t.row_len(0), 0);
    assert_eq!(t.row_len(5), 0);
    assert_eq!(t.shortfall(5, 2), 2);
    t.extend(5, &vec![7, 8]);
    assert_eq!(t.row_len(5), 2);
    assert_eq!(t.row_len(3), 0);
    t.extend(5, &vec![9]);
    assert_eq!(t.buffers_for(5, 3), vec![7, 8, 9]);
    assert_eq!(t.shortfall(5, 2), 0);
}

#[test]
fn instance_grid_and_opacity() {
    assert_eq!(instance_layout(0), InstanceLayout { column: 0, row: 0, opacity_quarters: 1 });
    assert_eq!(instance_layout(1), InstanceLayout { column: 1, row: 0, opacity_quarters: 2 });
    assert_eq!(instance_layout(2), InstanceLayout { column: 0, row: 1, opacity_quarters: 3 });
    assert_eq!(instance_layout(3), InstanceLayout { column: 1, row: 1, opacity_quarters: 4 });
}
