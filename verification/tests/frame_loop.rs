//! The frame scheduler and synchronization ring, driven through the
//! scenarios the engine must survive: minimization, resizes, suboptimal and
//! out-of-date reports, and marker-wait timeouts.

use frameflow::scheduler::{AcquireOutcome, PresentOutcome, Scheduler, WaitOutcome};
use frameflow::swapchain::{
    Extent2D, PresentMode, SurfaceCaps, SurfaceFormat, COLOR_SPACE_SRGB_NONLINEAR,
    EXTENT_UNDEFINED, FORMAT_B8G8R8A8_SRGB,
};
use frameflow::sync::{MarkerObs, SyncRing};

fn caps(min_count: u32, max_count: u32) -> SurfaceCaps {
    SurfaceCaps {
        min_image_count: min_count,
        max_image_count: max_count,
        current_extent: Extent2D { width: EXTENT_UNDEFINED, height: EXTENT_UNDEFINED },
        min_image_extent: Extent2D { width: 1, height: 1 },
        max_image_extent: Extent2D { width: 4096, height: 4096 },
    }
}

fn formats() -> Vec<SurfaceFormat> {
    vec![SurfaceFormat { format: FORMAT_B8G8R8A8_SRGB, color_space: COLOR_SPACE_SRGB_NONLINEAR }]
}

fn modes() -> Vec<PresentMode> {
    vec![PresentMode::Fifo, PresentMode::Immediate]
}

#[test]
fn active_slot_after_m_frames_is_m_mod_k() {
    for k in 1..=4usize {
        let mut ring = SyncRing::new(k);
        for m in 0..10usize {
            assert_eq!(ring.current, m % k);
            ring.advance();
        }
    }
}

#[test]
fn fresh_ring_markers_start_signaled() {
    let ring = SyncRing::new(3);
    assert_eq!(ring.slots, vec![MarkerObs::Signaled; 3]);
    assert_eq!(ring.frames_in_flight(), 3);
}

#[test]
fn marker_reset_happens_only_after_observed_signaled() {
    let mut s = Scheduler::new(2);
    // A successful wait observes the marker signaled, then resets it.
    assert!(s.on_marker_wait(WaitOutcome::Signaled));
    assert_eq!(s.ring.slots[0], MarkerObs::Reset);
    assert_eq!(s.ring.slots[1], MarkerObs::Signaled);
    // A timed-out wait leaves every marker untouched and skips the frame.
    s.end_frame();
    let before = s.ring.slots.clone();
    assert!(!s.on_marker_wait(WaitOutcome::TimedOut));
    assert_eq!(s.ring.slots, before);
    assert!(s.needs_resize);
}

#[test]
fn rebuild_image_count_stays_within_surface_bounds() {
    for (min_count, max_count) in [(1u32, 0u32), (2, 3), (3, 3), (2, 0)] {
        let mut s = Scheduler::new(2);
        s.request_resize();
        s.apply_rebuild(&caps(min_count, max_count), &formats(), &modes(), 1280, 720).unwrap();
        let chain = s.chain.unwrap();
        assert!(chain.image_count >= min_count);
        if max_count > 0 {
            assert!(chain.image_count <= max_count);
        }
        assert!(!s.needs_resize);
    }
}

#[test]
fn repeated_resize_requests_collapse_into_one_rebuild() {
    let mut s = Scheduler::new(2);
    s.request_resize();
    s.request_resize();
    s.notify_surface_size(800, 600);
    assert!(s.needs_resize);
    // One rebuild serves all pending requests and clears the flag.
    s.apply_rebuild(&caps(2, 3), &formats(), &modes(), 800, 600).unwrap();
    assert!(!s.needs_resize);
    let first_chain = s.chain.unwrap();
    // Nothing is pending, so the frame loop performs no second rebuild; the
    // chain generation stays as built.
    assert_eq!(s.chain.unwrap(), first_chain);
}

#[test]
fn minimized_to_normal_produces_the_new_extent() {
    let mut s = Scheduler::new(2);
    s.notify_surface_size(0, 0);
    assert!(s.minimized);
    s.notify_surface_size(800, 600);
    assert!(!s.minimized);
    assert!(s.needs_resize);
    s.apply_rebuild(&caps(2, 3), &formats(), &modes(), 800, 600).unwrap();
    let chain = s.chain.unwrap();
    assert_eq!((chain.extent.width, chain.extent.height), (800, 600));
}

#[test]
fn unsupported_mode_name_still_builds_the_chain() {
    // Scenario: two frames in flight, a surface allowing three images, and a
    // present-mode name nobody supports.
    let (mode, recognized) = frameflow::config::parse_present_mode("fasttrack");
    assert_eq!(mode, PresentMode::Immediate);
    assert!(!recognized);
    let mut s = Scheduler::new(2);
    s.request_resize();
    s.apply_rebuild(&caps(2, 3), &formats(), &modes(), 1280, 720).unwrap();
    let chain = s.chain.unwrap();
    assert_eq!(chain.image_count, 3);
    assert_eq!(chain.present_mode, PresentMode::Immediate);
}

#[test]
fn zero_area_surface_parks_the_scheduler_without_a_rebuild() {
    // Scenario: the surface reports a zero current extent.
    let mut s = Scheduler::new(2);
    s.request_resize();
    s.apply_rebuild(&caps(2, 3), &formats(), &modes(), 1280, 720).unwrap();
    let chain_before = s.chain.unwrap();
    let ring_before = (s.ring.current, s.ring.slots.clone());
    s.notify_surface_size(0, 0);
    assert!(s.minimized);
    // The frame loop skips all GPU work while minimized: the rebuild that
    // runs at the boundary sees the zero area, keeps everything and stops.
    s.request_resize();
    s.apply_rebuild(&caps(2, 3), &formats(), &modes(), 0, 0).unwrap();
    assert!(s.minimized);
    assert!(s.needs_resize);
    assert_eq!(s.chain.unwrap(), chain_before);
    assert_eq!((s.ring.current, s.ring.slots.clone()), ring_before);
    // Once a nonzero extent is observed the pending rebuild goes through.
    s.notify_surface_size(640, 480);
    s.apply_rebuild(&caps(2, 3), &formats(), &modes(), 640, 480).unwrap();
    assert!(!s.minimized);
    assert_eq!(s.chain.unwrap().extent.width, 640);
}

#[test]
fn marker_timeout_skips_the_frame_and_rebuilds_next_frame() {
    // Scenario: the bounded marker wait times out once.
    let mut s = Scheduler::new(2);
    s.request_resize();
    s.apply_rebuild(&caps(2, 3), &formats(), &modes(), 1280, 720).unwrap();
    let proceed = s.on_marker_wait(WaitOutcome::TimedOut);
    assert!(!proceed);
    assert!(s.needs_resize);
    // The following frame performs a full chain + ring rebuild before
    // resuming the normal cadence.
    s.end_frame();
    assert_eq!(s.ring.current, 1);
    s.apply_rebuild(&caps(2, 3), &formats(), &modes(), 1280, 720).unwrap();
    assert!(!s.needs_resize);
    assert_eq!(s.ring.current, 0);
    assert_eq!(s.ring.slots, vec![MarkerObs::Signaled; 2]);
    assert!(s.chain.is_some());
}

#[test]
fn acquire_outcomes_drive_the_flags() {
    let mut s = Scheduler::new(2);
    assert!(s.on_acquire(AcquireOutcome::Ready { image_index: 0, suboptimal: false }));
    assert!(!s.needs_resize);
    assert!(s.on_acquire(AcquireOutcome::Ready { image_index: 1, suboptimal: true }));
    assert!(s.needs_resize);
    let mut s = Scheduler::new(2);
    assert!(!s.on_acquire(AcquireOutcome::OutOfDate));
    assert!(s.needs_resize);
    let mut s = Scheduler::new(2);
    assert!(!s.on_acquire(AcquireOutcome::Failed));
    assert!(!s.needs_resize);
}

#[test]
fn present_outcomes_never_fail_the_frame() {
    let mut s = Scheduler::new(2);
    s.on_present(PresentOutcome::Presented { suboptimal: false });
    assert!(!s.needs_resize);
    s.on_present(PresentOutcome::Presented { suboptimal: true });
    assert!(s.needs_resize);
    let mut s = Scheduler::new(2);
    s.on_present(PresentOutcome::OutOfDate);
    assert!(s.needs_resize);
    let mut s = Scheduler::new(2);
    s.on_present(PresentOutcome::Failed);
    assert!(s.needs_resize);
}

#[test]
fn focus_regain_forces_a_full_sync() {
    let mut s = Scheduler::new(3);
    s.notify_focus_regained();
    assert!(s.needs_full_sync);
    s.end_frame();
    s.end_frame();
    assert_eq!(s.ring.current, 2);
    s.run_full_sync();
    assert!(!s.needs_full_sync);
    assert_eq!(s.ring.current, 0);
    assert_eq!(s.ring.slots, vec![MarkerObs::Signaled; 3]);
}

#[test]
fn rebuild_without_formats_reports_the_error_and_keeps_retrying() {
    let mut s = Scheduler::new(2);
    s.request_resize();
    let r = s.apply_rebuild(&caps(2, 3), &vec![], &modes(), 1280, 720);
    assert!(r.is_err());
    assert!(s.chain.is_none());
    // The flag stays set and the failure counts, so the next frame retries
    // and a caller can bound the retries.
    assert!(s.needs_resize);
    assert_eq!(s.rebuild_failures, 1);
    s.apply_rebuild(&caps(2, 3), &formats(), &modes(), 1280, 720).unwrap();
    assert!(s.chain.is_some());
    assert_eq!(s.rebuild_failures, 0);
}
