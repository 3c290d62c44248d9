use std::time::{Duration, Instant};

use window_core::pacer::FramePacer;
use window_core::window::CustomWindow;

#[test]
fn no_limit_means_no_frame_duration() {
    let pacer = FramePacer::new();
    assert_eq!(pacer.max_dur_per_frame(), None);
    let window = CustomWindow::new();
    assert_eq!(window.max_dur_per_frame(), None);
}

#[test]
fn limit_is_a_thousand_over_the_rate_in_whole_milliseconds() {
    let mut pacer = FramePacer::new();
    pacer.set_framerate_limit(Some(60));
    assert_eq!(pacer.max_dur_per_frame(), Some(16));
    pacer.set_framerate_limit(Some(1));
    assert_eq!(pacer.max_dur_per_frame(), Some(1000));
    pacer.set_framerate_limit(Some(1000));
    assert_eq!(pacer.max_dur_per_frame(), Some(1));
    pacer.set_framerate_limit(Some(1001));
    assert_eq!(pacer.max_dur_per_frame(), Some(0));
    pacer.set_framerate_limit(Some(u64::MAX));
    assert_eq!(pacer.max_dur_per_frame(), Some(0));
    pacer.set_framerate_limit(None);
    assert_eq!(pacer.max_dur_per_frame(), None);
}

#[test]
fn window_takes_the_limit_of_its_pacer() {
    let mut window = CustomWindow::new();
    window.set_framerate_limit(Some(30));
    assert_eq!(window.max_dur_per_frame(), Some(33));
    window.set_framerate_limit(None);
    assert_eq!(window.max_dur_per_frame(), None);
}

#[test]
fn wait_is_what_is_left_of_the_frame() {
    let mut pacer = FramePacer::new();
    pacer.set_framerate_limit(Some(60));
    assert_eq!(pacer.wait_after(0), Some(16_000_000));
    assert_eq!(pacer.wait_after(6_000_000), Some(10_000_000));
    assert_eq!(pacer.wait_after(15_999_999), Some(1));
    assert_eq!(pacer.wait_after(16_000_000), None);
    assert_eq!(pacer.wait_after(16_000_001), None);
    assert_eq!(pacer.wait_after(u128::MAX), None);
}

#[test]
fn consecutive_frames_are_a_frame_duration_apart() {
    for fps in [1u64, 24, 30, 60, 144, 1000] {
        let mut pacer = FramePacer::new();
        pacer.set_framerate_limit(Some(fps));
        let budget = (1000 / fps) as u128 * 1_000_000;
        for elapsed in [0u128, 1, 500_000, 16_000_000, 999_999_999, 1_000_000_000] {
            let wait = pacer.wait_after(elapsed).unwrap_or(0) as u128;
            assert!(elapsed + wait >= budget);
            if elapsed >= budget {
                assert_eq!(wait, 0);
            }
        }
    }
}

#[test]
fn no_limit_never_waits() {
    let pacer = FramePacer::new();
    assert_eq!(pacer.wait_after(0), None);
    assert_eq!(pacer.wait_after(1_000_000_000), None);
    assert_eq!(pacer.throttle(), None);
    let window = CustomWindow::new();
    assert_eq!(window.throttle(), None);
}

#[test]
fn rate_too_high_for_a_millisecond_never_waits() {
    let mut pacer = FramePacer::new();
    pacer.set_framerate_limit(Some(5000));
    assert_eq!(pacer.wait_after(0), None);
    assert_eq!(pacer.throttle(), None);
}

#[test]
fn throttle_right_after_a_restart_waits_at_most_a_frame() {
    let mut window = CustomWindow::new();
    window.set_framerate_limit(Some(1));
    let mut waits = Vec::new();
    for _ in 0..5 {
        window.restart_clock();
        waits.push(window.throttle());
    }
    assert!(waits.iter().any(|wait| wait.is_some()));
    for nanos in waits.into_iter().flatten() {
        assert!(0 < nanos && nanos <= 1_000_000_000);
    }
    assert!(!window.should_close());
    assert_eq!(window.max_dur_per_frame(), Some(1000));
}

#[test]
fn restart_at_a_moment_measures_from_that_moment() {
    let mut pacer = FramePacer::new();
    pacer.set_framerate_limit(Some(1));
    let long_ago = Instant::now().checked_sub(Duration::from_secs(5));
    if let Some(long_ago) = long_ago {
        pacer.restart_at(long_ago);
        assert_eq!(pacer.throttle(), None);
        assert_eq!(pacer.max_dur_per_frame(), Some(1000));
    }
    let mut waits = Vec::new();
    for _ in 0..5 {
        pacer.restart_at(Instant::now());
        waits.push(pacer.throttle());
    }
    assert!(waits.iter().any(|wait| wait.is_some()));
}
