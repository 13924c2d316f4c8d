use stardust_fields::march::{march_continues, MarchState, MAX_RAY_STEPS};

/// Runs a march, asking `step` for each due step whether the arc length has
/// reached its budget; returns the state and how often `step` was asked.
fn drive(mut step: impl FnMut() -> bool) -> (MarchState, u32) {
    let mut state = MarchState::new();
    let mut calls: u32 = 0;
    while state.is_running() {
        let reached = step();
        calls += 1;
        state.record_step(reached);
    }
    (state, calls)
}

/// A ray along +x through a sphere of `radius` centred at `center`, stepped
/// as sphere tracing does; returns the minimum sample and the arc length at
/// which it was seen alongside the march.
fn sphere_march(start: f32, center: f32, radius: f32) -> (MarchState, f32, f32, f32) {
    let mut x = start;
    let mut length = 0.0f32;
    let mut min_distance = f32::MAX;
    let mut deepest = 0.0f32;
    let (state, _) = drive(|| {
        let d = (x - center).abs() - radius;
        let step = d.clamp(0.001, f32::MAX);
        length += step;
        x += step;
        if min_distance > d {
            deepest = length;
        }
        min_distance = d.min(min_distance);
        !(length < 1000.0)
    });
    (state, min_distance, deepest, length)
}

#[test]
fn fresh_march_is_running() {
    let s = MarchState::new();
    assert_eq!(s.steps(), 0);
    assert!(!s.length_reached());
    assert!(s.is_running());
}

#[test]
fn march_without_length_uses_every_step() {
    let (s, calls) = drive(|| false);
    assert_eq!(s.steps(), MAX_RAY_STEPS);
    assert_eq!(s.steps(), 1000);
    assert!(!s.length_reached());
    assert_eq!(calls, 1000);
}

#[test]
fn march_stops_when_length_runs_out() {
    let mut left = 7u32;
    let (s, calls) = drive(|| {
        left -= 1;
        left == 0
    });
    assert_eq!(s.steps(), 7);
    assert!(s.length_reached());
    assert_eq!(calls, 7);
}

#[test]
fn march_length_on_last_step() {
    let mut left = 1000u32;
    let (s, _) = drive(|| {
        left -= 1;
        left == 0
    });
    assert_eq!(s.steps(), 1000);
    assert!(s.length_reached());
    assert!(!s.is_running());
}

#[test]
fn march_goes_on_through_the_surface() {
    // Starts inside the sphere: the first samples are negative, and the march
    // keeps stepping at the minimum instead of stopping on the hit.
    let (s, min_distance, deepest, _) = sphere_march(0.0, 0.0, 5.0);
    assert_eq!(s.steps(), MAX_RAY_STEPS);
    assert!(!s.length_reached());
    assert_eq!(min_distance, -5.0);
    assert!((deepest - 0.001).abs() < 1e-6);
}

#[test]
fn march_far_from_surface_ends_on_length() {
    let (s, _, _, length) = sphere_march(0.0, -100.0, 1.0);
    assert!(s.length_reached());
    assert!(s.steps() < MAX_RAY_STEPS);
    assert!(length >= 1000.0);
}

#[test]
fn continuation_rule() {
    assert!(march_continues(0, false));
    assert!(march_continues(999, false));
    assert!(!march_continues(1000, false));
    assert!(!march_continues(0, true));
}
