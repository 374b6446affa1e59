use rust_reverb::smoothing::{Smoother, SmoothingKind};

#[test]
fn steps_follow_the_window_and_sample_rate() {
    assert_eq!(SmoothingKind::Linear(10).steps(44100), 441);
    assert_eq!(SmoothingKind::Logarithmic(10).steps(1000), 10);
    assert_eq!(SmoothingKind::Exponential(10).steps(1000), 10);
    assert_eq!(SmoothingKind::NoSmoothing.steps(44100), 0);
}

#[test]
fn unsmoothed_control_snaps_on_first_advance() {
    let mut s: Smoother<f64> = Smoother::new(SmoothingKind::NoSmoothing, 0.25);
    s.set_target(0.75, 44100);
    assert_eq!(s.current, 0.25);
    let value = s.advance(0.4);
    assert_eq!(value, 0.75);
    assert_eq!(s.steps_left, 0);
}

#[test]
fn smoothed_control_takes_candidates_then_snaps_to_target() {
    // A 5 ms window at 1000 samples per second: 5 steps.
    let mut s: Smoother<f64> = Smoother::new(SmoothingKind::Linear(5), 0.0);
    s.set_target(1.0, 1000);
    assert_eq!(s.steps_left, 5);
    // A linear walk would hand in equal deltas; the protocol takes the
    // candidate while more than one step remains...
    for k in 1..=4 {
        let candidate = k as f64 * 0.2;
        assert_eq!(s.advance(candidate), candidate);
        assert_eq!(s.target, 1.0);
    }
    // ...and lands on the target exactly, whatever the last candidate is.
    assert_eq!(s.advance(0.999), 1.0);
    assert_eq!(s.current, 1.0);
    assert_eq!(s.steps_left, 0);
    // Converged: further advances stay at the target.
    assert_eq!(s.advance(0.123), 1.0);
}
