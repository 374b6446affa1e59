use rust_reverb::delay::{samples_for_ms, StereoDelay};

#[test]
fn samples_for_ms_matches_formula() {
    assert_eq!(samples_for_ms(50, 44100), 2205);
    assert_eq!(samples_for_ms(25, 44100), 1102);
    assert_eq!(samples_for_ms(0, 44100), 0);
    assert_eq!(samples_for_ms(100, 1), 0);
    assert_eq!(samples_for_ms(1000, 44100), 44100);
}

#[test]
fn construction_scenario() {
    let mut d: StereoDelay<f64> = StereoDelay::new(50, 100, 44100, (0.0, 0.0));
    assert_eq!(d.length(), 2205);
    assert_eq!(d.max_length, 4410);
    assert!(d.set_delay(200).is_err());
    assert_eq!(d.length(), 2205);
    assert!(d.set_delay(25).is_ok());
    assert_eq!(d.length(), 1102);
    assert_eq!(d.head, 0);
}

#[test]
fn construction_clamps_overlong_initial_delay() {
    let d: StereoDelay<f64> = StereoDelay::new(200, 100, 1000, (0.0, 0.0));
    assert_eq!(d.max_length, 100);
    assert_eq!(d.length(), 100);
}

#[test]
fn resize_within_ceiling_succeeds_and_clears() {
    let mut d: StereoDelay<f64> = StereoDelay::new(10, 100, 1000, (0.0, 0.0));
    assert_eq!(d.length(), 10);
    // Dirty the active region so the clearing is observable.
    for i in 0..10 {
        d.consume((i as f64 + 1.0, -(i as f64) - 1.0));
    }
    assert!(d.head > 0 || d.length() == 0 || d.buf[0] != (0.0, 0.0));
    assert!(d.set_delay(50).is_ok());
    assert_eq!(d.length(), 50);
    assert_eq!(d.head, 0);
    for i in 0..50 {
        assert_eq!(d.buf[i], (0.0, 0.0));
    }
}

#[test]
fn resize_beyond_ceiling_rejected_without_mutation() {
    let mut d: StereoDelay<f64> = StereoDelay::new(10, 100, 1000, (0.0, 0.0));
    for i in 0..7 {
        d.consume((i as f64, i as f64 * 2.0));
    }
    let length_before = d.length();
    let head_before = d.head;
    let buf_before = d.buf.clone();
    let result = d.set_delay(200);
    assert_eq!(result, Err("Buffer too small for requested delay"));
    assert_eq!(d.length(), length_before);
    assert_eq!(d.head, head_before);
    assert_eq!(d.buf, buf_before);
}

#[test]
fn set_delay_with_current_value_is_a_noop() {
    let mut d: StereoDelay<f64> = StereoDelay::new(10, 100, 1000, (0.0, 0.0));
    for i in 0..4 {
        d.consume((0.5 + i as f64, 0.25));
    }
    let length_before = d.length();
    let head_before = d.head;
    let buf_before = d.buf.clone();
    assert!(d.set_delay(10).is_ok());
    assert_eq!(d.length(), length_before);
    assert_eq!(d.head, head_before);
    assert_eq!(d.buf, buf_before);
}

#[test]
fn written_samples_come_back_after_exactly_length_reads() {
    // Active length of 3 samples: 3 ms at 1000 samples per second.
    let mut d: StereoDelay<f64> = StereoDelay::new(3, 10, 1000, (0.0, 0.0));
    assert_eq!(d.length(), 3);
    let written: Vec<(f64, f64)> = (1..=9).map(|i| (i as f64, 10.0 * i as f64)).collect();
    let mut read_back = Vec::new();
    for &sample in &written {
        read_back.push(d.head());
        d.consume(sample);
    }
    // The first `length` reads see the zero-initialized slots...
    for i in 0..3 {
        assert_eq!(read_back[i], (0.0, 0.0));
    }
    // ...and from then on each read reproduces the sample written
    // exactly `length` calls earlier.
    for i in 3..9 {
        assert_eq!(read_back[i], written[i - 3]);
    }
}
