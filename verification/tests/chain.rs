use rust_reverb::chain::{
    frame_inputs, mix_frame, ChannelLayoutError, ConfigurationError, FrameShape, SignalChain,
};
use rust_reverb::params::BlockParams;

fn quiet_chain(pre_delay_ms: i32, sample_rate: u32) -> SignalChain<f64> {
    SignalChain::new(pre_delay_ms, 100, sample_rate, 0.0, 1.0, 0.5, 0.5, 0.0, 0.5)
}

fn constant_candidates(v: f64) -> BlockParams<f64> {
    BlockParams { wet: v, dry: v, room_size: v, stereo_width: v, damping: v }
}

#[test]
fn stereo_frame_passes_both_channels() {
    let r = frame_inputs(Some(0.2), Some(0.4), 0.0);
    assert_eq!(r, Ok(((0.2, 0.4), FrameShape::Stereo)));
}

#[test]
fn mono_frame_zero_fills_the_right_channel() {
    let r = frame_inputs(Some(0.2), None, 0.0);
    assert_eq!(r, Ok(((0.2, 0.0), FrameShape::Mono)));
}

#[test]
fn empty_frame_is_an_unsupported_layout() {
    let r: Result<((f64, f64), FrameShape), ChannelLayoutError> = frame_inputs(None, None, 0.0);
    assert_eq!(r, Err(ChannelLayoutError));
    let r: Result<((f64, f64), FrameShape), ChannelLayoutError> =
        frame_inputs(None, Some(0.4), 0.0);
    assert_eq!(r, Err(ChannelLayoutError));
}

#[test]
fn predelay_passes_through_at_length_zero() {
    let mut chain = quiet_chain(0, 44100);
    assert_eq!(chain.delay.length(), 0);
    assert_eq!(chain.predelay((0.3, -0.7)), (0.3, -0.7));
    assert_eq!(chain.delay.head, 0);
}

#[test]
fn predelay_passes_through_at_length_one() {
    // 1 ms at 1000 samples per second: an active length of one sample.
    let mut chain = quiet_chain(1, 1000);
    assert_eq!(chain.delay.length(), 1);
    let buf_before = chain.delay.buf.clone();
    assert_eq!(chain.predelay((0.9, 0.1)), (0.9, 0.1));
    assert_eq!(chain.delay.buf, buf_before);
}

#[test]
fn predelay_delays_at_longer_lengths() {
    // 2 ms at 1000 samples per second: two samples of history.
    let mut chain = quiet_chain(2, 1000);
    assert_eq!(chain.delay.length(), 2);
    assert_eq!(chain.predelay((1.0, 2.0)), (0.0, 0.0));
    assert_eq!(chain.predelay((3.0, 4.0)), (0.0, 0.0));
    assert_eq!(chain.predelay((5.0, 6.0)), (1.0, 2.0));
    assert_eq!(chain.predelay((7.0, 8.0)), (3.0, 4.0));
}

#[test]
fn stereo_mix_combines_per_channel() {
    // Dry gain of 0.5, a reverb stub producing (1.0, 1.0), and no pre-delay:
    // the input frame (0.2, 0.4) must come out as (1.1, 1.2).
    let mut chain = quiet_chain(0, 44100);
    let dry_gain = 0.5;
    let (input, shape) = frame_inputs(Some(0.2), Some(0.4), 0.0).unwrap();
    let wet = (1.0, 1.0); // stubbed reverb output
    let delayed = chain.predelay(wet);
    assert_eq!(delayed, wet);
    let out = mix_frame(delayed, input, shape, |d: f64, x: f64| d + x * dry_gain);
    assert_eq!(out.0, 1.1);
    assert_eq!(out.1, Some(1.2));
}

#[test]
fn mono_mix_produces_only_the_left_channel() {
    let mut chain = quiet_chain(0, 44100);
    let dry_gain = 0.5;
    let (input, shape) = frame_inputs(Some(0.2), None, 0.0).unwrap();
    let delayed = chain.predelay((1.0, 1.0));
    let out = mix_frame(delayed, input, shape, |d: f64, x: f64| d + x * dry_gain);
    assert_eq!(out.0, 1.1);
    assert_eq!(out.1, None);
}

#[test]
fn apply_parameters_resizes_the_delay_line() {
    let mut chain = quiet_chain(0, 44100);
    chain.params.set_pre_delay_ms(50);
    let r = chain.apply_parameters(constant_candidates(0.5));
    assert!(r.is_ok());
    assert_eq!(chain.delay.length(), 2205);
    assert_eq!(chain.delay.head, 0);
}

#[test]
fn apply_parameters_propagates_the_configuration_error() {
    let mut chain = quiet_chain(0, 44100);
    chain.params.set_pre_delay_ms(50);
    assert!(chain.apply_parameters(constant_candidates(0.5)).is_ok());
    // Dirty the line, then request more than the allocation can hold.
    chain.predelay((1.0, 2.0));
    let length_before = chain.delay.length();
    let head_before = chain.delay.head;
    let buf_before = chain.delay.buf.clone();
    chain.params.set_pre_delay_ms(200);
    let r = chain.apply_parameters(constant_candidates(0.5));
    assert_eq!(r, Err(ConfigurationError));
    assert_eq!(chain.delay.length(), length_before);
    assert_eq!(chain.delay.head, head_before);
    assert_eq!(chain.delay.buf, buf_before);
}

#[test]
fn apply_parameters_converges_to_the_requested_targets() {
    // 10 ms at 1000 samples per second: ten smoothing steps per control.
    let mut chain = quiet_chain(0, 1000);
    chain.params.set_wet_target(2.0);
    chain.params.set_dry_target(0.0);
    assert_eq!(chain.params.wet.steps_left, 10);
    let mut last = constant_candidates(0.0);
    for _ in 0..10 {
        last = chain.apply_parameters(constant_candidates(0.25)).unwrap();
    }
    assert_eq!(last.wet, 2.0);
    assert_eq!(last.dry, 0.0);
    assert_eq!(chain.params.wet.current, 2.0);
    assert_eq!(chain.params.wet.steps_left, 0);
}
