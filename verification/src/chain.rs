//! The signal chain: one parameter store, one stereo pre-delay line, and the
//! per-frame protocol that routes a frame through the reverb engine, the
//! pre-delay, and the dry/wet mix. The reverb engine itself is an external
//! collaborator: the host-side driver calls it between `frame_inputs` and
//! `predelay`, and supplies the per-channel gain arithmetic to `mix_frame`.

use crate::delay::{spec_samples_for_ms, StereoDelay};
use crate::params::{BlockParams, ParameterStore};
use crate::smoothing::spec_advance;
use vstd::prelude::*;

verus! {

/// A requested pre-delay needs more samples than the buffer allocated at
/// construction holds. Recoverable: the change is rejected and the previous
/// configuration stays in force.
#[derive(Clone, Copy, Debug, PartialEq, Eq, Structural)]
pub struct ConfigurationError;

/// A frame offered no usable channel: neither a stereo pair nor a lone left
/// channel. Fatal for the block being processed.
#[derive(Clone, Copy, Debug, PartialEq, Eq, Structural)]
pub struct ChannelLayoutError;

/// How many channels a frame carries, and so how many the mix produces.
#[derive(Clone, Copy, Debug, PartialEq, Eq, Structural)]
pub enum FrameShape {
    Stereo,
    Mono,
}

/// Classifies a frame's channels for the stereo reverb interface: a full
/// pair passes through; a lone left channel is zero-filled (with `fill`) on
/// the right; anything else is an unsupported layout.
pub fn frame_inputs<T: Copy>(left: Option<T>, right: Option<T>, fill: T) -> (r: Result<
    ((T, T), FrameShape),
    ChannelLayoutError,
>)
    ensures
        match (left, right) {
            (Some(l), Some(rt)) => r == Ok::<((T, T), FrameShape), ChannelLayoutError>(
                ((l, rt), FrameShape::Stereo),
            ),
            (Some(l), None) => r == Ok::<((T, T), FrameShape), ChannelLayoutError>(
                ((l, fill), FrameShape::Mono),
            ),
            _ => r == Err::<((T, T), FrameShape), ChannelLayoutError>(ChannelLayoutError),
        },
{
    match (left, right) {
        (Some(l), Some(rt)) => Ok(((l, rt), FrameShape::Stereo)),
        (Some(l), None) => Ok(((l, fill), FrameShape::Mono)),
        _ => Err(ChannelLayoutError),
    }
}

/// The dry/wet mix of one frame: each produced channel combines the delayed
/// wet sample with the dry input sample for that same channel, through the
/// caller's gain arithmetic (`combine(delayed, input)`). A stereo frame
/// produces both channels; a mono frame produces only the left.
pub fn mix_frame<T: Copy, F: Fn(T, T) -> T>(
    delayed: (T, T),
    input: (T, T),
    shape: FrameShape,
    combine: F,
) -> (r: (T, Option<T>))
    requires
        call_requires(combine, (delayed.0, input.0)),
        call_requires(combine, (delayed.1, input.1)),
    ensures
        call_ensures(combine, (delayed.0, input.0), r.0),
        shape == FrameShape::Stereo ==> r.1 is Some && call_ensures(
            combine,
            (delayed.1, input.1),
            r.1.unwrap(),
        ),
        shape == FrameShape::Mono ==> r.1 is None,
{
    let out_left = combine(delayed.0, input.0);
    match shape {
        FrameShape::Stereo => (out_left, Some(combine(delayed.1, input.1))),
        FrameShape::Mono => (out_left, None),
    }
}

/// Everything the effect owns besides the reverb engine: the control values
/// and the pre-delay line, kept at one common sample rate.
pub struct SignalChain<T> {
    pub params: ParameterStore<T>,
    pub delay: StereoDelay<T>,
}

impl<T: Copy> SignalChain<T> {
    /// Well-formedness: both members are well-formed and agree on the
    /// sample rate.
    pub open spec fn wf(&self) -> bool {
        &&& self.params.wf()
        &&& self.delay.wf()
        &&& self.params.sample_rate == self.delay.sample_rate
    }

    /// Builds the chain for one sample rate: a settled parameter store and a
    /// silent pre-delay line sized for `max_delay_ms`, opened at
    /// `pre_delay_ms`.
    pub fn new(
        pre_delay_ms: i32,
        max_delay_ms: i32,
        sample_rate: u32,
        fill: T,
        wet: T,
        dry: T,
        room_size: T,
        stereo_width: T,
        damping: T,
    ) -> (r: SignalChain<T>)
        requires
            0 <= pre_delay_ms,
            0 <= max_delay_ms,
            spec_samples_for_ms(max_delay_ms as int, sample_rate as int) <= usize::MAX,
        ensures
            r.wf(),
            r.params.sample_rate == sample_rate,
            r.params.pre_delay_ms == pre_delay_ms,
            r.params.wet.current == wet && r.params.dry.current == dry,
            r.params.room_size.current == room_size && r.params.stereo_width.current
                == stereo_width,
            r.params.damping.current == damping,
            r.delay.sample_rate == sample_rate,
            r.delay.delay_ms == pre_delay_ms,
            r.delay.head == 0,
            r.delay.fill == (fill, fill),
            r.delay.max_length == spec_samples_for_ms(max_delay_ms as int, sample_rate as int),
            forall|i: int| 0 <= i < r.delay.buf@.len() ==> r.delay.buf@[i] == (fill, fill),
    {
        let mut params = ParameterStore::new(sample_rate, wet, dry, room_size, stereo_width, damping);
        params.set_pre_delay_ms(pre_delay_ms);
        let delay = StereoDelay::new(pre_delay_ms, max_delay_ms, sample_rate, (fill, fill));
        SignalChain { params, delay }
    }

    /// Applies the pending control changes for one audio block: advances
    /// every smoothed control (with the caller's interpolated candidates)
    /// and resizes the pre-delay line to the configured time. Returns the
    /// values the reverb engine and mixer must use for this block, or the
    /// configuration error when the requested pre-delay exceeds the
    /// allocated ceiling — in which case the delay line is left exactly as
    /// it was.
    pub fn apply_parameters(&mut self, candidates: BlockParams<T>) -> (r: Result<
        BlockParams<T>,
        ConfigurationError,
    >)
        requires
            old(self).wf(),
        ensures
            final(self).wf(),
            final(self).params.wet == spec_advance(old(self).params.wet, candidates.wet),
            final(self).params.dry == spec_advance(old(self).params.dry, candidates.dry),
            final(self).params.room_size == spec_advance(
                old(self).params.room_size,
                candidates.room_size,
            ),
            final(self).params.stereo_width == spec_advance(
                old(self).params.stereo_width,
                candidates.stereo_width,
            ),
            final(self).params.damping == spec_advance(
                old(self).params.damping,
                candidates.damping,
            ),
            final(self).params.pre_delay_ms == old(self).params.pre_delay_ms,
            final(self).params.sample_rate == old(self).params.sample_rate,
            r is Ok <==> (old(self).params.pre_delay_ms == old(self).delay.delay_ms
                || spec_samples_for_ms(
                old(self).params.pre_delay_ms as int,
                old(self).delay.sample_rate as int,
            ) <= old(self).delay.max_length),
            r is Ok ==> r.unwrap() == (BlockParams {
                wet: final(self).params.wet.current,
                dry: final(self).params.dry.current,
                room_size: final(self).params.room_size.current,
                stereo_width: final(self).params.stereo_width.current,
                damping: final(self).params.damping.current,
            }),
            r is Err ==> r == Err::<BlockParams<T>, ConfigurationError>(ConfigurationError),
            final(self).delay.max_length == old(self).delay.max_length,
            final(self).delay.sample_rate == old(self).delay.sample_rate,
            final(self).delay.fill == old(self).delay.fill,
            old(self).params.pre_delay_ms == old(self).delay.delay_ms ==> {
                &&& final(self).delay.length == old(self).delay.length
                &&& final(self).delay.head == old(self).delay.head
                &&& final(self).delay.delay_ms == old(self).delay.delay_ms
                &&& final(self).delay.buf@ == old(self).delay.buf@
            },
            (old(self).params.pre_delay_ms != old(self).delay.delay_ms && spec_samples_for_ms(
                old(self).params.pre_delay_ms as int,
                old(self).delay.sample_rate as int,
            ) <= old(self).delay.max_length) ==> {
                &&& final(self).delay.delay_ms == old(self).params.pre_delay_ms
                &&& final(self).delay.length == spec_samples_for_ms(
                    old(self).params.pre_delay_ms as int,
                    old(self).delay.sample_rate as int,
                )
                &&& final(self).delay.head == 0
                &&& forall|i: int|
                    0 <= i < final(self).delay.length ==> final(self).delay.buf@[i] == final(self).delay.fill
            },
            r is Err ==> {
                &&& final(self).delay.length == old(self).delay.length
                &&& final(self).delay.head == old(self).delay.head
                &&& final(self).delay.delay_ms == old(self).delay.delay_ms
                &&& final(self).delay.buf@ == old(self).delay.buf@
            },
    {
        let values = self.params.advance_block(candidates);
        let pre_delay_ms = self.params.pre_delay_ms;
        match self.delay.set_delay(pre_delay_ms) {
            Ok(_) => Ok(values),
            Err(_) => Err(ConfigurationError),
        }
    }

    /// The pre-delay step for one wet frame. A line whose active length is
    /// zero or one cannot hold an audible frame of history, so the sample
    /// passes through untouched; otherwise the frame written `length` calls
    /// ago comes out and `sample` takes its slot.
    pub fn predelay(&mut self, sample: (T, T)) -> (r: (T, T))
        requires
            old(self).wf(),
        ensures
            final(self).wf(),
            final(self).params == old(self).params,
            final(self).delay.length == old(self).delay.length,
            final(self).delay.max_length == old(self).delay.max_length,
            final(self).delay.delay_ms == old(self).delay.delay_ms,
            final(self).delay.sample_rate == old(self).delay.sample_rate,
            final(self).delay.fill == old(self).delay.fill,
            old(self).delay.length <= 1 ==> r == sample && final(self).delay == old(self).delay,
            old(self).delay.length >= 2 ==> {
                &&& r == old(self).delay.buf@[old(self).delay.head as int]
                &&& final(self).delay.buf@ == old(self).delay.buf@.update(
                    old(self).delay.head as int,
                    sample,
                )
                &&& final(self).delay.head as int == (old(self).delay.head + 1) % (
                old(self).delay.length as int)
            },
    {
        let len = self.delay.length();
        if len == 0 || len == 1 {
            sample
        } else {
            let delayed = self.delay.head();
            self.delay.consume(sample);
            delayed
        }
    }
}

} // verus!
