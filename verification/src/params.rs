//! The plugin's control parameters: five smoothed reverb controls and the
//! non-smoothed pre-delay time. The store pairs each control with the
//! smoothing law suited to it — log-gain
//! smoothing for the wet and dry gains, linear smoothing for room size and
//! stereo width, exponential smoothing for damping — and advances all of
//! them once per audio block.

use crate::smoothing::{spec_advance, Smoother, SmoothingKind};
use vstd::prelude::*;

verus! {

/// Smoothing window, in milliseconds, shared by every smoothed control.
pub const SMOOTHING_TIME_MS: u32 = 10;

/// The per-block values pulled out of the store: everything the reverb
/// engine and the mixing stage consume for one audio block.
#[derive(Clone, Copy, Debug, PartialEq)]
pub struct BlockParams<T> {
    pub wet: T,
    pub dry: T,
    pub room_size: T,
    pub stereo_width: T,
    pub damping: T,
}

/// Current and target values for every control of the effect, plus the
/// sample rate that turns smoothing windows into step counts.
pub struct ParameterStore<T> {
    /// Gain for the processed (reverberated) signal.
    pub wet: Smoother<T>,
    /// Gain for the unprocessed signal.
    pub dry: Smoother<T>,
    /// Size of the emulated room.
    pub room_size: Smoother<T>,
    /// How far the two output channels are decorrelated.
    pub stereo_width: Smoother<T>,
    /// High-frequency absorption of the emulated room.
    pub damping: Smoother<T>,
    /// Pre-delay time in milliseconds. Deliberately not smoothed: resizing
    /// the delay buffer at audio rate is unsafe, so changes take effect only
    /// at block boundaries.
    pub pre_delay_ms: i32,
    /// Samples per second; recomputed smoothing windows use it.
    pub sample_rate: u32,
}

impl<T: Copy> ParameterStore<T> {
    /// Well-formedness: the pre-delay time is never negative.
    pub open spec fn wf(&self) -> bool {
        0 <= self.pre_delay_ms
    }

    /// A settled store: every control already sits at the given initial
    /// value, with the smoothing law the effect defines for it.
    pub fn new(sample_rate: u32, wet: T, dry: T, room_size: T, stereo_width: T, damping: T) -> (r:
        ParameterStore<T>)
        ensures
            r.wf(),
            r.sample_rate == sample_rate,
            r.pre_delay_ms == 0,
            r.wet.kind == SmoothingKind::Logarithmic(SMOOTHING_TIME_MS),
            r.dry.kind == SmoothingKind::Logarithmic(SMOOTHING_TIME_MS),
            r.room_size.kind == SmoothingKind::Linear(SMOOTHING_TIME_MS),
            r.stereo_width.kind == SmoothingKind::Linear(SMOOTHING_TIME_MS),
            r.damping.kind == SmoothingKind::Exponential(SMOOTHING_TIME_MS),
            r.wet.current == wet && r.wet.target == wet && r.wet.steps_left == 0,
            r.dry.current == dry && r.dry.target == dry && r.dry.steps_left == 0,
            r.room_size.current == room_size && r.room_size.target == room_size
                && r.room_size.steps_left == 0,
            r.stereo_width.current == stereo_width && r.stereo_width.target == stereo_width
                && r.stereo_width.steps_left == 0,
            r.damping.current == damping && r.damping.target == damping && r.damping.steps_left
                == 0,
    {
        ParameterStore {
            wet: Smoother::new(SmoothingKind::Logarithmic(SMOOTHING_TIME_MS), wet),
            dry: Smoother::new(SmoothingKind::Logarithmic(SMOOTHING_TIME_MS), dry),
            room_size: Smoother::new(SmoothingKind::Linear(SMOOTHING_TIME_MS), room_size),
            stereo_width: Smoother::new(SmoothingKind::Linear(SMOOTHING_TIME_MS), stereo_width),
            damping: Smoother::new(SmoothingKind::Exponential(SMOOTHING_TIME_MS), damping),
            pre_delay_ms: 0,
            sample_rate,
        }
    }

    /// Requests a new wet-gain target; smoothing restarts from the value in
    /// effect.
    pub fn set_wet_target(&mut self, target: T)
        ensures
            *final(self) == (ParameterStore {
                wet: Smoother {
                    target,
                    steps_left: old(self).wet.kind.spec_steps(old(self).sample_rate as int) as u64,
                    ..old(self).wet
                },
                ..*old(self)
            }),
    {
        let sample_rate = self.sample_rate;
        self.wet.set_target(target, sample_rate);
    }

    /// Requests a new dry-gain target.
    pub fn set_dry_target(&mut self, target: T)
        ensures
            *final(self) == (ParameterStore {
                dry: Smoother {
                    target,
                    steps_left: old(self).dry.kind.spec_steps(old(self).sample_rate as int) as u64,
                    ..old(self).dry
                },
                ..*old(self)
            }),
    {
        let sample_rate = self.sample_rate;
        self.dry.set_target(target, sample_rate);
    }

    /// Requests a new room-size target.
    pub fn set_room_size_target(&mut self, target: T)
        ensures
            *final(self) == (ParameterStore {
                room_size: Smoother {
                    target,
                    steps_left: old(self).room_size.kind.spec_steps(
                        old(self).sample_rate as int,
                    ) as u64,
                    ..old(self).room_size
                },
                ..*old(self)
            }),
    {
        let sample_rate = self.sample_rate;
        self.room_size.set_target(target, sample_rate);
    }

    /// Requests a new stereo-width target.
    pub fn set_stereo_width_target(&mut self, target: T)
        ensures
            *final(self) == (ParameterStore {
                stereo_width: Smoother {
                    target,
                    steps_left: old(self).stereo_width.kind.spec_steps(
                        old(self).sample_rate as int,
                    ) as u64,
                    ..old(self).stereo_width
                },
                ..*old(self)
            }),
    {
        let sample_rate = self.sample_rate;
        self.stereo_width.set_target(target, sample_rate);
    }

    /// Requests a new damping target.
    pub fn set_damping_target(&mut self, target: T)
        ensures
            *final(self) == (ParameterStore {
                damping: Smoother {
                    target,
                    steps_left: old(self).damping.kind.spec_steps(
                        old(self).sample_rate as int,
                    ) as u64,
                    ..old(self).damping
                },
                ..*old(self)
            }),
    {
        let sample_rate = self.sample_rate;
        self.damping.set_target(target, sample_rate);
    }

    /// Requests a new pre-delay time. It is applied — and validated against
    /// the allocated ceiling — when the next block applies parameters.
    pub fn set_pre_delay_ms(&mut self, pre_delay_ms: i32)
        requires
            0 <= pre_delay_ms,
        ensures
            *final(self) == (ParameterStore { pre_delay_ms, ..*old(self) }),
    {
        self.pre_delay_ms = pre_delay_ms;
    }

    /// Advances every smoothed control one block, taking the caller's
    /// interpolated candidate for each, and returns the values now in
    /// effect.
    pub fn advance_block(&mut self, candidates: BlockParams<T>) -> (r: BlockParams<T>)
        ensures
            final(self).wet == spec_advance(old(self).wet, candidates.wet),
            final(self).dry == spec_advance(old(self).dry, candidates.dry),
            final(self).room_size == spec_advance(old(self).room_size, candidates.room_size),
            final(self).stereo_width == spec_advance(
                old(self).stereo_width,
                candidates.stereo_width,
            ),
            final(self).damping == spec_advance(old(self).damping, candidates.damping),
            final(self).pre_delay_ms == old(self).pre_delay_ms,
            final(self).sample_rate == old(self).sample_rate,
            r.wet == final(self).wet.current,
            r.dry == final(self).dry.current,
            r.room_size == final(self).room_size.current,
            r.stereo_width == final(self).stereo_width.current,
            r.damping == final(self).damping.current,
    {
        let wet = self.wet.advance(candidates.wet);
        let dry = self.dry.advance(candidates.dry);
        let room_size = self.room_size.advance(candidates.room_size);
        let stereo_width = self.stereo_width.advance(candidates.stereo_width);
        let damping = self.damping.advance(candidates.damping);
        BlockParams { wet, dry, room_size, stereo_width, damping }
    }
}

} // verus!
