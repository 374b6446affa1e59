//! Parameter smoothing: each control holds the value the audio path uses now
//! and the value last requested by the control surface, and walks from one to
//! the other over a configured time window. The library verifies the
//! smoothing protocol — the countdown, the snap to the target, and
//! convergence after the configured number of steps; the interpolated value
//! for each intermediate step is chosen by the caller according to the
//! smoothing law (constant deltas in linear space, log-gain space, or with
//! exponentially decaying step size), arithmetic the sample type owns.

use crate::delay::spec_samples_for_ms;
use vstd::prelude::*;

verus! {

/// How a parameter walks from its current value to a new target: immediately,
/// or over the given time window (in milliseconds) with linear, log-gain, or
/// exponential-decay interpolation.
#[derive(Clone, Copy, PartialEq, Eq, Structural)]
pub enum SmoothingKind {
    NoSmoothing,
    Linear(u32),
    Logarithmic(u32),
    Exponential(u32),
}

impl SmoothingKind {
    /// The time window of the smoothing law, in milliseconds.
    pub open spec fn spec_time_ms(self) -> int {
        match self {
            SmoothingKind::NoSmoothing => 0,
            SmoothingKind::Linear(ms) => ms as int,
            SmoothingKind::Logarithmic(ms) => ms as int,
            SmoothingKind::Exponential(ms) => ms as int,
        }
    }

    /// How many smoothing steps the window spans at the given sample rate.
    pub open spec fn spec_steps(self, sample_rate: int) -> int {
        spec_samples_for_ms(self.spec_time_ms(), sample_rate)
    }

    /// Computes the number of smoothing steps for this kind at `sample_rate`.
    pub fn steps(self, sample_rate: u32) -> (r: u64)
        ensures
            r == self.spec_steps(sample_rate as int),
    {
        let time_ms: u64 = match self {
            SmoothingKind::NoSmoothing => 0,
            SmoothingKind::Linear(ms) => ms as u64,
            SmoothingKind::Logarithmic(ms) => ms as u64,
            SmoothingKind::Exponential(ms) => ms as u64,
        };
        proof {
            vstd::arithmetic::mul::lemma_mul_upper_bound(
                time_ms as int,
                0xffff_ffff,
                sample_rate as int,
                0xffff_ffff,
            );
        }
        time_ms * (sample_rate as u64) / 1000
    }
}

/// One smoothed control value: the value the audio path reads this block,
/// the target the control surface last asked for, and how many more steps
/// the walk between them may take.
pub struct Smoother<T> {
    /// The smoothing law this control was defined with.
    pub kind: SmoothingKind,
    /// The value in effect for the current audio block.
    pub current: T,
    /// The value most recently requested for this control.
    pub target: T,
    /// Steps remaining before `current` must equal `target`.
    pub steps_left: u64,
}

/// The state a smoother reaches when it advances once, accepting `candidate`
/// as the interpolated value for this step. With one step (or none) left it
/// snaps to the target exactly and stays there; otherwise it adopts the
/// candidate and shortens the countdown. This is exactly the transition
/// `advance` ensures.
pub open spec fn spec_advance<T>(s: Smoother<T>, candidate: T) -> Smoother<T> {
    if s.steps_left <= 1 {
        Smoother { kind: s.kind, current: s.target, target: s.target, steps_left: 0 }
    } else {
        Smoother {
            kind: s.kind,
            current: candidate,
            target: s.target,
            steps_left: (s.steps_left - 1) as u64,
        }
    }
}

/// The smoother state after advancing once per entry of `candidates`.
pub open spec fn spec_run_advances<T>(s: Smoother<T>, candidates: Seq<T>) -> Smoother<T>
    decreases candidates.len(),
{
    if candidates.len() == 0 {
        s
    } else {
        spec_run_advances(spec_advance(s, candidates[0]), candidates.drop_first())
    }
}

/// Convergence: once a smoother has advanced at least as many times as its
/// countdown allowed, its value equals its target exactly — whatever
/// interpolated candidates the steps supplied — and it never drifts off the
/// target afterwards.
pub proof fn lemma_smoothing_converges<T>(s: Smoother<T>, candidates: Seq<T>)
    requires
        candidates.len() >= 1,
        candidates.len() >= s.steps_left,
    ensures
        spec_run_advances(s, candidates).current == s.target,
        spec_run_advances(s, candidates).target == s.target,
        spec_run_advances(s, candidates).steps_left == 0,
    decreases candidates.len(),
{
    let next = spec_advance(s, candidates[0]);
    if candidates.len() == 1 {
        assert(s.steps_left <= 1);
    } else {
        lemma_smoothing_converges(next, candidates.drop_first());
    }
}

impl<T: Copy> Smoother<T> {
    /// A settled smoother: current and target agree and no steps are owed.
    pub fn new(kind: SmoothingKind, initial: T) -> (r: Smoother<T>)
        ensures
            r.kind == kind,
            r.current == initial,
            r.target == initial,
            r.steps_left == 0,
    {
        Smoother { kind, current: initial, target: initial, steps_left: 0 }
    }

    /// Requests a new target, restarting the countdown for the smoothing
    /// window at the given sample rate. The audio path keeps reading the old
    /// current value until the next `advance`.
    pub fn set_target(&mut self, target: T, sample_rate: u32)
        ensures
            final(self).kind == old(self).kind,
            final(self).current == old(self).current,
            final(self).target == target,
            final(self).steps_left == old(self).kind.spec_steps(sample_rate as int),
    {
        let steps = self.kind.steps(sample_rate);
        self.target = target;
        self.steps_left = steps;
    }

    /// Advances one smoothing step and returns the value now in effect:
    /// `candidate` — the caller's interpolation toward the target in the
    /// chosen smoothing domain — while more than one step remains, and the
    /// target itself, exactly, once the countdown runs out.
    pub fn advance(&mut self, candidate: T) -> (r: T)
        ensures
            *final(self) == spec_advance(*old(self), candidate),
            r == final(self).current,
    {
        if self.steps_left <= 1 {
            self.current = self.target;
            self.steps_left = 0;
        } else {
            self.current = candidate;
            self.steps_left = self.steps_left - 1;
        }
        self.current
    }
}

} // verus!
