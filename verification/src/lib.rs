//! Core of a real-time reverb effect: a stereo pre-delay circular buffer with
//! safe live resizing, a parameter-smoothing protocol, and the per-frame
//! dry/wet mixing logic. The library is generic over the sample type, so the
//! index arithmetic, buffer invariants and control decisions are verified
//! independently of the floating-point arithmetic that an audio host performs
//! on the samples themselves.

pub mod chain;
pub mod delay;
pub mod params;
pub mod smoothing;

use vstd::prelude::*;

verus! {

/// Ceiling, in milliseconds, on the configurable pre-delay time.
pub const MAX_PREDELAY_MS: i32 = 100;

} // verus!
