//! Core of a stereo waveshaping effect: threshold-based hard clipping with a
//! gain stage, together with the parameter store that a host manipulates while
//! audio is being processed.
//!
//! Signal amplitudes and control values are fixed-point integers counted in
//! hundredths of a unit, so a full-scale sample is `SCALE` and the smallest
//! admissible clipping threshold is `PARAM_FLOOR` (one hundredth). The host
//! adapter converts between this representation and whatever sample format it
//! uses on the wire.
use vstd::prelude::*;

pub mod info;
pub mod params;
pub mod shaper;
pub mod text;

verus! {

/// Fixed-point units per whole unit of amplitude: every sample and parameter
/// value is an integer number of hundredths.
pub const SCALE: i64 = 100;

/// Smallest value, in hundredths, that the clipping threshold (or amount) may
/// take: one hundredth, which keeps the normalization divisor away from zero.
pub const PARAM_FLOOR: i64 = 1;

/// Largest magnitude, in hundredths, that a stored sample or parameter value
/// may take; writes beyond it are clamped so that the fixed-point arithmetic
/// stays within machine bounds.
pub const VAL_MAX: i64 = 1_000_000_000;

} // verus!
