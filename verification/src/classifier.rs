//! Orientation classification.
//!
//! An acceleration sample is read against gravity: four half-open
//! bands of the (x, y) plane identify which axis points down.  A
//! reading outside every band (the hysteresis dead-zone) keeps the
//! previous orientation, so noisy or mid-tilt samples never make the
//! screen oscillate.
//!
//! Acceleration values are in thousandths of 1 g, so the band edges
//! 0.6 g and 1.1 g are the integers 600 and 1100.

use vstd::prelude::*;
use crate::rotate_screen::Orientation;

verus! {

/// Lower band edge, thousandths of 1 g.
pub const BAND_NEAR_MILLI: i64 = 600;

/// Upper band edge, thousandths of 1 g.
pub const BAND_FAR_MILLI: i64 = 1100;

/// The band, if any, that the reading `(x, y)` falls in; values in
/// thousandths of 1 g.
pub open spec fn spec_band(x: int, y: int) -> Option<Orientation> {
    if -600 <= x < 600 && 600 <= y < 1100 {
        Some(Orientation::D0)
    } else if -1100 <= x < -600 && -600 <= y < 600 {
        Some(Orientation::D90)
    } else if -600 <= x < 600 && -1100 <= y < -600 {
        Some(Orientation::D180)
    } else if 600 <= x < 1100 && -600 <= y < 600 {
        Some(Orientation::D270)
    } else {
        None
    }
}

/// The orientation a sample classifies to: the matched band, or the
/// previous orientation when no band matches.
pub open spec fn spec_classify(x: int, y: int, previous: Orientation) -> Orientation {
    match spec_band(x, y) {
        Some(o) => o,
        None => previous,
    }
}

/// The band the reading falls in, or `None` in the dead-zone.
/// `x` and `y` are in thousandths of 1 g.
pub fn get_orientation_from_accelerometer(x: i64, y: i64) -> (r: Option<Orientation>)
    ensures
        r == spec_band(x as int, y as int),
{
    if -BAND_NEAR_MILLI <= x && x < BAND_NEAR_MILLI && BAND_NEAR_MILLI <= y && y < BAND_FAR_MILLI {
        Some(Orientation::D0)
    } else if -BAND_FAR_MILLI <= x && x < -BAND_NEAR_MILLI && -BAND_NEAR_MILLI <= y && y
        < BAND_NEAR_MILLI {
        Some(Orientation::D90)
    } else if -BAND_NEAR_MILLI <= x && x < BAND_NEAR_MILLI && -BAND_FAR_MILLI <= y && y
        < -BAND_NEAR_MILLI {
        Some(Orientation::D180)
    } else if BAND_NEAR_MILLI <= x && x < BAND_FAR_MILLI && -BAND_NEAR_MILLI <= y && y
        < BAND_NEAR_MILLI {
        Some(Orientation::D270)
    } else {
        None
    }
}

/// Classifies a sample: total over all inputs, never fails.
/// `x` and `y` are in thousandths of 1 g.
pub fn classify(x: i64, y: i64, previous: Orientation) -> (r: Orientation)
    ensures
        r == spec_classify(x as int, y as int, previous),
{
    match get_orientation_from_accelerometer(x, y) {
        Some(o) => o,
        None => previous,
    }
}

/// Hysteresis law: a reading in the dead-zone keeps the previous
/// orientation, whatever that orientation is.
pub proof fn lemma_hysteresis(x: int, y: int, previous: Orientation)
    requires
        spec_band(x, y) is None,
    ensures
        spec_classify(x, y, previous) == previous,
{
}

/// Totality law: classification always yields one of the four
/// orientations — the matched band's, or the previous one.
pub proof fn lemma_classify_total(x: int, y: int, previous: Orientation)
    ensures
        spec_band(x, y) matches Some(o) ==> spec_classify(x, y, previous) == o,
        spec_band(x, y) is None ==> spec_classify(x, y, previous) == previous,
{
}

} // verus!
