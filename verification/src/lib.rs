//! Human-friendly formatting of elapsed-time values.
//!
//! A duration (whole seconds plus sub-second nanoseconds) is rendered as a
//! short string such as `"2.05m"`, `"12ms"` or `"1h 1m"`, in one of three
//! styles: one unit with three significant digits, one unit as a whole
//! number, or the two largest units as whole numbers.

pub mod digits;
pub mod duration;

use vstd::prelude::*;
use crate::duration::{Duration, FolkDuration, SignificantUnits, Style, NANOS_PER_SEC};

verus! {

/// Entry point for the formatting helpers.
pub struct Folktime;

impl Folktime {
    /// Wraps an elapsed time for rendering in the default style: the
    /// single active unit with three significant digits.
    pub fn duration(secs: u64, nanos: u32) -> (d: Duration)
        requires
            nanos < NANOS_PER_SEC,
        ensures
            d.secs == secs,
            d.nanos == nanos,
            d.style == Style::FractionalOneUnit,
    {
        Duration::new(secs, nanos)
    }

    /// Wraps an elapsed time for rendering with a chosen number of
    /// significant units.
    pub fn duration_custom(secs: u64, nanos: u32, units: SignificantUnits) -> (d: FolkDuration)
        requires
            nanos < NANOS_PER_SEC,
        ensures
            d.secs == secs,
            d.nanos == nanos,
            d.units == units,
    {
        FolkDuration::new(secs, nanos).with_significant_units(units)
    }
}

} // verus!
