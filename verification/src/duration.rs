//! Duration values, formatting styles, and the shared unit ladder.
//!
//! A duration is a pair of whole seconds (`u64`) and sub-second nanoseconds
//! (`u32`, always below one second's worth).  The ladder of time units runs
//! from nanoseconds up to gigayears; every renderer selects units from this
//! one table, so the boundary arithmetic is stated once, here.

pub mod one_unit_three_digits;
pub mod one_unit_whole;
pub mod two_units_whole;

use vstd::prelude::*;
use crate::digits::dec_rep;
use crate::duration::one_unit_three_digits::three_digit_text;
use crate::duration::one_unit_whole::whole_text;
use crate::duration::two_units_whole::two_unit_text;

verus! {

/// Seconds in a minute.
pub const MIN: u64 = 60;

/// Seconds in an hour.
pub const HOUR: u64 = 60 * MIN;

/// Seconds in a day.
pub const DAY: u64 = 24 * HOUR;

/// Seconds in a week.
pub const WEEK: u64 = 7 * DAY;

/// Seconds in a month: one twelfth of the Julian astronomical year,
/// rounded up.
pub const MONTH: u64 = 2_629_846;

/// Seconds in a Julian astronomical year, rounded up.
pub const YEAR: u64 = 31_558_150;

/// Seconds in a thousand years.
pub const KILO_YEAR: u64 = 1_000 * YEAR;

/// Seconds in a million years.
pub const MEGA_YEAR: u64 = 1_000 * KILO_YEAR;

/// Seconds in a billion years.
pub const GIGA_YEAR: u64 = 1_000 * MEGA_YEAR;

/// Nanoseconds in a microsecond.
pub const US: u32 = 1_000;

/// Nanoseconds in a millisecond.
pub const MS: u32 = 1_000 * US;

/// Nanoseconds in a second; the nanosecond field stays strictly below this.
pub const NANOS_PER_SEC: u32 = 1_000_000_000;

/// Formatting style for a [`Duration`].
#[derive(Clone, Copy, Debug, PartialEq, Eq, Structural)]
pub enum Style {
    /// One unit, three significant digits: `"2.05m"`, `"10.1us"`, `"584Gy"`.
    FractionalOneUnit,
    /// One unit, truncated whole number: `"2m"`, `"59s"`.
    WholeOneUnit,
    /// The two largest applicable units, both truncated: `"2m 3s"`.
    WholeTwoUnit,
}

impl Default for Style {
    /// The style used when none is chosen explicitly.
    fn default() -> (s: Self)
        ensures
            s == Style::FractionalOneUnit,
    {
        Style::FractionalOneUnit
    }
}

/// How many of the largest applicable units a [`FolkDuration`] shows.
#[derive(Clone, Copy, Debug, PartialEq, Eq, Structural)]
pub enum SignificantUnits {
    /// Only the largest unit, as a truncated whole number.
    One,
    /// The two largest units, both truncated.
    Two,
}

impl Default for SignificantUnits {
    /// The unit count used when none is chosen explicitly.
    fn default() -> (u: Self)
        ensures
            u == SignificantUnits::Two,
    {
        SignificantUnits::Two
    }
}

/// The error a checked constructor reports.
#[derive(Clone, Copy, Debug, PartialEq, Eq, Structural)]
pub enum FormatError {
    /// The nanosecond component was a full second or more.
    InvalidInput,
}

/// The index of a duration's *active unit* on the ladder: the largest unit
/// whose threshold does not exceed the duration.  Indices run 0 through 12
/// for ns, us, ms, s, m, h, d, w, mo, y, ky, My, Gy.  A boundary value
/// belongs to the unit starting at that boundary (exactly one minute is
/// minutes, not seconds).
pub open spec fn active_band(secs: u64, ns: u32) -> int {
    if secs == 0 {
        if ns < US {
            0
        } else if ns < MS {
            1
        } else {
            2
        }
    } else if secs < MIN {
        3
    } else if secs < HOUR {
        4
    } else if secs < DAY {
        5
    } else if secs < WEEK {
        6
    } else if secs < MONTH {
        7
    } else if secs < YEAR {
        8
    } else if secs < KILO_YEAR {
        9
    } else if secs < MEGA_YEAR {
        10
    } else if secs < GIGA_YEAR {
        11
    } else {
        12
    }
}

/// The band the whole-number renderers use: the active unit, except that
/// everything from a year upward is rendered in years.
pub open spec fn whole_band(secs: u64, ns: u32) -> int {
    if active_band(secs, ns) > 9 {
        9
    } else {
        active_band(secs, ns)
    }
}

/// The whole duration as a nanosecond count.
pub open spec fn total_nanos(secs: u64, ns: u32) -> int {
    secs * 1_000_000_000 + ns
}

/// The size of ladder unit `k` in nanoseconds.
pub open spec fn unit_nanos(k: int) -> int {
    if k == 0 {
        1
    } else if k == 1 {
        US as int
    } else if k == 2 {
        MS as int
    } else if k == 3 {
        NANOS_PER_SEC as int
    } else if k == 4 {
        MIN * 1_000_000_000
    } else if k == 5 {
        HOUR * 1_000_000_000
    } else if k == 6 {
        DAY * 1_000_000_000
    } else if k == 7 {
        WEEK * 1_000_000_000
    } else if k == 8 {
        MONTH * 1_000_000_000
    } else if k == 9 {
        YEAR * 1_000_000_000
    } else if k == 10 {
        KILO_YEAR * 1_000_000_000
    } else if k == 11 {
        MEGA_YEAR * 1_000_000_000
    } else {
        GIGA_YEAR * 1_000_000_000
    }
}

/// The threshold at which ladder unit `k` becomes active, in nanoseconds.
/// Every unit's threshold is its own size, except the nanosecond band,
/// which starts at zero.
pub open spec fn band_threshold(k: int) -> int {
    if k == 0 {
        0
    } else {
        unit_nanos(k)
    }
}

/// Unit selection is exact at the boundaries: ladder unit `k` is active
/// exactly when the duration has reached that unit's threshold but not the
/// next one.  Each boundary is closed on the upper unit and open on the
/// lower: exactly one minute is minutes, a nanosecond less is seconds.
pub proof fn lemma_active_band_characterization(secs: u64, ns: u32, k: int)
    requires
        ns < NANOS_PER_SEC,
        0 <= k <= 12,
    ensures
        active_band(secs, ns) == k <==> (band_threshold(k) <= total_nanos(secs, ns) && (k == 12
            || total_nanos(secs, ns) < band_threshold(k + 1))),
{
}

/// Formatting is deterministic: two durations with the same components and
/// the same style render to the same text.
pub proof fn lemma_format_deterministic(d1: Duration, d2: Duration)
    requires
        d1.secs == d2.secs,
        d1.nanos == d2.nanos,
        d1.style == d2.style,
    ensures
        d1.text() == d2.text(),
{
}

/// Below one microsecond a nonzero duration renders as the bare nanosecond
/// count under every style: nanoseconds are the finest unit, so there is
/// nothing to subdivide into and nothing to pair with.
pub proof fn lemma_bare_nanoseconds(secs: u64, ns: u32)
    requires
        secs == 0,
        0 < ns,
        ns < US,
    ensures
        three_digit_text(secs, ns) == dec_rep(ns as nat) + seq!['n', 's'],
        whole_text(secs, ns) == dec_rep(ns as nat) + seq!['n', 's'],
        two_unit_text(secs, ns) == dec_rep(ns as nat) + seq!['n', 's'],
{
}

/// A duration to be rendered in a chosen [`Style`].
#[derive(Clone, Copy, Debug, PartialEq, Eq, Structural)]
pub struct Duration {
    /// Whole seconds.
    pub secs: u64,
    /// Sub-second nanoseconds; always below [`NANOS_PER_SEC`].
    pub nanos: u32,
    /// The style the duration is rendered in.
    pub style: Style,
}

impl Duration {
    /// The representation invariant: the nanosecond component stays below
    /// one second.
    pub open spec fn wf(self) -> bool {
        self.nanos < NANOS_PER_SEC
    }

    /// The rendered text, as the chosen style defines it.
    pub open spec fn text(self) -> Seq<char> {
        match self.style {
            Style::FractionalOneUnit => three_digit_text(self.secs, self.nanos),
            Style::WholeOneUnit => whole_text(self.secs, self.nanos),
            Style::WholeTwoUnit => two_unit_text(self.secs, self.nanos),
        }
    }

    /// A duration in the default style.
    pub fn new(secs: u64, nanos: u32) -> (d: Duration)
        requires
            nanos < NANOS_PER_SEC,
        ensures
            d.secs == secs,
            d.nanos == nanos,
            d.style == Style::FractionalOneUnit,
    {
        Duration { secs, nanos, style: Style::FractionalOneUnit }
    }

    /// A duration in the default style, rejecting a nanosecond component of
    /// a full second or more instead of requiring it away.
    pub fn try_new(secs: u64, nanos: u32) -> (r: Result<Duration, FormatError>)
        ensures
            r is Ok <==> nanos < NANOS_PER_SEC,
            r matches Ok(d) ==> d.secs == secs && d.nanos == nanos && d.style
                == Style::FractionalOneUnit,
            r matches Err(e) ==> e == FormatError::InvalidInput,
    {
        if nanos < NANOS_PER_SEC {
            Ok(Duration::new(secs, nanos))
        } else {
            Err(FormatError::InvalidInput)
        }
    }

    /// The same duration with another rendering style.
    pub fn with_style(self, units: Style) -> (d: Duration)
        ensures
            d.secs == self.secs,
            d.nanos == self.nanos,
            d.style == units,
    {
        Duration { secs: self.secs, nanos: self.nanos, style: units }
    }

    /// Renders the duration in its chosen style.
    pub fn to_string(&self) -> (s: String)
        requires
            self.wf(),
        ensures
            s@ == self.text(),
    {
        match self.style {
            Style::FractionalOneUnit => self.fmt_one_unit_three_digits(),
            Style::WholeOneUnit => self.fmt_one_unit_whole(),
            Style::WholeTwoUnit => self.fmt_two_units_whole(),
        }
    }
}

/// A duration rendered in whole numbers of its largest one or two units.
#[derive(Clone, Copy, Debug, PartialEq, Eq, Structural)]
pub struct FolkDuration {
    /// Whole seconds.
    pub secs: u64,
    /// Sub-second nanoseconds; always below [`NANOS_PER_SEC`].
    pub nanos: u32,
    /// How many units the rendering shows.
    pub units: SignificantUnits,
}

impl FolkDuration {
    /// The representation invariant: the nanosecond component stays below
    /// one second.
    pub open spec fn wf(self) -> bool {
        self.nanos < NANOS_PER_SEC
    }

    /// The rendered text, as the chosen unit count defines it.
    pub open spec fn text(self) -> Seq<char> {
        match self.units {
            SignificantUnits::One => whole_text(self.secs, self.nanos),
            SignificantUnits::Two => two_unit_text(self.secs, self.nanos),
        }
    }

    /// A duration showing the default number of units.
    pub fn new(secs: u64, nanos: u32) -> (d: FolkDuration)
        requires
            nanos < NANOS_PER_SEC,
        ensures
            d.secs == secs,
            d.nanos == nanos,
            d.units == SignificantUnits::Two,
    {
        FolkDuration { secs, nanos, units: SignificantUnits::Two }
    }

    /// The same duration showing another number of units.
    pub fn with_significant_units(self, units: SignificantUnits) -> (d: FolkDuration)
        ensures
            d.secs == self.secs,
            d.nanos == self.nanos,
            d.units == units,
    {
        FolkDuration { secs: self.secs, nanos: self.nanos, units }
    }

    /// Renders the duration in its single largest unit as a truncated
    /// whole number.
    pub fn fmt_single(&self) -> (s: String)
        requires
            self.wf(),
        ensures
            s@ == whole_text(self.secs, self.nanos),
    {
        let d = Duration { secs: self.secs, nanos: self.nanos, style: Style::WholeOneUnit };
        d.fmt_one_unit_whole()
    }

    /// Renders the duration in its two largest units as truncated whole
    /// numbers.
    pub fn fmt_double(&self) -> (s: String)
        requires
            self.wf(),
        ensures
            s@ == two_unit_text(self.secs, self.nanos),
    {
        let d = Duration { secs: self.secs, nanos: self.nanos, style: Style::WholeTwoUnit };
        d.fmt_two_units_whole()
    }

    /// Renders the duration with its chosen number of units.
    pub fn to_string(&self) -> (s: String)
        requires
            self.wf(),
        ensures
            s@ == self.text(),
    {
        match self.units {
            SignificantUnits::One => self.fmt_single(),
            SignificantUnits::Two => self.fmt_double(),
        }
    }
}

} // verus!
