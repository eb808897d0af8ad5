//! Rendering in the two largest applicable units, both truncated.

use vstd::prelude::*;
use vstd::string::StringExecFns;
use crate::digits::{dec_rep, u64_to_string};
use crate::duration::one_unit_whole::{whole_suffix, whole_value};
use crate::duration::{whole_band, Duration, DAY, HOUR, MIN, MONTH, MS, US, WEEK, YEAR};

verus! {

/// The truncated count of the second, smaller unit.  The pairing follows
/// the ladder except that months pair with days, not weeks.  For a zero
/// duration the second term is zero milliseconds.
pub open spec fn second_value(secs: u64, ns: u32) -> int {
    let k = whole_band(secs, ns);
    if k == 0 {
        0
    } else if k == 1 {
        (ns % US) as int
    } else if k == 2 {
        ((ns % MS) / US) as int
    } else if k == 3 {
        (ns / MS) as int
    } else if k == 4 {
        (secs % MIN) as int
    } else if k == 5 {
        ((secs % HOUR) / MIN) as int
    } else if k == 6 {
        ((secs % DAY) / HOUR) as int
    } else if k == 7 {
        ((secs % WEEK) / DAY) as int
    } else if k == 8 {
        ((secs % MONTH) / DAY) as int
    } else {
        ((secs % YEAR) / MONTH) as int
    }
}

/// The unit suffix of the second term.
pub open spec fn second_suffix(secs: u64, ns: u32) -> Seq<char> {
    let k = whole_band(secs, ns);
    if k == 0 {
        seq!['m', 's']
    } else if k == 1 {
        seq!['n', 's']
    } else if k == 2 {
        seq!['u', 's']
    } else if k == 3 {
        seq!['m', 's']
    } else if k == 4 {
        seq!['s']
    } else if k == 5 {
        seq!['m']
    } else if k == 6 {
        seq!['h']
    } else if k == 7 {
        seq!['d']
    } else if k == 8 {
        seq!['d']
    } else {
        seq!['m', 'o']
    }
}

/// The two-unit rendering: the truncated counts of the two largest
/// applicable units, space-separated.  Below one microsecond there is no
/// finer unit to pair with, so a bare nanosecond count stands alone; a
/// zero duration reads `"0s 0ms"`.
pub open spec fn two_unit_text(secs: u64, ns: u32) -> Seq<char> {
    if secs == 0 && 0 < ns < US {
        dec_rep(ns as nat) + seq!['n', 's']
    } else {
        dec_rep(whole_value(secs, ns) as nat) + whole_suffix(secs, ns) + seq![' '] + dec_rep(
            second_value(secs, ns) as nat,
        ) + second_suffix(secs, ns)
    }
}

impl Duration {
    /// Renders the duration in its two largest applicable units as
    /// truncated whole numbers, e.g. `"1h 1m"`, `"4w 2d"`.
    pub fn fmt_two_units_whole(&self) -> (s: String)
        requires
            self.wf(),
        ensures
            s@ == two_unit_text(self.secs, self.nanos),
    {
        let secs: u64 = self.secs;
        let ns: u32 = self.nanos;
        if secs < 1 {
            if ns < US {
                if ns == 0 {
                    let s = String::from_str("0s 0ms");
                    proof {
                        reveal_strlit("0s 0ms");
                        assert(s@ =~= two_unit_text(secs, ns));
                    }
                    s
                } else {
                    let s = u64_to_string(ns as u64).concat("ns");
                    proof {
                        reveal_strlit("ns");
                        assert(s@ =~= two_unit_text(secs, ns));
                    }
                    s
                }
            } else if ns < MS {
                let rest = u64_to_string((ns % US) as u64);
                let s = u64_to_string((ns / US) as u64).concat("us ").concat(rest.as_str()).concat(
                    "ns",
                );
                proof {
                    reveal_strlit("us ");
                    reveal_strlit("ns");
                    assert(s@ =~= two_unit_text(secs, ns));
                }
                s
            } else {
                let rest = u64_to_string(((ns % MS) / US) as u64);
                let s = u64_to_string((ns / MS) as u64).concat("ms ").concat(rest.as_str()).concat(
                    "us",
                );
                proof {
                    reveal_strlit("ms ");
                    reveal_strlit("us");
                    assert(s@ =~= two_unit_text(secs, ns));
                }
                s
            }
        } else if secs < MIN {
            let rest = u64_to_string((ns / MS) as u64);
            let s = u64_to_string(secs).concat("s ").concat(rest.as_str()).concat("ms");
            proof {
                reveal_strlit("s ");
                reveal_strlit("ms");
                assert(s@ =~= two_unit_text(secs, ns));
            }
            s
        } else if secs < HOUR {
            let rest = u64_to_string(secs % MIN);
            let s = u64_to_string(secs / MIN).concat("m ").concat(rest.as_str()).concat("s");
            proof {
                reveal_strlit("m ");
                reveal_strlit("s");
                assert(s@ =~= two_unit_text(secs, ns));
            }
            s
        } else if secs < DAY {
            let rest = u64_to_string((secs % HOUR) / MIN);
            let s = u64_to_string(secs / HOUR).concat("h ").concat(rest.as_str()).concat("m");
            proof {
                reveal_strlit("h ");
                reveal_strlit("m");
                assert(s@ =~= two_unit_text(secs, ns));
            }
            s
        } else if secs < WEEK {
            let rest = u64_to_string((secs % DAY) / HOUR);
            let s = u64_to_string(secs / DAY).concat("d ").concat(rest.as_str()).concat("h");
            proof {
                reveal_strlit("d ");
                reveal_strlit("h");
                assert(s@ =~= two_unit_text(secs, ns));
            }
            s
        } else if secs < MONTH {
            let rest = u64_to_string((secs % WEEK) / DAY);
            let s = u64_to_string(secs / WEEK).concat("w ").concat(rest.as_str()).concat("d");
            proof {
                reveal_strlit("w ");
                reveal_strlit("d");
                assert(s@ =~= two_unit_text(secs, ns));
            }
            s
        } else if secs < YEAR {
            let rest = u64_to_string((secs % MONTH) / DAY);
            let s = u64_to_string(secs / MONTH).concat("mo ").concat(rest.as_str()).concat("d");
            proof {
                reveal_strlit("mo ");
                reveal_strlit("d");
                assert(s@ =~= two_unit_text(secs, ns));
            }
            s
        } else {
            let rest = u64_to_string((secs % YEAR) / MONTH);
            let s = u64_to_string(secs / YEAR).concat("y ").concat(rest.as_str()).concat("mo");
            proof {
                reveal_strlit("y ");
                reveal_strlit("mo");
                assert(s@ =~= two_unit_text(secs, ns));
            }
            s
        }
    }
}

} // verus!
