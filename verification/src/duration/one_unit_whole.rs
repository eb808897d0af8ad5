//! Rendering in the single active unit as a truncated whole number.

use vstd::prelude::*;
use vstd::string::StringExecFns;
use vstd::arithmetic::div_mod::{
    lemma_div_is_ordered, lemma_div_multiples_vanish_fancy, lemma_fundamental_div_mod,
    lemma_mod_bound,
};
use crate::digits::{dec_rep, u64_to_string};
use crate::duration::{
    total_nanos, unit_nanos, whole_band, Duration, DAY, HOUR, MIN, MONTH, MS, NANOS_PER_SEC, US,
    WEEK, YEAR,
};

verus! {

/// The truncated count of the rendered unit: the duration divided by the
/// unit size, rounded toward zero.  Everything from a year upward counts
/// in years.
pub open spec fn whole_value(secs: u64, ns: u32) -> int {
    let k = whole_band(secs, ns);
    if k == 0 {
        ns as int
    } else if k == 1 {
        (ns / US) as int
    } else if k == 2 {
        (ns / MS) as int
    } else if k == 3 {
        secs as int
    } else if k == 4 {
        (secs / MIN) as int
    } else if k == 5 {
        (secs / HOUR) as int
    } else if k == 6 {
        (secs / DAY) as int
    } else if k == 7 {
        (secs / WEEK) as int
    } else if k == 8 {
        (secs / MONTH) as int
    } else {
        (secs / YEAR) as int
    }
}

/// The unit suffix of the rendered text.  A zero duration reads `"0s"`.
pub open spec fn whole_suffix(secs: u64, ns: u32) -> Seq<char> {
    let k = whole_band(secs, ns);
    if k == 0 {
        if ns == 0 {
            seq!['s']
        } else {
            seq!['n', 's']
        }
    } else if k == 1 {
        seq!['u', 's']
    } else if k == 2 {
        seq!['m', 's']
    } else if k == 3 {
        seq!['s']
    } else if k == 4 {
        seq!['m']
    } else if k == 5 {
        seq!['h']
    } else if k == 6 {
        seq!['d']
    } else if k == 7 {
        seq!['w']
    } else if k == 8 {
        seq!['m', 'o']
    } else {
        seq!['y']
    }
}

/// The whole-number rendering: the truncated unit count, then the suffix.
pub open spec fn whole_text(secs: u64, ns: u32) -> Seq<char> {
    dec_rep(whole_value(secs, ns) as nat) + whole_suffix(secs, ns)
}

/// Dividing a whole number of seconds by a unit of `unit` seconds gives
/// the same count as dividing the full nanosecond total by the unit's
/// size in nanoseconds: the sub-unit remainder cannot reach the next
/// count.
proof fn lemma_seconds_band_truncates(secs: u64, ns: u32, unit: u64)
    requires
        ns < NANOS_PER_SEC,
        0 < unit,
    ensures
        (secs / unit) as int == total_nanos(secs, ns) / (unit * 1_000_000_000),
{
    let u = unit as int;
    let q = secs as int / u;
    let r = secs as int % u;
    lemma_fundamental_div_mod(secs as int, u);
    lemma_mod_bound(secs as int, u);
    assert(total_nanos(secs, ns) == (u * 1_000_000_000) * q + (r * 1_000_000_000 + ns))
        by (nonlinear_arith)
        requires
            secs as int == u * q + r,
            total_nanos(secs, ns) == secs * 1_000_000_000 + ns,
    ;
    assert(r * 1_000_000_000 + ns < u * 1_000_000_000) by (nonlinear_arith)
        requires
            r < u,
            ns < 1_000_000_000,
    ;
    lemma_div_multiples_vanish_fancy(q, r * 1_000_000_000 + ns, u * 1_000_000_000);
}

/// Truncation, not rounding: in every band the rendered count equals the
/// whole duration divided by the rendered unit's size, rounded toward
/// zero.
pub proof fn lemma_whole_value_truncates(secs: u64, ns: u32)
    requires
        ns < NANOS_PER_SEC,
    ensures
        whole_value(secs, ns) == total_nanos(secs, ns) / unit_nanos(whole_band(secs, ns)),
{
    let t = total_nanos(secs, ns);
    let k = whole_band(secs, ns);
    if k == 0 {
        assert(t == 1 * t + 0);
        lemma_div_multiples_vanish_fancy(t, 0, 1);
    } else if k == 3 {
        assert(t == 1_000_000_000 * (secs as int) + ns);
        lemma_div_multiples_vanish_fancy(secs as int, ns as int, 1_000_000_000);
    } else if k == 4 {
        lemma_seconds_band_truncates(secs, ns, MIN);
    } else if k == 5 {
        lemma_seconds_band_truncates(secs, ns, HOUR);
    } else if k == 6 {
        lemma_seconds_band_truncates(secs, ns, DAY);
    } else if k == 7 {
        lemma_seconds_band_truncates(secs, ns, WEEK);
    } else if k == 8 {
        lemma_seconds_band_truncates(secs, ns, MONTH);
    } else if k == 9 {
        lemma_seconds_band_truncates(secs, ns, YEAR);
    }
}

/// Monotonicity of the rendered count: of two durations rendered in the
/// same unit, the longer one never shows the smaller number.  The count
/// is also the leading term of the two-unit rendering, so this covers
/// both whole-number styles.
pub proof fn lemma_whole_value_monotone(s1: u64, n1: u32, s2: u64, n2: u32)
    requires
        n1 < NANOS_PER_SEC,
        n2 < NANOS_PER_SEC,
        whole_band(s1, n1) == whole_band(s2, n2),
        total_nanos(s1, n1) <= total_nanos(s2, n2),
    ensures
        whole_value(s1, n1) <= whole_value(s2, n2),
{
    lemma_whole_value_truncates(s1, n1);
    lemma_whole_value_truncates(s2, n2);
    let k = whole_band(s1, n1);
    assert(unit_nanos(k) > 0);
    lemma_div_is_ordered(total_nanos(s1, n1), total_nanos(s2, n2), unit_nanos(k));
}

impl Duration {
    /// Renders the duration in its single active unit as a truncated whole
    /// number, e.g. `"59m"`, `"4mo"`.
    pub fn fmt_one_unit_whole(&self) -> (s: String)
        requires
            self.wf(),
        ensures
            s@ == whole_text(self.secs, self.nanos),
    {
        let secs: u64 = self.secs;
        let ns: u32 = self.nanos;
        if secs < 1 {
            if ns < US {
                if ns == 0 {
                    let s = String::from_str("0s");
                    proof {
                        reveal_strlit("0s");
                        assert(s@ =~= whole_text(secs, ns));
                    }
                    s
                } else {
                    let s = u64_to_string(ns as u64).concat("ns");
                    proof {
                        reveal_strlit("ns");
                        assert(s@ =~= whole_text(secs, ns));
                    }
                    s
                }
            } else if ns < MS {
                let s = u64_to_string((ns / US) as u64).concat("us");
                proof {
                    reveal_strlit("us");
                    assert(s@ =~= whole_text(secs, ns));
                }
                s
            } else {
                let s = u64_to_string((ns / MS) as u64).concat("ms");
                proof {
                    reveal_strlit("ms");
                    assert(s@ =~= whole_text(secs, ns));
                }
                s
            }
        } else if secs < MIN {
            let s = u64_to_string(secs).concat("s");
            proof {
                reveal_strlit("s");
                assert(s@ =~= whole_text(secs, ns));
            }
            s
        } else if secs < HOUR {
            let s = u64_to_string(secs / MIN).concat("m");
            proof {
                reveal_strlit("m");
                assert(s@ =~= whole_text(secs, ns));
            }
            s
        } else if secs < DAY {
            let s = u64_to_string(secs / HOUR).concat("h");
            proof {
                reveal_strlit("h");
                assert(s@ =~= whole_text(secs, ns));
            }
            s
        } else if secs < WEEK {
            let s = u64_to_string(secs / DAY).concat("d");
            proof {
                reveal_strlit("d");
                assert(s@ =~= whole_text(secs, ns));
            }
            s
        } else if secs < MONTH {
            let s = u64_to_string(secs / WEEK).concat("w");
            proof {
                reveal_strlit("w");
                assert(s@ =~= whole_text(secs, ns));
            }
            s
        } else if secs < YEAR {
            let s = u64_to_string(secs / MONTH).concat("mo");
            proof {
                reveal_strlit("mo");
                assert(s@ =~= whole_text(secs, ns));
            }
            s
        } else {
            let s = u64_to_string(secs / YEAR).concat("y");
            proof {
                reveal_strlit("y");
                assert(s@ =~= whole_text(secs, ns));
            }
            s
        }
    }
}

} // verus!
