//! Rendering in the single active unit with three significant digits.
//!
//! The value in the active unit is scaled to hundredths with integer
//! arithmetic only.  Below ten units all hundredths show (`"1.99m"`),
//! below one hundred units only tenths show (`"10.1m"`), and from one
//! hundred units up the bare truncated count shows (`"100y"`).  At the
//! top of the range the scaling widens to 128-bit arithmetic, which keeps
//! `secs * 100` exact where it would overflow 64 bits.

use vstd::prelude::*;
use vstd::string::StringExecFns;
use vstd::arithmetic::div_mod::{
    lemma_div_is_ordered, lemma_div_multiples_vanish_fancy, lemma_fundamental_div_mod,
    lemma_mod_bound, lemma_multiply_divide_lt,
};
use crate::digits::{dec_rep, pad2, pad2_string, u64_to_string};
use crate::duration::{
    active_band, total_nanos, Duration, DAY, GIGA_YEAR, HOUR, KILO_YEAR, MEGA_YEAR, MIN, MONTH,
    MS, NANOS_PER_SEC, US, WEEK, YEAR,
};

verus! {

/// The numeric value that a hundredths count `a` displays, itself in
/// hundredths: all of `a` below ten units, truncated to tenths below one
/// hundred units, truncated to whole units above.
pub open spec fn shown_hundredths(a: int) -> int {
    if a < 1000 {
        a
    } else if a < 10000 {
        (a / 10) * 10
    } else {
        (a / 100) * 100
    }
}

/// The text for a value of `a` hundredths of a unit: `"7.03"`, `"70.3"`
/// or `"703"`.  Its digits spell out exactly [`shown_hundredths`]`(a)`.
pub open spec fn hundredths_text(a: int) -> Seq<char> {
    if a < 1000 {
        dec_rep((a / 100) as nat) + seq!['.'] + pad2((a % 100) as nat)
    } else if a < 10000 {
        dec_rep((a / 100) as nat) + seq!['.'] + dec_rep(((a % 100) / 10) as nat)
    } else {
        dec_rep((a / 100) as nat)
    }
}

/// The duration scaled to hundredths of its active unit, truncated.
/// From seconds up to ten minutes the sub-second nanoseconds contribute;
/// above that the whole seconds alone decide.
pub open spec fn frac_hundredths(secs: u64, ns: u32) -> int {
    if secs == 0 {
        if ns < MS {
            (ns / 10) as int
        } else {
            (ns / 10_000) as int
        }
    } else if secs < MIN {
        secs * 100 + ns / 10_000_000
    } else if secs < HOUR {
        if secs < 10 * MIN {
            (secs * 100 + ns / 10_000_000) / 60
        } else {
            secs * 100 / (MIN as int)
        }
    } else if secs < DAY {
        secs * 100 / (HOUR as int)
    } else if secs < WEEK {
        secs * 100 / (DAY as int)
    } else if secs < MONTH {
        secs * 100 / (WEEK as int)
    } else if secs < YEAR {
        secs * 100 / (MONTH as int)
    } else if secs < KILO_YEAR {
        secs * 100 / (YEAR as int)
    } else if secs < MEGA_YEAR {
        secs * 100 / (KILO_YEAR as int)
    } else if secs < GIGA_YEAR {
        secs * 100 / (MEGA_YEAR as int)
    } else {
        secs * 100 / (GIGA_YEAR as int)
    }
}

/// The unit suffix of the three-digit rendering.
pub open spec fn frac_suffix(secs: u64, ns: u32) -> Seq<char> {
    if secs == 0 {
        if ns < MS {
            seq!['u', 's']
        } else {
            seq!['m', 's']
        }
    } else if secs < MIN {
        seq!['s']
    } else if secs < HOUR {
        seq!['m']
    } else if secs < DAY {
        seq!['h']
    } else if secs < WEEK {
        seq!['d']
    } else if secs < MONTH {
        seq!['w']
    } else if secs < YEAR {
        seq!['m', 'o']
    } else if secs < KILO_YEAR {
        seq!['y']
    } else if secs < MEGA_YEAR {
        seq!['k', 'y']
    } else if secs < GIGA_YEAR {
        seq!['M', 'y']
    } else {
        seq!['G', 'y']
    }
}

/// The leading numeral of the three-digit rendering, normalized: the bare
/// nanosecond count below one microsecond, elsewhere the hundredths of
/// the active unit that the digits spell out.
pub open spec fn frac_leading(secs: u64, ns: u32) -> int {
    if secs == 0 && ns < US {
        ns as int
    } else {
        shown_hundredths(frac_hundredths(secs, ns))
    }
}

/// Truncating a hundredths count to the digits it displays is monotone:
/// a larger count never displays a smaller numeral, also across the
/// points where a digit of precision is dropped.
pub proof fn lemma_shown_hundredths_monotone(a1: int, a2: int)
    requires
        0 <= a1 <= a2,
    ensures
        shown_hundredths(a1) <= shown_hundredths(a2),
{
    if a2 < 1000 {
    } else if a1 < 1000 {
        if a2 < 10000 {
            lemma_div_is_ordered(1000, a2, 10);
        } else {
            lemma_div_is_ordered(10000, a2, 100);
        }
    } else if a2 < 10000 {
        lemma_div_is_ordered(a1, a2, 10);
    } else if a1 < 10000 {
        lemma_fundamental_div_mod(a1, 10);
        lemma_mod_bound(a1, 10);
        lemma_div_is_ordered(10000, a2, 100);
    } else {
        lemma_div_is_ordered(a1, a2, 100);
    }
}

/// From one second up to ten minutes the scaled value counts every whole
/// hundredth of a second: it equals the nanosecond total divided down.
proof fn lemma_sub_second_hundredths(secs: u64, ns: u32)
    requires
        ns < NANOS_PER_SEC,
    ensures
        secs * 100 + ns / 10_000_000 == total_nanos(secs, ns) / 10_000_000,
{
    lemma_fundamental_div_mod(ns as int, 10_000_000);
    lemma_mod_bound(ns as int, 10_000_000);
    assert(total_nanos(secs, ns) == 10_000_000 * (secs * 100 + ns / 10_000_000) + (ns as int
        % 10_000_000));
    lemma_div_multiples_vanish_fancy(secs * 100 + ns / 10_000_000, ns as int % 10_000_000,
        10_000_000);
}

/// Monotonicity of the displayed numeral: of two durations in the same
/// active unit, the longer one never displays a smaller leading number.
pub proof fn lemma_frac_leading_monotone(s1: u64, n1: u32, s2: u64, n2: u32)
    requires
        n1 < NANOS_PER_SEC,
        n2 < NANOS_PER_SEC,
        active_band(s1, n1) == active_band(s2, n2),
        total_nanos(s1, n1) <= total_nanos(s2, n2),
    ensures
        frac_leading(s1, n1) <= frac_leading(s2, n2),
{
    let k = active_band(s1, n1);
    let t1 = total_nanos(s1, n1);
    let t2 = total_nanos(s2, n2);
    assert(s1 <= s2);
    if k == 1 {
        lemma_div_is_ordered(n1 as int, n2 as int, 10);
        lemma_shown_hundredths_monotone(n1 as int / 10, n2 as int / 10);
    } else if k == 2 {
        lemma_div_is_ordered(n1 as int, n2 as int, 10_000);
        lemma_shown_hundredths_monotone(n1 as int / 10_000, n2 as int / 10_000);
    } else if k == 3 {
        lemma_sub_second_hundredths(s1, n1);
        lemma_sub_second_hundredths(s2, n2);
        lemma_div_is_ordered(t1, t2, 10_000_000);
        lemma_shown_hundredths_monotone(t1 / 10_000_000, t2 / 10_000_000);
    } else if k == 4 {
        lemma_frac_minute_band_monotone(s1, n1, s2, n2);
    } else if k == 5 {
        lemma_frac_coarse_band_monotone(s1, s2, HOUR);
    } else if k == 6 {
        lemma_frac_coarse_band_monotone(s1, s2, DAY);
    } else if k == 7 {
        lemma_frac_coarse_band_monotone(s1, s2, WEEK);
    } else if k == 8 {
        lemma_frac_coarse_band_monotone(s1, s2, MONTH);
    } else if k == 9 {
        lemma_frac_coarse_band_monotone(s1, s2, YEAR);
    } else if k == 10 {
        lemma_frac_coarse_band_monotone(s1, s2, KILO_YEAR);
    } else if k == 11 {
        lemma_frac_coarse_band_monotone(s1, s2, MEGA_YEAR);
    } else if k == 12 {
        lemma_frac_coarse_band_monotone(s1, s2, GIGA_YEAR);
    }
}

/// The minute band: below ten minutes the scaled value counts hundredths
/// of a second before dividing by sixty, above it drops the sub-second
/// part; the displayed numeral still never decreases across that seam.
proof fn lemma_frac_minute_band_monotone(s1: u64, n1: u32, s2: u64, n2: u32)
    requires
        n1 < NANOS_PER_SEC,
        n2 < NANOS_PER_SEC,
        MIN <= s1 < HOUR,
        MIN <= s2 < HOUR,
        s1 <= s2,
        total_nanos(s1, n1) <= total_nanos(s2, n2),
    ensures
        shown_hundredths(frac_hundredths(s1, n1)) <= shown_hundredths(frac_hundredths(s2, n2)),
{
    let t1 = total_nanos(s1, n1);
    let t2 = total_nanos(s2, n2);
    lemma_sub_second_hundredths(s1, n1);
    lemma_sub_second_hundredths(s2, n2);
    if s2 < 10 * MIN {
        lemma_div_is_ordered(t1, t2, 10_000_000);
        lemma_div_is_ordered(t1 / 10_000_000, t2 / 10_000_000, 60);
        lemma_shown_hundredths_monotone((t1 / 10_000_000) / 60, (t2 / 10_000_000) / 60);
    } else if s1 >= 10 * MIN {
        lemma_div_is_ordered(s1 * 100, s2 * 100, 60);
        lemma_shown_hundredths_monotone(s1 * 100 / 60, s2 * 100 / 60);
    } else {
        let a1 = (t1 / 10_000_000) / 60;
        let a2 = s2 * 100 / 60;
        lemma_multiply_divide_lt(t1, 10_000_000, 60_000);
        lemma_multiply_divide_lt(t1 / 10_000_000, 60, 1000);
        lemma_div_is_ordered(60_000, s2 * 100, 60);
        assert(shown_hundredths(a1) == a1);
        lemma_shown_hundredths_monotone(1000, a2);
    }
}

/// Bands from an hour upward scale the whole seconds alone; the scaled
/// value is monotone in the seconds.
proof fn lemma_frac_coarse_band_monotone(s1: u64, s2: u64, div: u64)
    requires
        s1 <= s2,
        0 < div,
    ensures
        shown_hundredths(s1 * 100 / (div as int)) <= shown_hundredths(s2 * 100 / (div as int)),
{
    lemma_div_is_ordered(s1 * 100, s2 * 100, div as int);
    lemma_shown_hundredths_monotone(s1 * 100 / (div as int), s2 * 100 / (div as int));
}

/// The three-significant-digit rendering.  A zero duration reads
/// `"0.00s"`; below one microsecond a bare nanosecond count stands alone,
/// since there is no finer unit to subdivide into.
pub open spec fn three_digit_text(secs: u64, ns: u32) -> Seq<char> {
    if secs == 0 && ns == 0 {
        seq!['0', '.', '0', '0', 's']
    } else if secs == 0 && ns < US {
        dec_rep(ns as nat) + seq!['n', 's']
    } else {
        hundredths_text(frac_hundredths(secs, ns)) + frac_suffix(secs, ns)
    }
}

/// The text for `a` hundredths of a unit, without the suffix.
fn hundredths_string(a: u64) -> (s: String)
    ensures
        s@ == hundredths_text(a as int),
{
    if a < 1000 {
        let frac = pad2_string(a % 100);
        let s = u64_to_string(a / 100).concat(".").concat(frac.as_str());
        proof {
            reveal_strlit(".");
            assert(s@ =~= hundredths_text(a as int));
        }
        s
    } else if a < 10000 {
        let tenth = u64_to_string((a % 100) / 10);
        let s = u64_to_string(a / 100).concat(".").concat(tenth.as_str());
        proof {
            reveal_strlit(".");
            assert(s@ =~= hundredths_text(a as int));
        }
        s
    } else {
        u64_to_string(a / 100)
    }
}

/// Scales `val` to hundredths of a unit of `div` base values and renders
/// it with the given suffix.
pub fn fmt_100(val: u64, div: u64, unit: &str) -> (s: String)
    requires
        div > 0,
        val * 100 <= u64::MAX,
    ensures
        s@ == hundredths_text(val * 100 / (div as int)) + unit@,
{
    let a: u64 = (val * 100) / div;
    hundredths_string(a).concat(unit)
}

impl Duration {
    /// Renders the duration in its single active unit with three
    /// significant digits, e.g. `"1.99m"`, `"10.1us"`, `"584Gy"`.
    pub fn fmt_one_unit_three_digits(&self) -> (s: String)
        requires
            self.wf(),
        ensures
            s@ == three_digit_text(self.secs, self.nanos),
    {
        let secs: u64 = self.secs;
        let ns: u32 = self.nanos;
        if secs < 1 {
            if ns < US {
                if ns == 0 {
                    let s = String::from_str("0.00s");
                    proof {
                        reveal_strlit("0.00s");
                        assert(s@ =~= three_digit_text(secs, ns));
                    }
                    s
                } else {
                    let s = u64_to_string(ns as u64).concat("ns");
                    proof {
                        reveal_strlit("ns");
                        assert(s@ =~= three_digit_text(secs, ns));
                    }
                    s
                }
            } else if ns < MS {
                let s = hundredths_string((ns / 10) as u64).concat("us");
                proof {
                    reveal_strlit("us");
                    assert(s@ =~= three_digit_text(secs, ns));
                }
                s
            } else {
                let s = hundredths_string((ns / 10_000) as u64).concat("ms");
                proof {
                    reveal_strlit("ms");
                    assert(s@ =~= three_digit_text(secs, ns));
                }
                s
            }
        } else if secs < MIN {
            let val: u64 = secs * 100 + (ns / 10_000_000) as u64;
            let s = hundredths_string(val).concat("s");
            proof {
                reveal_strlit("s");
                assert(s@ =~= three_digit_text(secs, ns));
            }
            s
        } else if secs < HOUR {
            if secs < 10 * MIN {
                let val: u64 = secs * 100 + (ns / 10_000_000) as u64;
                let s = hundredths_string(val / 60).concat("m");
                proof {
                    reveal_strlit("m");
                    assert(s@ =~= three_digit_text(secs, ns));
                }
                s
            } else {
                let s = fmt_100(secs, MIN, "m");
                proof {
                    reveal_strlit("m");
                    assert(s@ =~= three_digit_text(secs, ns));
                }
                s
            }
        } else if secs < DAY {
            let s = fmt_100(secs, HOUR, "h");
            proof {
                reveal_strlit("h");
                assert(s@ =~= three_digit_text(secs, ns));
            }
            s
        } else if secs < WEEK {
            let s = fmt_100(secs, DAY, "d");
            proof {
                reveal_strlit("d");
                assert(s@ =~= three_digit_text(secs, ns));
            }
            s
        } else if secs < MONTH {
            let s = fmt_100(secs, WEEK, "w");
            proof {
                reveal_strlit("w");
                assert(s@ =~= three_digit_text(secs, ns));
            }
            s
        } else if secs < YEAR {
            let s = fmt_100(secs, MONTH, "mo");
            proof {
                reveal_strlit("mo");
                assert(s@ =~= three_digit_text(secs, ns));
            }
            s
        } else if secs < KILO_YEAR {
            let s = fmt_100(secs, YEAR, "y");
            proof {
                reveal_strlit("y");
                assert(s@ =~= three_digit_text(secs, ns));
            }
            s
        } else if secs < MEGA_YEAR {
            let s = fmt_100(secs, KILO_YEAR, "ky");
            proof {
                reveal_strlit("ky");
                assert(s@ =~= three_digit_text(secs, ns));
            }
            s
        } else if secs < GIGA_YEAR {
            let wide: u128 = (secs as u128) * 100 / (MEGA_YEAR as u128);
            proof {
                lemma_multiply_divide_lt(secs * 100, MEGA_YEAR as int, 100_000);
            }
            let s = hundredths_string(wide as u64).concat("My");
            proof {
                reveal_strlit("My");
                assert(s@ =~= three_digit_text(secs, ns));
            }
            s
        } else {
            let wide: u128 = (secs as u128) * 100 / (GIGA_YEAR as u128);
            proof {
                lemma_multiply_divide_lt(secs * 100, GIGA_YEAR as int, 100_000);
            }
            let s = hundredths_string(wide as u64).concat("Gy");
            proof {
                reveal_strlit("Gy");
                assert(s@ =~= three_digit_text(secs, ns));
            }
            s
        }
    }
}

} // verus!
