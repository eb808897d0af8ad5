use folktime::digits::u64_to_string;
use folktime::duration::{Duration, FolkDuration, FormatError, SignificantUnits, Style};
use folktime::Folktime;

#[test]
fn repeated_calls_are_identical() {
    let d = Duration::new(123, 456_789_012);
    assert_eq!(d.to_string(), d.to_string());
    let w = d.with_style(Style::WholeTwoUnit);
    assert_eq!(w.to_string(), w.to_string());
}

#[test]
fn minute_boundary_is_closed_above() {
    let d = Duration::new(60, 0).with_style(Style::WholeOneUnit);
    assert_eq!(d.to_string(), "1m");
}

#[test]
fn minute_boundary_is_open_below() {
    let d = Duration::new(59, 999_999_999).with_style(Style::WholeOneUnit);
    assert_eq!(d.to_string(), "59s");
}

#[test]
fn whole_style_truncates_not_rounds() {
    let d = Duration::new(119, 0).with_style(Style::WholeOneUnit);
    assert_eq!(d.to_string(), "1m");
}

#[test]
fn two_unit_style_truncates_not_rounds() {
    let d = Duration::new(119, 999_999_999).with_style(Style::WholeTwoUnit);
    assert_eq!(d.to_string(), "1m 59s");
}

#[test]
fn fractional_prefix_grows_within_band() {
    let lo = Duration::new(90, 0).to_string();
    let hi = Duration::new(119, 999_999_999).to_string();
    assert_eq!(lo, "1.50m");
    assert_eq!(hi, "1.99m");
    let lo_val: f64 = lo.trim_end_matches('m').parse().unwrap();
    let hi_val: f64 = hi.trim_end_matches('m').parse().unwrap();
    assert!(lo_val <= hi_val);
}

#[test]
fn whole_prefix_grows_within_band() {
    let lo = Duration::new(3_600, 0).with_style(Style::WholeOneUnit).to_string();
    let hi = Duration::new(86_399, 999_999_999).with_style(Style::WholeOneUnit).to_string();
    assert_eq!(lo, "1h");
    assert_eq!(hi, "23h");
}

#[test]
fn try_new_accepts_normalized_nanos() {
    let d = Duration::try_new(5, 999_999_999).unwrap();
    assert_eq!(d.to_string(), "5.99s");
}

#[test]
fn try_new_rejects_oversized_nanos() {
    let r = Duration::try_new(5, 1_000_000_000);
    assert_eq!(r.unwrap_err(), FormatError::InvalidInput);
}

#[test]
fn default_style_is_fractional() {
    assert_eq!(Style::default(), Style::FractionalOneUnit);
    assert_eq!(Duration::new(123, 0).to_string(), "2.05m");
}

#[test]
fn friendly_entry_point_defaults_to_fractional() {
    assert_eq!(Folktime::duration(123, 0).to_string(), "2.05m");
    assert_eq!(Folktime::duration(5, 0).to_string(), "5.00s");
}

#[test]
fn default_significant_units_is_two() {
    assert_eq!(SignificantUnits::default(), SignificantUnits::Two);
    assert_eq!(FolkDuration::new(5, 0).to_string(), "5s 0ms");
}

#[test]
fn duration_custom_selects_units() {
    let d = Folktime::duration_custom(5, 0, SignificantUnits::One);
    assert_eq!(d.to_string(), "5s");
    let d = Folktime::duration_custom(1, 123_456_789, SignificantUnits::One);
    assert_eq!(d.to_string(), "1s");
    let d = Folktime::duration_custom(0, 123_456_789, SignificantUnits::One);
    assert_eq!(d.to_string(), "123ms");
}

#[test]
fn folk_duration_single_and_double() {
    let d = FolkDuration::new(123, 0);
    assert_eq!(d.fmt_single(), "2m");
    assert_eq!(d.fmt_double(), "2m 3s");
    assert_eq!(d.with_significant_units(SignificantUnits::One).to_string(), "2m");
}

#[test]
fn folk_duration_max_is_whole_years() {
    let d = FolkDuration::new(u64::MAX, 999_999_999);
    assert_eq!(d.to_string(), "584531858607y 4mo");
    assert_eq!(d.fmt_single(), "584531858607y");
}

#[test]
fn decimal_rendering() {
    assert_eq!(u64_to_string(0), "0");
    assert_eq!(u64_to_string(7), "7");
    assert_eq!(u64_to_string(10), "10");
    assert_eq!(u64_to_string(18_446_744_073_709_551_615), "18446744073709551615");
}
