use folktime::duration::{FolkDuration, SignificantUnits, DAY, HOUR, MIN, MONTH, WEEK, YEAR};

#[test]
fn duration_zero() {
        let d = FolkDuration::new(0, 0);
        assert_eq!(d.to_string(), "0s 0ms");
}

#[test]
fn duration_ns_0() {
        let d = FolkDuration::new(0, 1);
        assert_eq!(d.to_string(), "1ns");
}

#[test]
fn duration_ns_1() {
        let d = FolkDuration::new(0, 999);
        assert_eq!(d.to_string(), "999ns");
}

#[test]
fn duration_us_0() {
        let d = FolkDuration::new(0, 1_000);
        assert_eq!(d.to_string(), "1us 0ns");
}

#[test]
fn duration_us_1() {
        let d = FolkDuration::new(0, 1_001);
        assert_eq!(d.to_string(), "1us 1ns");
}

#[test]
fn duration_us_2() {
        let d = FolkDuration::new(0, 1_999);
        assert_eq!(d.to_string(), "1us 999ns");
}

#[test]
fn duration_us_3() {
        let d = FolkDuration::new(0, 999_999);
        assert_eq!(d.to_string(), "999us 999ns");
}

#[test]
fn duration_ms_0() {
        let d = FolkDuration::new(0, 1_000_000);
        assert_eq!(d.to_string(), "1ms 0us");
}

#[test]
fn duration_ms_1() {
        let d = FolkDuration::new(0, 1_000_001);
        assert_eq!(d.to_string(), "1ms 0us");
}

#[test]
fn duration_ms_2() {
        let d = FolkDuration::new(0, 1_000_999);
        assert_eq!(d.to_string(), "1ms 0us");
}

#[test]
fn duration_ms_3() {
        let d = FolkDuration::new(0, 1_001_000);
        assert_eq!(d.to_string(), "1ms 1us");
}

#[test]
fn duration_ms_4() {
        let d = FolkDuration::new(0, 1_999_999);
        assert_eq!(d.to_string(), "1ms 999us");
}

#[test]
fn duration_ms_5() {
        let d = FolkDuration::new(0, 999_999_999);
        assert_eq!(d.to_string(), "999ms 999us");
}

#[test]
fn duration_s_0() {
        let d = FolkDuration::new(1, 0);
        assert_eq!(d.to_string(), "1s 0ms");
}

#[test]
fn duration_s_1() {
        let d = FolkDuration::new(1, 999_999);
        assert_eq!(d.to_string(), "1s 0ms");
}

#[test]
fn duration_s_2() {
        let d = FolkDuration::new(1, 1_000_000);
        assert_eq!(d.to_string(), "1s 1ms");
}

#[test]
fn duration_s_3() {
        let d = FolkDuration::new(59, 999_999_999);
        assert_eq!(d.to_string(), "59s 999ms");
}

#[test]
fn duration_m_0() {
        let d = FolkDuration::new(60, 0);
        assert_eq!(d.to_string(), "1m 0s");
}

#[test]
fn duration_m_1() {
        let d = FolkDuration::new(60, 999_999_999);
        assert_eq!(d.to_string(), "1m 0s");
}

#[test]
fn duration_m_2() {
        let d = FolkDuration::new(61, 0);
        assert_eq!(d.to_string(), "1m 1s");
}

#[test]
fn duration_m_3() {
        let d = FolkDuration::new(HOUR - 1, 999_999_999);
        assert_eq!(d.to_string(), "59m 59s");
}

#[test]
fn duration_h_0() {
        let d = FolkDuration::new(HOUR, 0);
        assert_eq!(d.to_string(), "1h 0m");
}

#[test]
fn duration_h_1() {
        let d = FolkDuration::new(HOUR + MIN - 1, 999_999_999);
        assert_eq!(d.to_string(), "1h 0m");
}

#[test]
fn duration_h_2() {
        let d = FolkDuration::new(HOUR + MIN, 0);
        assert_eq!(d.to_string(), "1h 1m");
}

#[test]
fn duration_h_3() {
        let d = FolkDuration::new(DAY - 1, 999_999_999);
        assert_eq!(d.to_string(), "23h 59m");
}

#[test]
fn duration_d_0() {
        let d = FolkDuration::new(DAY, 0);
        assert_eq!(d.to_string(), "1d 0h");
}

#[test]
fn duration_d_1() {
        let d = FolkDuration::new(DAY + HOUR - 1, 999_999_999);
        assert_eq!(d.to_string(), "1d 0h");
}

#[test]
fn duration_d_2() {
        let d = FolkDuration::new(DAY + HOUR, 0);
        assert_eq!(d.to_string(), "1d 1h");
}

#[test]
fn duration_d_3() {
        let d = FolkDuration::new(WEEK - 1, 999_999_999);
        assert_eq!(d.to_string(), "6d 23h");
}

#[test]
fn duration_w_0() {
        let d = FolkDuration::new(WEEK, 0);
        assert_eq!(d.to_string(), "1w 0d");
}

#[test]
fn duration_w_1() {
        let d = FolkDuration::new(WEEK + DAY - 1, 999_999_999);
        assert_eq!(d.to_string(), "1w 0d");
}

#[test]
fn duration_w_2() {
        let d = FolkDuration::new(WEEK + DAY, 0);
        assert_eq!(d.to_string(), "1w 1d");
}

#[test]
fn duration_w_3() {
        let d = FolkDuration::new(MONTH - 1, 999_999_999);
        assert_eq!(d.to_string(), "4w 2d");
}

#[test]
fn duration_mo_0() {
        let d = FolkDuration::new(MONTH, 0);
        assert_eq!(d.to_string(), "1mo 0d");
}

#[test]
fn duration_mo_1() {
        let d = FolkDuration::new(MONTH + DAY - 1, 999_999_999);
        assert_eq!(d.to_string(), "1mo 0d");
}

#[test]
fn duration_mo_2() {
        let d = FolkDuration::new(MONTH + DAY, 0);
        assert_eq!(d.to_string(), "1mo 1d");
}

#[test]
fn duration_mo_3() {
        let d = FolkDuration::new(YEAR - 1, 999_999_999);
        assert_eq!(d.to_string(), "11mo 30d");
}

#[test]
fn duration_y_0() {
        let d = FolkDuration::new(YEAR, 0);
        assert_eq!(d.to_string(), "1y 0mo");
}

#[test]
fn duration_y_1() {
        let d = FolkDuration::new(YEAR + MONTH - 1, 999_999_999);
        assert_eq!(d.to_string(), "1y 0mo");
}

#[test]
fn duration_y_2() {
        let d = FolkDuration::new(YEAR + MONTH, 0);
        assert_eq!(d.to_string(), "1y 1mo");
}

#[test]
fn duration_y_3() {
        let d = FolkDuration::new(2 * YEAR - 1, 999_999_999);
        assert_eq!(d.to_string(), "1y 11mo");
}

#[test]
fn duration_y_4() {
        let d = FolkDuration::new(2 * YEAR, 0);
        assert_eq!(d.to_string(), "2y 0mo");
}

#[test]
fn duration_y_5() {
        let d = FolkDuration::new(1000 * YEAR, 0);
        assert_eq!(d.to_string(), "1000y 0mo");
}

#[test]
fn duration_custom_zero() {
        let d = FolkDuration::new(0, 0)
            .with_significant_units(SignificantUnits::One);
        assert_eq!(d.to_string(), "0s");
}
