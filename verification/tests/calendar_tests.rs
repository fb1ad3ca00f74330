use hhpos_license::calendar::{expiry_to_display, format_date, format_local_time};

fn text(v: &[char]) -> String {
    v.iter().collect()
}

#[test]
fn format_local_time_known_instants() {
    assert_eq!(format_local_time(0), "1970-01-01 00:00:00");
    assert_eq!(format_local_time(86_399), "1970-01-01 23:59:59");
    assert_eq!(format_local_time(1_700_000_000), "2023-11-14 22:13:20");
    assert_eq!(format_local_time(951_782_400), "2000-02-29 00:00:00");
    assert_eq!(format_local_time(4_102_444_800), "2100-01-01 00:00:00");
    assert_eq!(format_local_time(1_709_251_199), "2024-02-29 23:59:59");
}

#[test]
fn format_date_leap_rules() {
    // 2000 is a leap year (divisible by 400), 1900-style centuries are not.
    assert_eq!(text(&format_date(11_016)), "2000-02-29");
    assert_eq!(text(&format_date(11_017)), "2000-03-01");
    // 2100-02-28 then 2100-03-01: no 29 February in 2100.
    assert_eq!(text(&format_date(47_540)), "2100-02-28");
    assert_eq!(text(&format_date(47_541)), "2100-03-01");
    assert_eq!(text(&format_date(365)), "1971-01-01");
    assert_eq!(text(&format_date(364)), "1970-12-31");
    assert_eq!(text(&format_date(2_932_896)), "9999-12-31");
    assert_eq!(text(&format_date(2_932_897)), "10000-01-01");
}

#[test]
fn expiry_to_display_cases() {
    assert_eq!(expiry_to_display(0), "Vĩnh viễn");
    assert_eq!(expiry_to_display(1_702_592_000), "2023-12-14");
    assert_eq!(expiry_to_display(1), "1970-01-01");
    assert_eq!(expiry_to_display(86_400), "1970-01-02");
}

fn parse(date: &str) -> (u64, u64, u64) {
    let parts: Vec<u64> = date.split('-').map(|p| p.parse().unwrap()).collect();
    (parts[0], parts[1], parts[2])
}

fn month_len(y: u64, m: u64) -> u64 {
    let leap = (y % 4 == 0 && y % 100 != 0) || y % 400 == 0;
    [31, if leap { 29 } else { 28 }, 31, 30, 31, 30, 31, 31, 30, 31, 30, 31][(m - 1) as usize]
}

#[test]
fn every_date_is_valid_and_followed_by_the_next_day() {
    let mut prev = parse(&text(&format_date(0)));
    assert_eq!(prev, (1970, 1, 1));
    for days in 1..60_000u64 {
        let (y, m, d) = parse(&text(&format_date(days)));
        assert!((1..=12).contains(&m) && d >= 1 && d <= month_len(y, m), "{days}");
        let (py, pm, pd) = prev;
        let expected = if pd < month_len(py, pm) {
            (py, pm, pd + 1)
        } else if pm < 12 {
            (py, pm + 1, 1)
        } else {
            (py + 1, 1, 1)
        };
        assert_eq!((y, m, d), expected, "{days}");
        prev = (y, m, d);
    }
}

#[test]
fn one_day_later_is_the_next_date_same_time() {
    assert_eq!(format_local_time(946_684_799), "1999-12-31 23:59:59");
    assert_eq!(format_local_time(946_684_799 + 86_400), "2000-01-01 23:59:59");
    assert_eq!(format_local_time(951_696_000 + 3_661), "2000-02-28 01:01:01");
    assert_eq!(format_local_time(951_696_000 + 3_661 + 86_400), "2000-02-29 01:01:01");
}
