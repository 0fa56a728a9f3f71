use audio_tools::clock::{format_clock, format_elapsed, push_clock, push_decimal, push_two_digits, Elapsed};

#[test]
fn zero_seconds_are_all_zeros() {
    assert_eq!(format_clock(0), "00:00:00");
}

#[test]
fn each_field_is_padded_to_two_digits() {
    assert_eq!(format_clock(3661), "01:01:01");
    assert_eq!(format_clock(9), "00:00:09");
    assert_eq!(format_clock(10), "00:00:10");
    assert_eq!(format_clock(600), "00:10:00");
    assert_eq!(format_clock(36000), "10:00:00");
}

#[test]
fn fields_carry_at_sixty() {
    assert_eq!(format_clock(59), "00:00:59");
    assert_eq!(format_clock(60), "00:01:00");
    assert_eq!(format_clock(3599), "00:59:59");
    assert_eq!(format_clock(3600), "01:00:00");
}

#[test]
fn hours_do_not_wrap_at_a_day() {
    assert_eq!(format_clock(86399), "23:59:59");
    assert_eq!(format_clock(86400), "24:00:00");
    assert_eq!(format_clock(90000), "25:00:00");
}

#[test]
fn hours_grow_beyond_two_digits() {
    assert_eq!(format_clock(359_999), "99:59:59");
    assert_eq!(format_clock(360_000), "100:00:00");
    assert_eq!(format_clock(3_600_000 + 62), "1000:01:02");
}

#[test]
fn the_longest_span_is_rendered() {
    let secs = u64::MAX;
    let expected = format!("{:02}:{:02}:{:02}", secs / 3600, (secs % 3600) / 60, secs % 60);
    assert_eq!(format_clock(secs), expected);
    assert_eq!(format_clock(secs), "5124095576030431:00:15");
}

#[test]
fn rendering_agrees_with_padded_formatting() {
    let mut secs: u64 = 0;
    while secs < 400_000 {
        let expected = format!("{:02}:{:02}:{:02}", secs / 3600, (secs % 3600) / 60, secs % 60);
        assert_eq!(format_clock(secs), expected);
        secs += 37;
    }
}

#[test]
fn rendering_reads_back_as_the_seconds() {
    for secs in [0u64, 1, 59, 60, 61, 3599, 3600, 3661, 86400, 90000, 360_000, 123_456_789] {
        let text = format_clock(secs);
        let fields: Vec<&str> = text.split(':').collect();
        assert_eq!(fields.len(), 3);
        assert!(fields[0].len() >= 2);
        assert_eq!(fields[1].len(), 2);
        assert_eq!(fields[2].len(), 2);
        assert!(text.chars().all(|c| c == ':' || c.is_ascii_digit()));
        let h: u64 = fields[0].parse().unwrap();
        let m: u64 = fields[1].parse().unwrap();
        let s: u64 = fields[2].parse().unwrap();
        assert!(m < 60 && s < 60);
        assert_eq!(h * 3600 + m * 60 + s, secs);
    }
}

#[test]
fn different_seconds_render_differently() {
    assert_ne!(format_clock(3600), format_clock(60));
    assert_ne!(format_clock(360_000), format_clock(36_000));
    assert_ne!(format_clock(1), format_clock(2));
}

#[test]
fn push_decimal_appends_without_padding() {
    let mut out = String::from("n=");
    push_decimal(&mut out, 0);
    assert_eq!(out, "n=0");
    push_decimal(&mut out, 7);
    assert_eq!(out, "n=07");
    push_decimal(&mut out, 1203);
    assert_eq!(out, "n=071203");
    let mut big = String::new();
    push_decimal(&mut big, u64::MAX);
    assert_eq!(big, "18446744073709551615");
}

#[test]
fn push_two_digits_pads_numbers_below_ten() {
    let mut out = String::new();
    push_two_digits(&mut out, 0);
    out.push('|');
    push_two_digits(&mut out, 9);
    out.push('|');
    push_two_digits(&mut out, 10);
    out.push('|');
    push_two_digits(&mut out, 99);
    out.push('|');
    push_two_digits(&mut out, 100);
    assert_eq!(out, "00|09|10|99|100");
}

#[test]
fn push_clock_keeps_what_was_there() {
    let mut out = String::from("at ");
    push_clock(&mut out, 3661);
    assert_eq!(out, "at 01:01:01");
}

#[test]
fn elapsed_drops_the_fraction_of_a_second() {
    assert_eq!(Elapsed::from_millis(0).whole_seconds(), 0);
    assert_eq!(Elapsed::from_millis(999).whole_seconds(), 0);
    assert_eq!(Elapsed::from_millis(1000).whole_seconds(), 1);
    assert_eq!(Elapsed::from_millis(2300).whole_seconds(), 2);
    assert_eq!(Elapsed::from_millis(2999).whole_seconds(), 2);
    assert_eq!(format_elapsed(Elapsed::from_millis(2300)), "00:00:02");
    assert_eq!(format_elapsed(Elapsed { millis: 3_661_999 }), "01:01:01");
}

#[test]
fn elapsed_from_seconds_is_in_milliseconds() {
    assert_eq!(Elapsed::from_secs(0), Elapsed { millis: 0 });
    assert_eq!(Elapsed::from_secs(90), Elapsed { millis: 90_000 });
    assert_eq!(Elapsed::from_secs(90).whole_seconds(), 90);
}

#[test]
fn elapsed_from_seconds_stops_at_the_longest_span() {
    let most = u64::MAX / 1000;
    assert_eq!(Elapsed::from_secs(most), Elapsed { millis: most * 1000 });
    assert_eq!(Elapsed::from_secs(most + 1), Elapsed { millis: u64::MAX });
    assert_eq!(Elapsed::from_secs(u64::MAX), Elapsed { millis: u64::MAX });
}
