use codex_status::render::{
    abbreviate, bar_fill_count, format_duration_label, format_field, format_reset_time,
    label_width, percent_left_rounded, render_rate_limit_bar, render_rate_limits,
    render_unavailable, LocalTime, ResetTimes, BAR_WIDTH,
};
use codex_status::usage::{CreditsSnapshot, Percent, RateLimitSnapshot, RateLimitWindow};
use std::time::SystemTime;
use std::time::UNIX_EPOCH;

/// The calendar date and clock time of an instant in UTC.
fn utc_time(unix_seconds: i64) -> LocalTime {
    let days = unix_seconds.div_euclid(86400);
    let seconds = unix_seconds.rem_euclid(86400);
    let z = days + 719468;
    let era = z.div_euclid(146097);
    let doe = z.rem_euclid(146097);
    let yoe = (doe - doe / 1460 + doe / 36524 - doe / 146096) / 365;
    let doy = doe - (365 * yoe + yoe / 4 - yoe / 100);
    let mp = (5 * doy + 2) / 153;
    let day = doy - (153 * mp + 2) / 5 + 1;
    let month = if mp < 10 { mp + 3 } else { mp - 9 };
    let year = yoe + era * 400 + if month <= 2 { 1 } else { 0 };
    LocalTime {
        year: year as i32,
        month: (month - 1) as i32,
        day: day as i32,
        hour: (seconds / 3600) as i32,
        minute: (seconds % 3600 / 60) as i32,
    }
}

fn time(year: i32, month: i32, day: i32, hour: i32, minute: i32) -> LocalTime {
    LocalTime { year, month, day, hour, minute }
}

fn window(hundredths: i64, minutes: Option<i64>, resets_at: Option<i64>) -> RateLimitWindow {
    RateLimitWindow {
        used_percent: Percent { hundredths },
        window_minutes: minutes,
        resets_at,
    }
}

#[test]
fn test_format_duration_label() {
    assert_eq!(format_duration_label(30), "30m");
    assert_eq!(format_duration_label(60), "1h");
    assert_eq!(format_duration_label(300), "5h");
    assert_eq!(format_duration_label(1440), "1d");
    assert_eq!(format_duration_label(10080), "Weekly");
}

#[test]
fn test_format_reset_time() {
    let now = SystemTime::now()
        .duration_since(UNIX_EPOCH)
        .unwrap()
        .as_secs() as i64;

    // Past time should still show time format
    let past = now - 3600;
    let result = format_reset_time(&utc_time(past), &utc_time(now));
    assert!(result.contains(':'));

    // Future time should show time format
    let future = now + 7200;
    let result = format_reset_time(&utc_time(future), &utc_time(now));
    assert!(result.contains(':'));
}

#[test]
fn duration_label_tiers() {
    assert_eq!(format_duration_label(0), "0m");
    assert_eq!(format_duration_label(59), "59m");
    assert_eq!(format_duration_label(119), "1h");
    assert_eq!(format_duration_label(1439), "23h");
    assert_eq!(format_duration_label(2880), "2d");
    assert_eq!(format_duration_label(10079), "6d");
    assert_eq!(format_duration_label(20000), "Weekly");
    assert_eq!(format_duration_label(-5), "-5m");
    assert_eq!(format_duration_label(i64::MIN), "-9223372036854775808m");
    assert_eq!(format_duration_label(i64::MAX), "Weekly");
}

#[test]
fn abbreviate_examples() {
    assert_eq!(abbreviate(500), "500");
    assert_eq!(abbreviate(1000), "1.0k");
    assert_eq!(abbreviate(45200), "45.2k");
    assert_eq!(abbreviate(2300000), "2.3M");
}

#[test]
fn abbreviate_boundaries() {
    assert_eq!(abbreviate(0), "0");
    assert_eq!(abbreviate(999), "999");
    assert_eq!(abbreviate(1000), "1.0k");
    assert_eq!(abbreviate(999999), "1000.0k");
    assert_eq!(abbreviate(1000000), "1.0M");
}

#[test]
fn abbreviate_rounds_half_up() {
    assert_eq!(abbreviate(1049), "1.0k");
    assert_eq!(abbreviate(1050), "1.1k");
    assert_eq!(abbreviate(1949), "1.9k");
    assert_eq!(abbreviate(1950), "2.0k");
    assert_eq!(abbreviate(1049999), "1.0M");
    assert_eq!(abbreviate(1050000), "1.1M");
    assert_eq!(abbreviate(u64::MAX), "18446744073709.6M");
}

#[test]
fn bar_fill_exact_counts() {
    assert_eq!(BAR_WIDTH, 20);
    assert_eq!(bar_fill_count(Percent { hundredths: 0 }), 20);
    assert_eq!(bar_fill_count(Percent { hundredths: 10000 }), 0);
    assert_eq!(bar_fill_count(Percent { hundredths: 5000 }), 10);
    assert_eq!(bar_fill_count(Percent { hundredths: 100 }), 20);
    assert_eq!(bar_fill_count(Percent { hundredths: 250 }), 20);
    assert_eq!(bar_fill_count(Percent { hundredths: 251 }), 19);
    assert_eq!(bar_fill_count(Percent { hundredths: 9750 }), 1);
    assert_eq!(bar_fill_count(Percent { hundredths: 9751 }), 0);
    assert_eq!(bar_fill_count(Percent { hundredths: 15000 }), 0);
    assert_eq!(bar_fill_count(Percent { hundredths: -2000 }), 24);
}

#[test]
fn bar_fill_is_monotonic_and_within_width() {
    let mut previous = bar_fill_count(Percent { hundredths: 0 });
    let mut used = 0;
    while used <= 10000 {
        let filled = bar_fill_count(Percent { hundredths: used });
        assert!(filled <= BAR_WIDTH);
        assert!(filled <= previous);
        previous = filled;
        used += 1;
    }
}

#[test]
fn percent_left_rounds_half_to_even() {
    assert_eq!(percent_left_rounded(Percent { hundredths: 0 }), 100);
    assert_eq!(percent_left_rounded(Percent { hundredths: 100 }), 99);
    assert_eq!(percent_left_rounded(Percent { hundredths: 1250 }), 88);
    assert_eq!(percent_left_rounded(Percent { hundredths: 1350 }), 86);
    assert_eq!(percent_left_rounded(Percent { hundredths: 1349 }), 87);
    assert_eq!(percent_left_rounded(Percent { hundredths: 1351 }), 86);
    assert_eq!(percent_left_rounded(Percent { hundredths: 10000 }), 0);
    assert_eq!(percent_left_rounded(Percent { hundredths: 10050 }), 0);
    assert_eq!(percent_left_rounded(Percent { hundredths: 10150 }), -2);
    assert_eq!(percent_left_rounded(Percent { hundredths: 10250 }), -2);
    assert_eq!(percent_left_rounded(Percent { hundredths: 15000 }), -50);
    assert_eq!(percent_left_rounded(Percent { hundredths: i64::MIN }), 92233720368547858);
    assert_eq!(percent_left_rounded(Percent { hundredths: i64::MAX }), -92233720368547658);
}

#[test]
fn format_field_pads_label_column() {
    assert_eq!(format_field("Model", "gpt-5", 12), " Model:          gpt-5");
    assert_eq!(format_field("Model", "gpt-5", 12), format!(" {:13}   {}", "Model:", "gpt-5"));
    assert_eq!(format_field("Weekly limit", "x", 12), " Weekly limit:   x");
    assert_eq!(format_field("Model provider", "x", 12), " Model provider:   x");
    assert_eq!(format_field("", "", 0), " :   ");
}

#[test]
fn label_width_is_longest_label() {
    assert_eq!(label_width(&vec![]), 0);
    assert_eq!(label_width(&vec!["Model", "Directory", "Weekly limit"]), 12);
    assert_eq!(label_width(&vec!["Model provider", "Model"]), 14);
    assert_eq!(label_width(&vec!["\u{e9}\u{e9}", "a"]), 2);
}

#[test]
fn reset_time_same_day_is_clock_only() {
    let now = time(2025, 0, 13, 9, 5);
    assert_eq!(format_reset_time(&time(2025, 0, 13, 17, 4), &now), "17:04");
    assert_eq!(format_reset_time(&time(2025, 0, 13, 0, 0), &now), "00:00");
    assert_eq!(format_reset_time(&time(2025, 0, 13, 8, 59), &now), "08:59");
}

#[test]
fn reset_time_other_day_names_the_date() {
    let now = time(2025, 0, 13, 9, 5);
    assert_eq!(format_reset_time(&time(2025, 0, 20, 17, 4), &now), "17:04 on 20 Jan");
    assert_eq!(format_reset_time(&time(2025, 1, 13, 7, 30), &now), "07:30 on 13 Feb");
    assert_eq!(format_reset_time(&time(2026, 0, 13, 7, 30), &now), "07:30 on 13 Jan");
    assert_eq!(format_reset_time(&time(2025, 11, 1, 23, 59), &now), "23:59 on 1 Dec");
    assert_eq!(format_reset_time(&time(2025, 12, 1, 23, 59), &now), "23:59 on 1 ???");
    assert_eq!(format_reset_time(&time(2025, -1, 1, 23, 59), &now), "23:59 on 1 ???");
}

#[test]
fn reset_time_month_table() {
    let now = time(1999, 0, 1, 0, 0);
    let names = [
        "Jan", "Feb", "Mar", "Apr", "May", "Jun", "Jul", "Aug", "Sep", "Oct", "Nov", "Dec",
    ];
    let mut month = 0;
    while month < 12 {
        assert_eq!(
            format_reset_time(&time(2025, month, 2, 3, 4), &now),
            format!("03:04 on 2 {}", names[month as usize])
        );
        month += 1;
    }
}

#[test]
fn rate_limit_bar_line_exact() {
    let now = time(2025, 0, 13, 9, 5);
    let line = render_rate_limit_bar(
        &window(100, Some(300), Some(1736789074)),
        "5h",
        Some(time(2025, 0, 13, 17, 24)),
        &now,
        12,
    );
    assert_eq!(
        line,
        " 5h limit:       [\u{2588}\u{2588}\u{2588}\u{2588}\u{2588}\u{2588}\u{2588}\u{2588}\u{2588}\u{2588}\u{2588}\u{2588}\u{2588}\u{2588}\u{2588}\u{2588}\u{2588}\u{2588}\u{2588}\u{2588}] 99% left (resets 17:24)"
    );
    let line = render_rate_limit_bar(&window(5000, None, None), "Weekly", None, &now, 12);
    assert_eq!(
        line,
        " Weekly limit:   [\u{2588}\u{2588}\u{2588}\u{2588}\u{2588}\u{2588}\u{2588}\u{2588}\u{2588}\u{2588}\u{2591}\u{2591}\u{2591}\u{2591}\u{2591}\u{2591}\u{2591}\u{2591}\u{2591}\u{2591}] 50% left"
    );
}

#[test]
fn rate_limit_bar_overfull_has_no_empty_cells() {
    let now = time(2025, 0, 13, 9, 5);
    let line = render_rate_limit_bar(&window(-2000, Some(60), None), "5h", None, &now, 0);
    assert_eq!(
        line,
        format!(" 1h limit:   [{}] 120% left", "\u{2588}".repeat(24))
    );
    let line = render_rate_limit_bar(&window(20000, Some(60), None), "5h", None, &now, 0);
    assert_eq!(
        line,
        format!(" 1h limit:   [{}] -100% left", "\u{2591}".repeat(20))
    );
}

#[test]
fn rate_limit_lines_name_windows_and_credits() {
    let times = ResetTimes {
        now: time(2025, 0, 13, 9, 5),
        primary: Some(time(2025, 0, 13, 17, 24)),
        secondary: Some(time(2025, 0, 20, 17, 24)),
    };
    let limits = RateLimitSnapshot {
        primary: Some(window(100, Some(300), Some(1736789074))),
        secondary: Some(window(500, Some(10080), Some(1737393874))),
        credits: Some(CreditsSnapshot {
            has_credits: true,
            unlimited: false,
            balance: Some("12.50".to_string()),
        }),
    };
    let lines = render_rate_limits(&limits, &times, 12);
    assert_eq!(lines.len(), 3);
    assert_eq!(
        lines[0],
        format!(" 5h limit:       [{}] 99% left (resets 17:24)", "\u{2588}".repeat(20))
    );
    assert_eq!(
        lines[1],
        format!(
            " Weekly limit:   [{}\u{2591}] 95% left (resets 17:24 on 20 Jan)",
            "\u{2588}".repeat(19)
        )
    );
    assert_eq!(lines[2], " Credits:        12.50 credits");
}

#[test]
fn rate_limit_lines_fall_back_on_window_names() {
    let times = ResetTimes { now: time(2025, 0, 13, 9, 5), primary: None, secondary: None };
    let limits = RateLimitSnapshot {
        primary: Some(window(0, None, None)),
        secondary: Some(window(10000, None, Some(5))),
        credits: None,
    };
    let lines = render_rate_limits(&limits, &times, 12);
    assert_eq!(lines.len(), 2);
    assert_eq!(lines[0], format!(" 5h limit:       [{}] 100% left", "\u{2588}".repeat(20)));
    assert_eq!(lines[1], format!(" Weekly limit:   [{}] 0% left", "\u{2591}".repeat(20)));
}

#[test]
fn credits_line_cases() {
    let times = ResetTimes { now: time(2025, 0, 13, 9, 5), primary: None, secondary: None };
    let with = |has_credits: bool, unlimited: bool, balance: Option<&str>| RateLimitSnapshot {
        primary: None,
        secondary: None,
        credits: Some(CreditsSnapshot {
            has_credits,
            unlimited,
            balance: balance.map(|b| b.to_string()),
        }),
    };
    assert_eq!(
        render_rate_limits(&with(true, true, Some("7")), &times, 7),
        vec![" Credits:   Unlimited".to_string()]
    );
    assert_eq!(
        render_rate_limits(&with(true, false, Some("7")), &times, 7),
        vec![" Credits:   7 credits".to_string()]
    );
    assert!(render_rate_limits(&with(true, false, None), &times, 7).is_empty());
    assert!(render_rate_limits(&with(false, true, Some("7")), &times, 7).is_empty());
    let none = RateLimitSnapshot { primary: None, secondary: None, credits: None };
    assert!(render_rate_limits(&none, &times, 7).is_empty());
}

#[test]
fn unavailable_placeholder_per_window() {
    assert_eq!(
        render_unavailable(12),
        vec![
            " 5h limit:       data not available yet".to_string(),
            " Weekly limit:   data not available yet".to_string(),
        ]
    );
}
