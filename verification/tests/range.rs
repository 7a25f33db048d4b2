use wakatime_updater::error::ErrorKind;
use wakatime_updater::wakatime::stats::validate_range;

#[test]
fn range_accepts_the_five_keywords() {
    for range in ["last_7_days", "last_30_days", "last_6_months", "last_year", "all_time"] {
        assert!(validate_range(range).is_ok(), "{}", range);
    }
}

#[test]
fn range_accepts_any_four_digit_year() {
    for range in ["2024", "0000", "9999", "1970"] {
        assert!(validate_range(range).is_ok(), "{}", range);
    }
}

#[test]
fn range_accepts_a_year_with_each_month() {
    for month in 1..=12 {
        let range = format!("2024-{:02}", month);
        assert!(validate_range(&range).is_ok(), "{}", range);
    }
}

#[test]
fn range_rejects_a_month_out_of_range() {
    for range in ["2024-13", "2024-00", "2024-99", "2024-20"] {
        assert!(validate_range(range).is_err(), "{}", range);
    }
}

#[test]
fn range_rejects_everything_else() {
    let rejected = [
        "",
        "7days",
        "last_7_day",
        "last_7_days ",
        "LAST_7_DAYS",
        "last_14_days",
        "202",
        "20245",
        "20a4",
        "2024-1",
        "2024-001",
        "2024/01",
        "2024-1a",
        "202a-01",
        "-202401",
        "2024-0١",
        "٢٠٢٤",
        "２０２４",
        "+024",
        "é12",
    ];
    for range in rejected {
        assert!(validate_range(range).is_err(), "{:?}", range);
    }
}

#[test]
fn range_error_names_the_token_and_the_choices() {
    let err = validate_range("7days").unwrap_err();
    assert_eq!(err.kind, ErrorKind::Validation);
    assert_eq!(
        err.message,
        "Invalid range format: '7days'. Expected: YYYY, YYYY-MM, or one of: last_7_days, last_30_days, last_6_months, last_year, all_time"
    );
}

/// The same rule, written with the string methods of the standard library.
fn accepted_by_splitting(range: &str) -> bool {
    let keywords = ["last_7_days", "last_30_days", "last_6_months", "last_year", "all_time"];
    if keywords.contains(&range) {
        return true;
    }
    if range.len() == 4 && range.chars().all(|c| c.is_ascii_digit()) {
        return true;
    }
    if range.len() == 7 {
        let parts: Vec<&str> = range.split('-').collect();
        if parts.len() == 2 {
            let (year, month) = (parts[0], parts[1]);
            if year.len() == 4
                && year.chars().all(|c| c.is_ascii_digit())
                && month.len() == 2
                && month.chars().all(|c| c.is_ascii_digit())
            {
                if let Ok(number) = month.parse::<u32>() {
                    return (1..=12).contains(&number);
                }
            }
        }
    }
    false
}

#[test]
fn range_agrees_with_splitting_on_every_short_token() {
    let alphabet = ['0', '1', '2', '3', '9', '-', 'a', 'é'];
    let mut tokens: Vec<String> = vec![String::new()];
    let mut checked = 0usize;
    for _length in 0..=7 {
        let mut longer = Vec::new();
        for token in &tokens {
            assert_eq!(validate_range(token).is_ok(), accepted_by_splitting(token), "{:?}", token);
            checked += 1;
            if token.chars().count() < 7 {
                for c in alphabet {
                    let mut next = token.clone();
                    next.push(c);
                    longer.push(next);
                }
            }
        }
        tokens = longer;
    }
    assert!(checked > 2_000_000);
}
