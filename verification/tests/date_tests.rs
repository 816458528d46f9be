use dot_pr_review::date::{days_in_month_exec, parse_date, Date};

#[test]
fn plain_date_parses() {
    let d = parse_date("2024-01-15").unwrap();
    assert_eq!(d, Date { year: 2024, month: 1, day: 15 });
}

#[test]
fn invalid_month_is_rejected() {
    let e = parse_date("2024-13-01").unwrap_err();
    assert_eq!(e.input, "2024-13-01");
    assert!(parse_date("2024-00-10").is_err());
}

#[test]
fn leap_day_depends_on_the_year() {
    assert_eq!(parse_date("2024-02-29").unwrap(), Date { year: 2024, month: 2, day: 29 });
    assert!(parse_date("2023-02-29").is_err());
    assert!(parse_date("1900-02-29").is_err());
    assert_eq!(parse_date("2000-02-29").unwrap(), Date { year: 2000, month: 2, day: 29 });
}

#[test]
fn day_must_fit_the_month() {
    assert!(parse_date("2024-06-31").is_err());
    assert_eq!(parse_date("2024-06-30").unwrap(), Date { year: 2024, month: 6, day: 30 });
    assert!(parse_date("2024-04-00").is_err());
}

#[test]
fn format_is_strict() {
    assert!(parse_date("2024-1-5").is_err());
    assert!(parse_date("24-01-05").is_err());
    assert!(parse_date("2024/01/05").is_err());
    assert!(parse_date("2024-01-150").is_err());
    assert!(parse_date("").is_err());
    assert!(parse_date("2024-01-1x").is_err());
}

#[test]
fn formatting_round_trips() {
    let d = parse_date("2024-06-01").unwrap();
    assert_eq!(d.to_iso_string(), "2024-06-01");
    let d = parse_date("0007-12-31").unwrap();
    assert_eq!(d.to_iso_string(), "0007-12-31");
}

#[test]
fn four_digit_year_boundaries() {
    assert_eq!(parse_date("0000-01-01").unwrap(), Date { year: 0, month: 1, day: 1 });
    assert_eq!(parse_date("9999-12-31").unwrap(), Date { year: 9999, month: 12, day: 31 });
}

#[test]
fn month_lengths() {
    assert_eq!(days_in_month_exec(2024, 2), 29);
    assert_eq!(days_in_month_exec(2023, 2), 28);
    assert_eq!(days_in_month_exec(2000, 2), 29);
    assert_eq!(days_in_month_exec(1900, 2), 28);
    assert_eq!(days_in_month_exec(2024, 4), 30);
    assert_eq!(days_in_month_exec(2024, 12), 31);
}
