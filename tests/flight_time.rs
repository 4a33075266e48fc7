use aquila_perf::flight_time::{duration_to_hh_mm, parse_time_to_duration, TimeParseError};

#[test]
fn parses_hours_and_minutes() {
    assert_eq!(parse_time_to_duration("01:30"), Ok(5400));
    assert_eq!(parse_time_to_duration("0:0"), Ok(0));
    assert_eq!(parse_time_to_duration("+2:05"), Ok(7500));
    assert_eq!(parse_time_to_duration("10:90"), Ok(41400));
}

#[test]
fn wrong_number_of_colons() {
    assert_eq!(parse_time_to_duration("0130"), Err(TimeParseError::WrongFormat));
    assert_eq!(parse_time_to_duration("1:30:00"), Err(TimeParseError::WrongFormat));
    assert_eq!(parse_time_to_duration(""), Err(TimeParseError::WrongFormat));
}

#[test]
fn parts_that_are_not_numbers() {
    assert_eq!(parse_time_to_duration("ab:10"), Err(TimeParseError::InvalidNumber));
    assert_eq!(parse_time_to_duration(":10"), Err(TimeParseError::InvalidNumber));
    assert_eq!(parse_time_to_duration("1:"), Err(TimeParseError::InvalidNumber));
    assert_eq!(parse_time_to_duration("-1:10"), Err(TimeParseError::InvalidNumber));
    assert_eq!(parse_time_to_duration("+:10"), Err(TimeParseError::InvalidNumber));
    assert_eq!(parse_time_to_duration(" 1:10"), Err(TimeParseError::InvalidNumber));
    assert_eq!(parse_time_to_duration("1:1é"), Err(TimeParseError::InvalidNumber));
    assert_eq!(parse_time_to_duration("1:18446744073709551616"), Err(TimeParseError::InvalidNumber));
}

#[test]
fn duration_beyond_64_bits() {
    assert_eq!(parse_time_to_duration("5124095576030432:00"), Err(TimeParseError::Overflow));
    assert_eq!(parse_time_to_duration("5124095576030431:00"), Ok(18446744073709551600));
    assert_eq!(parse_time_to_duration("0:307445734561825860"), Ok(18446744073709551600));
    assert_eq!(parse_time_to_duration("0:307445734561825861"), Err(TimeParseError::Overflow));
}

#[test]
fn formats_hours_and_minutes() {
    assert_eq!(duration_to_hh_mm(5400), "01:30");
    assert_eq!(duration_to_hh_mm(0), "00:00");
    assert_eq!(duration_to_hh_mm(3599), "00:59");
    assert_eq!(duration_to_hh_mm(36000), "10:00");
    assert_eq!(duration_to_hh_mm(360000 + 45 * 60 + 59), "100:45");
}

#[test]
fn parse_then_format_round_trip() {
    let secs = parse_time_to_duration("02:07").unwrap();
    assert_eq!(duration_to_hh_mm(secs), "02:07");
}
