use yawcli::clock::{start_clock, ClockTime, Weekday};
use yawcli::error::WeatherError;

fn at(weekday: Weekday, hour: u32) -> ClockTime {
    ClockTime { weekday, hour }
}

fn written(clock: ClockTime) -> String {
    let mut out = String::new();
    clock.write(&mut out);
    out
}

#[test]
fn a_timestamp_gives_its_weekday_and_hour() {
    assert_eq!(start_clock("2024-01-01T14:00:00-06:00"), Ok(at(Weekday::Mon, 14)));
    assert_eq!(start_clock("2024-01-06T09:30:00+02:00"), Ok(at(Weekday::Sat, 9)));
    assert_eq!(start_clock("2024-02-29T00:00:00Z"), Ok(at(Weekday::Thu, 0)));
}

#[test]
fn every_weekday_is_told_apart() {
    assert_eq!(start_clock("2024-01-01T01:00:00-06:00"), Ok(at(Weekday::Mon, 1)));
    assert_eq!(start_clock("2024-01-02T02:00:00-06:00"), Ok(at(Weekday::Tue, 2)));
    assert_eq!(start_clock("2024-01-03T03:00:00-06:00"), Ok(at(Weekday::Wed, 3)));
    assert_eq!(start_clock("2024-01-04T04:00:00-06:00"), Ok(at(Weekday::Thu, 4)));
    assert_eq!(start_clock("2024-01-05T05:00:00-06:00"), Ok(at(Weekday::Fri, 5)));
    assert_eq!(start_clock("2024-01-06T06:00:00-06:00"), Ok(at(Weekday::Sat, 6)));
    assert_eq!(start_clock("2024-01-07T07:00:00-06:00"), Ok(at(Weekday::Sun, 7)));
}

#[test]
fn the_time_is_read_in_its_own_offset() {
    // The same instant is Tuesday 05:30 at offset zero.
    assert_eq!(start_clock("2024-01-01T23:30:00-06:00"), Ok(at(Weekday::Mon, 23)));
    assert_eq!(start_clock("2024-01-02T05:30:00+00:00"), Ok(at(Weekday::Tue, 5)));
    // The same instant is Sunday 23:15 at offset zero.
    assert_eq!(start_clock("2024-01-01T01:15:00+02:00"), Ok(at(Weekday::Mon, 1)));
}

#[test]
fn a_text_that_is_no_timestamp_is_a_format_error() {
    assert!(matches!(start_clock(""), Err(WeatherError::Format(_))));
    assert!(matches!(start_clock("tomorrow"), Err(WeatherError::Format(_))));
    assert!(matches!(start_clock("2024-01-01"), Err(WeatherError::Format(_))));
    assert!(matches!(start_clock("2024-13-01T14:00:00-06:00"), Err(WeatherError::Format(_))));
    assert!(matches!(start_clock("2024-02-30T14:00:00-06:00"), Err(WeatherError::Format(_))));
}

#[test]
fn a_timestamp_without_offset_is_a_format_error() {
    assert!(matches!(start_clock("2024-01-01T14:00:00"), Err(WeatherError::Format(_))));
}

#[test]
fn a_format_error_says_what_was_wrong() {
    match start_clock("not a time at all, surely") {
        Err(error) => assert!(!error.message().is_empty()),
        Ok(_) => panic!("accepted"),
    }
}

#[test]
fn weekday_names_have_three_letters() {
    assert_eq!(Weekday::Mon.name(), "Mon");
    assert_eq!(Weekday::Tue.name(), "Tue");
    assert_eq!(Weekday::Wed.name(), "Wed");
    assert_eq!(Weekday::Thu.name(), "Thu");
    assert_eq!(Weekday::Fri.name(), "Fri");
    assert_eq!(Weekday::Sat.name(), "Sat");
    assert_eq!(Weekday::Sun.name(), "Sun");
}

#[test]
fn the_dial_shows_twelve_at_midnight_and_noon() {
    assert_eq!(at(Weekday::Mon, 0).hour12(), (false, 12));
    assert_eq!(at(Weekday::Mon, 12).hour12(), (true, 12));
}

#[test]
fn the_dial_counts_one_to_eleven_in_each_half() {
    assert_eq!(at(Weekday::Mon, 1).hour12(), (false, 1));
    assert_eq!(at(Weekday::Mon, 11).hour12(), (false, 11));
    assert_eq!(at(Weekday::Mon, 13).hour12(), (true, 1));
    assert_eq!(at(Weekday::Mon, 14).hour12(), (true, 2));
    assert_eq!(at(Weekday::Mon, 23).hour12(), (true, 11));
}

#[test]
fn a_clock_time_is_written_as_weekday_hour_and_half() {
    assert_eq!(written(at(Weekday::Mon, 14)), "Mon 2pm");
    assert_eq!(written(at(Weekday::Sun, 0)), "Sun 12am");
    assert_eq!(written(at(Weekday::Fri, 12)), "Fri 12pm");
    assert_eq!(written(at(Weekday::Wed, 9)), "Wed 9am");
    assert_eq!(written(at(Weekday::Sat, 22)), "Sat 10pm");
}

#[test]
fn writing_a_clock_time_keeps_what_is_there() {
    let mut out = String::from("at ");
    at(Weekday::Thu, 17).write(&mut out);
    assert_eq!(out, "at Thu 5pm");
}
