//! What the user asked for, and the run that answers it.

use vstd::prelude::*;
use crate::error::{WeatherError, WeatherResult};
use crate::forecast::HourlyForecast;
use crate::location::{get_data_from_ip, located, Location, LOCATION_PAGE};
use crate::print::{
    print_hourly_forecast,
    print_hourly_forecast_colored,
    report_complete,
    written_text,
};

verus! {

/// The rendering options of a run.
#[derive(Debug, Clone, Copy, PartialEq, Eq)]
pub struct Config {
    /// Show temperatures in Celsius.
    pub celsius: bool,
    /// How many hours of forecast were asked for.
    pub hours: usize,
    /// Colour the output with ANSI escape sequences.
    pub color: bool,
}

/// Whether the character is a decimal digit.
pub open spec fn is_digit(c: char) -> bool {
    '0' <= c <= '9'
}

/// The number that digits write; the empty text writes zero.
pub open spec fn digits_value(digits: Seq<char>) -> int
    decreases digits.len(),
{
    if digits.len() == 0 {
        0
    } else {
        10 * digits_value(digits.drop_last()) + (digits.last() as int - '0' as int)
    }
}

/// The text without the plus sign that may lead it.
pub open spec fn unsigned_part(text: Seq<char>) -> Seq<char> {
    if text.len() > 0 && text[0] == '+' {
        text.drop_first()
    } else {
        text
    }
}

/// Whether the text writes a number of hours: one or more decimal digits,
/// with or without a plus sign before them, whose value the machine can
/// hold.
pub open spec fn is_count(text: Seq<char>) -> bool {
    let digits = unsigned_part(text);
    &&& digits.len() > 0
    &&& forall|i: int| 0 <= i < digits.len() ==> is_digit(#[trigger] digits[i])
    &&& digits_value(digits) <= usize::MAX
}

/// The number of hours that the text writes.
pub open spec fn count_value(text: Seq<char>) -> int {
    digits_value(unsigned_part(text))
}

/// More digits never write a smaller number.
proof fn lemma_digits_value_grows(digits: Seq<char>, shorter: int)
    requires
        0 <= shorter <= digits.len(),
        forall|i: int| 0 <= i < digits.len() ==> is_digit(#[trigger] digits[i]),
    ensures
        0 <= digits_value(digits.take(shorter)) <= digits_value(digits),
    decreases digits.len() - shorter,
{
    if shorter == digits.len() {
        assert(digits.take(shorter) =~= digits);
        lemma_digits_value_positive(digits);
    } else {
        lemma_digits_value_grows(digits, shorter + 1);
        let longer = digits.take(shorter + 1);
        assert(longer.drop_last() =~= digits.take(shorter));
        assert(is_digit(digits[shorter]));
        assert(longer.last() == digits[shorter]);
        lemma_digits_value_positive(digits.take(shorter));
    }
}

/// Digits write no negative number.
proof fn lemma_digits_value_positive(digits: Seq<char>)
    requires
        forall|i: int| 0 <= i < digits.len() ==> is_digit(#[trigger] digits[i]),
    ensures
        0 <= digits_value(digits),
    decreases digits.len(),
{
    if digits.len() > 0 {
        lemma_digits_value_positive(digits.drop_last());
        assert(is_digit(digits[digits.len() - 1]));
    }
}

/// Reads the number of hours from the text of the argument.
///
/// Fails with an argument error exactly where the text is not a
/// non-negative integer that the machine can hold: where it is empty, holds
/// anything but decimal digits after an optional plus sign, or is too
/// large.
pub fn parse_hours(text: &str) -> (parsed: WeatherResult<usize>)
    ensures
        match parsed {
            Ok(hours) => is_count(text@) && hours == count_value(text@),
            Err(error) => !is_count(text@) && error is Argument,
        },
{
    let length = text.unicode_len();
    if length == 0 {
        return Err(WeatherError::Argument("cannot parse integer from empty string".to_owned()));
    }
    let start: usize = if text.get_char(0) == '+' {
        1
    } else {
        0
    };
    let ghost digits = unsigned_part(text@);
    assert(digits =~= text@.subrange(start as int, length as int));
    if start == length {
        return Err(WeatherError::Argument("invalid digit found in string".to_owned()));
    }
    let mut value: usize = 0;
    let mut position: usize = start;
    while position < length
        invariant
            start <= position <= length,
            length == text@.len(),
            digits == text@.subrange(start as int, length as int),
            digits == unsigned_part(text@),
            forall|i: int| 0 <= i < position - start ==> is_digit(#[trigger] digits[i]),
            value == digits_value(digits.take(position - start)),
        decreases length - position,
    {
        let c = text.get_char(position);
        assert(c == digits[position - start]);
        if c < '0' || c > '9' {
            return Err(WeatherError::Argument("invalid digit found in string".to_owned()));
        }
        let digit: usize = (c as u32 - '0' as u32) as usize;
        let ghost longer = digits.take(position - start + 1);
        proof {
            assert(longer.drop_last() =~= digits.take(position - start));
            assert(longer.last() == c);
            assert(digits_value(longer) == 10 * value + digit);
            if forall|i: int| 0 <= i < digits.len() ==> is_digit(#[trigger] digits[i]) {
                lemma_digits_value_grows(digits, position - start + 1);
            }
        }
        let scaled = match value.checked_mul(10) {
            Some(scaled) => scaled,
            None => {
                return Err(
                    WeatherError::Argument("number too large to fit in target type".to_owned()),
                );
            },
        };
        value = match scaled.checked_add(digit) {
            Some(sum) => sum,
            None => {
                return Err(
                    WeatherError::Argument("number too large to fit in target type".to_owned()),
                );
            },
        };
        position += 1;
    }
    assert(digits.take(position - start) =~= digits);
    Ok(value)
}

/// Makes the options of a run from what the command line gave: whether
/// Celsius was asked for, the text of the number of hours, and whether
/// colour was asked for.
///
/// Fails with an argument error exactly where the hours are not a
/// non-negative integer.
pub fn get_args(celsius: bool, hours: &str, color: bool) -> (parsed: WeatherResult<Config>)
    ensures
        match parsed {
            Ok(config) => is_count(hours@) && config.hours == count_value(hours@) && config.celsius
                == celsius && config.color == color,
            Err(error) => !is_count(hours@) && error is Argument,
        },
{
    match parse_hours(hours) {
        Ok(count) => Ok(Config { celsius, hours: count, color }),
        Err(error) => Err(error),
    }
}

/// What a run has learned when its next step is decided.
#[derive(Debug, PartialEq, Eq)]
pub enum Event {
    /// Nothing yet: the run begins.
    Start,
    /// The geolocation page was asked for: its text, or why there is none.
    Page(WeatherResult<String>),
    /// The forecast at the location was looked up: the forecast, or why
    /// there is none.
    Forecast(Location, WeatherResult<HourlyForecast>),
}

/// What a run does next.
#[derive(Debug, PartialEq, Eq)]
pub enum Step {
    /// Get the page at this address, and come back with it.
    FetchPage(String),
    /// Look up the hourly forecast at this location, and come back with
    /// both.
    LookUp(Location),
    /// The run is over.
    Done(WeatherResult<()>),
}

/// Decides the next step of a run from what the step before brought, and
/// writes the report to `out` once location and forecast are there.
///
/// The location is resolved first, then the forecast at its coordinates,
/// then the report is written: coloured where `config.color` is set, plain
/// otherwise. The first failure ends the run and is its result. Nothing is
/// written before the report, and of a report that fails nothing after the
/// last good line.
pub fn run(config: Config, event: Event, out: &mut String) -> (next: Step)
    ensures
        match event {
            Event::Start => {
                &&& next matches Step::FetchPage(address)
                &&& address@ == LOCATION_PAGE@
                &&& final(out)@ == old(out)@
            },
            Event::Page(Ok(body)) => {
                &&& next matches Step::LookUp(location)
                &&& location@ == located(body@)
                &&& final(out)@ == old(out)@
            },
            Event::Page(Err(error)) => {
                &&& next == Step::Done(Err(error))
                &&& final(out)@ == old(out)@
            },
            Event::Forecast(_, Err(error)) => {
                &&& next == Step::Done(Err(error))
                &&& final(out)@ == old(out)@
            },
            Event::Forecast(location, Ok(hourly_forecast)) => {
                &&& next matches Step::Done(outcome)
                &&& outcome is Ok <==> report_complete(hourly_forecast.forecast.periods@, config)
                &&& outcome matches Err(error) ==> error is Format
                &&& final(out)@ == old(out)@ + written_text(
                    location@,
                    hourly_forecast.forecast.periods@,
                    config,
                    config.color,
                )
            },
        },
{
    match event {
        Event::Start => Step::FetchPage(LOCATION_PAGE.to_owned()),
        Event::Page(Ok(body)) => Step::LookUp(get_data_from_ip(body.as_str())),
        Event::Page(Err(error)) => Step::Done(Err(error)),
        Event::Forecast(_, Err(error)) => Step::Done(Err(error)),
        Event::Forecast(location, Ok(hourly_forecast)) => {
            if config.color {
                Step::Done(print_hourly_forecast_colored(location, hourly_forecast, config, out))
            } else {
                Step::Done(print_hourly_forecast(location, hourly_forecast, config, out))
            }
        },
    }
}

} // verus!
