//! The weekday and hour at which a forecast period starts, read from its
//! timestamp in the timestamp's own offset.

use vstd::prelude::*;
use crate::error::{WeatherError, WeatherResult};
use crate::text::{natural_text, push_natural};

verus! {

/// A day of the week.
#[derive(Debug, Clone, Copy, PartialEq, Eq, Structural)]
pub enum Weekday {
    Mon,
    Tue,
    Wed,
    Thu,
    Fri,
    Sat,
    Sun,
}

/// The civil weekday and hour of an instant, in the offset it was written
/// with. The hour counts from 0 to 23.
#[derive(Debug, Clone, Copy, PartialEq, Eq, Structural)]
pub struct ClockTime {
    pub weekday: Weekday,
    pub hour: u32,
}

/// What the RFC 3339 parser reads from a timestamp: the weekday and hour
/// of the instant in its own offset, or `None` where `text` is not a valid
/// timestamp with offset.
pub uninterp spec fn rfc3339_clock(text: Seq<char>) -> Option<ClockTime>;

#[verifier::external_type_specification]
#[verifier::external_body]
pub struct ExParseError(chrono::format::ParseError);

/// Calls `chrono::DateTime::parse_from_rfc3339` and reads the result with
/// `chrono::Datelike::weekday` and `chrono::Timelike::hour`, both of which
/// answer in the timestamp's own offset.
///
/// Trusted: that success, and the weekday and hour read, depend on the
/// text alone, which is what `rfc3339_clock` names. Nothing is claimed of
/// which texts are accepted.
#[verifier::external_body]
fn parse_start_time(text: &str) -> (parsed: Result<ClockTime, chrono::format::ParseError>)
    ensures
        match parsed {
            Ok(clock) => rfc3339_clock(text@) == Some(clock),
            Err(_) => rfc3339_clock(text@) is None,
        },
{
    let time = chrono::DateTime::parse_from_rfc3339(text)?;
    let weekday = match chrono::Datelike::weekday(&time) {
        chrono::Weekday::Mon => Weekday::Mon,
        chrono::Weekday::Tue => Weekday::Tue,
        chrono::Weekday::Wed => Weekday::Wed,
        chrono::Weekday::Thu => Weekday::Thu,
        chrono::Weekday::Fri => Weekday::Fri,
        chrono::Weekday::Sat => Weekday::Sat,
        chrono::Weekday::Sun => Weekday::Sun,
    };
    Ok(ClockTime { weekday, hour: chrono::Timelike::hour(&time) })
}

/// Calls `to_string` on a `chrono::format::ParseError`: the parser's own
/// description of what was wrong. Nothing is claimed of the wording.
#[verifier::external_body]
fn parse_error_text(error: &chrono::format::ParseError) -> String {
    error.to_string()
}

/// Reads the weekday and hour at which a period starts from its timestamp.
///
/// Fails with a format error exactly where the text is not a valid
/// timestamp with offset.
pub fn start_clock(text: &str) -> (parsed: WeatherResult<ClockTime>)
    ensures
        match parsed {
            Ok(clock) => rfc3339_clock(text@) == Some(clock),
            Err(error) => rfc3339_clock(text@) is None && error is Format,
        },
{
    match parse_start_time(text) {
        Ok(clock) => Ok(clock),
        Err(error) => Err(WeatherError::Format(parse_error_text(&error))),
    }
}

/// The three-letter name of a weekday.
pub open spec fn weekday_text(weekday: Weekday) -> Seq<char> {
    match weekday {
        Weekday::Mon => "Mon"@,
        Weekday::Tue => "Tue"@,
        Weekday::Wed => "Wed"@,
        Weekday::Thu => "Thu"@,
        Weekday::Fri => "Fri"@,
        Weekday::Sat => "Sat"@,
        Weekday::Sun => "Sun"@,
    }
}

/// The hour on a 12-hour dial: 12 for midnight and noon.
pub open spec fn dial_hour(hour: int) -> int {
    if hour % 12 == 0 {
        12
    } else {
        hour % 12
    }
}

/// Whether the hour falls in the second half of the day.
pub open spec fn is_afternoon(hour: int) -> bool {
    hour >= 12
}

/// The marker of the half of the day.
pub open spec fn half_day_text(hour: int) -> Seq<char> {
    if is_afternoon(hour) {
        "pm"@
    } else {
        "am"@
    }
}

/// A clock time as it is shown: weekday, hour on the 12-hour dial and the
/// half of the day, as in `Mon 2pm`.
pub open spec fn clock_text(clock: ClockTime) -> Seq<char> {
    weekday_text(clock.weekday) + " "@ + natural_text(dial_hour(clock.hour as int) as nat)
        + half_day_text(clock.hour as int)
}

impl Weekday {
    /// The three-letter name of the weekday.
    pub fn name(self) -> (text: &'static str)
        ensures
            text@ == weekday_text(self),
    {
        match self {
            Weekday::Mon => "Mon",
            Weekday::Tue => "Tue",
            Weekday::Wed => "Wed",
            Weekday::Thu => "Thu",
            Weekday::Fri => "Fri",
            Weekday::Sat => "Sat",
            Weekday::Sun => "Sun",
        }
    }
}

impl ClockTime {
    /// The hour on the 12-hour dial, from 1 to 12, with a flag that is
    /// false before noon and true from noon on.
    pub fn hour12(&self) -> (dial: (bool, u32))
        ensures
            dial.0 == is_afternoon(self.hour as int),
            dial.1 == dial_hour(self.hour as int),
            1 <= dial.1 <= 12,
    {
        let remainder = self.hour % 12;
        let shown = if remainder == 0 {
            12
        } else {
            remainder
        };
        (self.hour >= 12, shown)
    }

    /// Appends the clock time to `out`, as in `Mon 2pm`.
    pub fn write(&self, out: &mut String)
        ensures
            final(out)@ == old(out)@ + clock_text(*self),
    {
        let (afternoon, shown) = self.hour12();
        out.append(self.weekday.name());
        out.append(" ");
        push_natural(out, shown as u64);
        out.append(
            if afternoon {
                "pm"
            } else {
                "am"
            },
        );
        assert(out@ =~= old(out)@ + clock_text(*self));
    }
}

} // verus!
