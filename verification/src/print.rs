//! The report: a location header, a count line, and one line for each
//! forecast period that is shown.

use vstd::prelude::*;
use crate::cli::Config;
use crate::clock::{clock_text, rfc3339_clock, start_clock, ClockTime};
use crate::error::WeatherResult;
use crate::forecast::{ForecastPeriod, HourlyForecast, Temperature};
use crate::location::{Location, LocationView};
use crate::text::{
    decimal_text,
    integer_part,
    integer_part_text,
    natural_text,
    push_decimal,
    push_natural,
};

verus! {

/// No report shows more periods than this.
pub const MAX_HOURS: usize = 24;

/// Ends a coloured segment: all colours back to the terminal's own.
pub const RESET: &'static str = "\x1b[0m";

/// The unit shown for a converted temperature.
pub const CELSIUS_UNIT: &'static str = "C";

/// The three segments of a period's line.
#[derive(Debug, Clone, Copy, PartialEq, Eq, Structural)]
pub enum Part {
    Temperature,
    Conditions,
    Wind,
}

/// The colours of one line: a background shared by the line's segments
/// and a foreground for each of them, as ANSI colour codes.
#[derive(Debug, Clone, Copy, PartialEq, Eq, Structural)]
pub struct Palette {
    pub background: u8,
    pub temperature: u8,
    pub conditions: u8,
    pub wind: u8,
}

impl Palette {
    /// The foreground of a segment.
    pub open spec fn foreground_of(self, part: Part) -> u8 {
        match part {
            Part::Temperature => self.temperature,
            Part::Conditions => self.conditions,
            Part::Wind => self.wind,
        }
    }

    /// The foreground of a segment.
    pub fn foreground(&self, part: Part) -> (code: u8)
        ensures
            code == self.foreground_of(part),
    {
        match part {
            Part::Temperature => self.temperature,
            Part::Conditions => self.conditions,
            Part::Wind => self.wind,
        }
    }
}

/// The palette of the period at `index`: one for the even places, another
/// for the odd ones. They differ in the background alone.
pub open spec fn palette_of(index: int) -> Palette {
    Palette {
        background: if index % 2 == 0 {
            47
        } else {
            100
        },
        temperature: 30,
        conditions: 34,
        wind: 35,
    }
}

/// How the line of the period at `index` is dressed: by its palette in a
/// coloured report, not at all in a plain one.
pub open spec fn style_of(colored: bool, index: int) -> Option<Palette> {
    if colored {
        Some(palette_of(index))
    } else {
        None
    }
}

/// The nearest integer to `numerator / denominator`, for a numerator that
/// is not negative and a positive denominator. A value midway between two
/// integers goes to the even one.
pub open spec fn round_half_even(numerator: int, denominator: int) -> int {
    let quotient = numerator / denominator;
    let remainder = numerator % denominator;
    if 2 * remainder < denominator || (2 * remainder == denominator && quotient % 2 == 0) {
        quotient
    } else {
        quotient + 1
    }
}

/// The nearest integer to `numerator / denominator`, for a positive
/// denominator: a negative value is rounded as its magnitude is.
pub open spec fn nearest(numerator: int, denominator: int) -> int {
    if numerator >= 0 {
        round_half_even(numerator, denominator)
    } else {
        -round_half_even(-numerator, denominator)
    }
}

/// A reading rounded to the nearest whole degree.
pub open spec fn whole_degrees(thousandths: int) -> int {
    nearest(thousandths, 1000)
}

/// The Celsius value shown for a Fahrenheit reading `f`, given in
/// thousandths of a degree: `(f - 32) * 0.5556`, with that very constant,
/// rounded to the nearest whole degree.
pub open spec fn celsius_of(thousandths: int) -> int {
    nearest(5556 * (thousandths - 32000), 10000000)
}

/// The temperature that a period's line shows, in whole degrees.
pub open spec fn shown_temperature(period: ForecastPeriod, celsius: bool) -> int {
    if celsius {
        celsius_of(period.temperature.thousandths as int)
    } else {
        whole_degrees(period.temperature.thousandths as int)
    }
}

/// The unit that a period's line shows: `C` for a converted temperature,
/// whatever the service reported; else the service's own.
pub open spec fn shown_unit(period: ForecastPeriod, celsius: bool) -> Seq<char> {
    if celsius {
        CELSIUS_UNIT@
    } else {
        period.unit@
    }
}

/// The escape sequence that sets a background and a foreground.
pub open spec fn escape_text(background: u8, foreground: u8) -> Seq<char> {
    "\x1b["@ + natural_text(background as nat) + ";"@ + natural_text(foreground as nat) + "m"@
}

/// What opens a segment: its colours, or a bracket in a plain report.
pub open spec fn opening_text(style: Option<Palette>, part: Part) -> Seq<char> {
    match style {
        Some(palette) => escape_text(palette.background, palette.foreground_of(part)),
        None => "["@,
    }
}

/// What closes a segment.
pub open spec fn closing_text(style: Option<Palette>) -> Seq<char> {
    match style {
        Some(_) => RESET@,
        None => "]"@,
    }
}

/// What stands between two segments: nothing where colours tell them
/// apart.
pub open spec fn gap_text(style: Option<Palette>) -> Seq<char> {
    match style {
        Some(_) => Seq::empty(),
        None => "  "@,
    }
}

/// What a segment says.
pub open spec fn part_text(period: ForecastPeriod, celsius: bool, part: Part) -> Seq<char> {
    match part {
        Part::Temperature => " Temp: "@ + decimal_text(shown_temperature(period, celsius))
            + "\u{b0}"@ + shown_unit(period, celsius) + " "@,
        Part::Conditions => " Conditions: "@ + period.short_forecast@ + " "@,
        Part::Wind => " Wind: "@ + period.wind_speed@ + " "@ + period.wind_direction@ + " "@,
    }
}

/// A segment of a period's line, opened and closed.
pub open spec fn segment_text(
    period: ForecastPeriod,
    celsius: bool,
    style: Option<Palette>,
    part: Part,
) -> Seq<char> {
    opening_text(style, part) + part_text(period, celsius, part) + closing_text(style)
}

/// The line of a period that starts at `clock`: when, then temperature,
/// conditions and wind, in that order.
#[verifier::opaque]
pub open spec fn period_line(
    period: ForecastPeriod,
    clock: ClockTime,
    celsius: bool,
    style: Option<Palette>,
) -> Seq<char> {
    "  "@ + clock_text(clock) + ":  "@ + segment_text(period, celsius, style, Part::Temperature)
        + gap_text(style) + segment_text(period, celsius, style, Part::Conditions) + gap_text(
        style,
    ) + segment_text(period, celsius, style, Part::Wind)
}

/// The header: the place by its names, then the whole degrees of its
/// coordinates.
pub open spec fn header_line(location: LocationView) -> Seq<char> {
    location.city + ", "@ + location.region + " | "@ + location.country + " ("@
        + integer_part_text(location.latitude) + ", "@ + integer_part_text(location.longitude)
        + ")"@
}

/// The number that the count line announces.
pub open spec fn announced_hours(hours: int) -> int {
    if hours < MAX_HOURS {
        hours
    } else {
        MAX_HOURS as int
    }
}

/// The count line.
pub open spec fn count_line(hours: int) -> Seq<char> {
    "Weather for the next "@ + decimal_text(announced_hours(hours)) + " hour(s):"@
}

/// How many periods a report is to show: as many as were asked for, but
/// no more than `MAX_HOURS` and no more than there are.
pub open spec fn shown_count(hours: int, available: int) -> int {
    if announced_hours(hours) < available {
        announced_hours(hours)
    } else {
        available
    }
}

/// Whether the period's timestamp can be read.
pub open spec fn readable(period: ForecastPeriod) -> bool {
    rfc3339_clock(period.time@) is Some
}

/// How many of the first `limit` periods come before the first one whose
/// timestamp cannot be read: `limit` where all of them can.
pub open spec fn readable_count(periods: Seq<ForecastPeriod>, limit: int) -> int
    decreases limit,
{
    if limit <= 0 {
        0
    } else {
        let before = readable_count(periods, limit - 1);
        if before == limit - 1 && readable(periods[limit - 1]) {
            limit
        } else {
            before
        }
    }
}

/// The lines of the first `count` periods, each read at its own start.
pub open spec fn period_lines(
    periods: Seq<ForecastPeriod>,
    celsius: bool,
    colored: bool,
    count: int,
) -> Seq<Seq<char>> {
    Seq::new(
        count as nat,
        |i: int|
            period_line(
                periods[i],
                rfc3339_clock(periods[i].time@).unwrap(),
                celsius,
                style_of(colored, i),
            ),
    )
}

/// Lines as one text, each ended by a line feed.
pub open spec fn lines_text(lines: Seq<Seq<char>>) -> Seq<char>
    decreases lines.len(),
{
    if lines.len() == 0 {
        Seq::empty()
    } else {
        lines_text(lines.drop_last()) + lines.last() + "\n"@
    }
}

/// The lines of a report that shows the first `count` periods.
#[verifier::opaque]
pub open spec fn report_lines(
    location: LocationView,
    periods: Seq<ForecastPeriod>,
    config: Config,
    colored: bool,
    count: int,
) -> Seq<Seq<char>> {
    seq![header_line(location), count_line(config.hours as int)] + period_lines(
        periods,
        config.celsius,
        colored,
        count,
    )
}

/// What a report writes: the two header lines, then the lines of the
/// periods to show, up to the first whose timestamp cannot be read.
pub open spec fn written_text(
    location: LocationView,
    periods: Seq<ForecastPeriod>,
    config: Config,
    colored: bool,
) -> Seq<char> {
    lines_text(
        report_lines(
            location,
            periods,
            config,
            colored,
            readable_count(periods, shown_count(config.hours as int, periods.len() as int)),
        ),
    )
}

/// Whether a report comes to its end: every period to show can be read.
pub open spec fn report_complete(periods: Seq<ForecastPeriod>, config: Config) -> bool {
    readable_count(periods, shown_count(config.hours as int, periods.len() as int))
        == shown_count(config.hours as int, periods.len() as int)
}

/// The shown Celsius value is a nearest integer to `(f - 32) * 0.5556`:
/// it is off by no more than half a degree. Here `f` is the reading in
/// degrees, given in thousandths.
pub proof fn lemma_celsius_nearest(thousandths: int)
    ensures
        -5000000 <= 10000000 * celsius_of(thousandths) - 5556 * (thousandths - 32000)
            <= 5000000,
{
}

/// A reading of a whole number of Fahrenheit degrees `f` is shown in
/// Celsius as the nearest integer to `(f - 32) * 0.5556`.
pub proof fn lemma_celsius_of_degrees(degrees: int)
    ensures
        celsius_of(1000 * degrees) == nearest(5556 * (degrees - 32), 10000),
        -5000 <= 10000 * celsius_of(1000 * degrees) - 5556 * (degrees - 32) <= 5000,
{
}

/// The whole degrees shown are a nearest integer to the reading, and a
/// reading of whole degrees is shown as it is.
pub proof fn lemma_whole_degrees_nearest(thousandths: int)
    ensures
        -500 <= 1000 * whole_degrees(thousandths) - thousandths <= 500,
        thousandths % 1000 == 0 ==> 1000 * whole_degrees(thousandths) == thousandths,
{
}

/// The number of periods shown is the smallest of the hours asked for,
/// `MAX_HOURS` and the number of periods there are.
pub proof fn lemma_shown_count(hours: int, available: int)
    ensures
        shown_count(hours, available) <= hours,
        shown_count(hours, available) <= MAX_HOURS,
        shown_count(hours, available) <= available,
        shown_count(hours, available) == hours || shown_count(hours, available) == MAX_HOURS
            || shown_count(hours, available) == available,
{
}

/// `readable_count` is the place of the first unreadable timestamp among
/// the first `limit` periods.
pub proof fn lemma_readable_count(periods: Seq<ForecastPeriod>, limit: int)
    requires
        0 <= limit,
    ensures
        0 <= readable_count(periods, limit) <= limit,
        forall|i: int| 0 <= i < readable_count(periods, limit) ==> readable(#[trigger] periods[i]),
        readable_count(periods, limit) < limit ==> !readable(
            periods[readable_count(periods, limit)],
        ),
    decreases limit,
{
    if limit > 0 {
        lemma_readable_count(periods, limit - 1);
    }
}

/// A place below `limit` that every readable timestamp precedes, and that
/// is `limit` or holds an unreadable one, is the `readable_count`.
pub proof fn lemma_readable_count_unique(periods: Seq<ForecastPeriod>, limit: int, place: int)
    requires
        0 <= place <= limit,
        forall|i: int| 0 <= i < place ==> readable(#[trigger] periods[i]),
        place < limit ==> !readable(periods[place]),
    ensures
        readable_count(periods, limit) == place,
{
    lemma_readable_count(periods, limit);
    let found = readable_count(periods, limit);
    if found < place {
        assert(readable(periods[found]));
    } else if place < found {
        assert(readable(periods[place]));
    }
}

/// A complete report has two header lines and one line for each of the
/// `min(24, hours, available)` periods, no more and no fewer.
pub proof fn lemma_report_line_count(
    location: LocationView,
    periods: Seq<ForecastPeriod>,
    config: Config,
    colored: bool,
)
    requires
        report_complete(periods, config),
    ensures
        report_lines(
            location,
            periods,
            config,
            colored,
            readable_count(periods, shown_count(config.hours as int, periods.len() as int)),
        ).len() == 2 + shown_count(config.hours as int, periods.len() as int),
        period_lines(
            periods,
            config.celsius,
            colored,
            shown_count(config.hours as int, periods.len() as int),
        ).len() == shown_count(config.hours as int, periods.len() as int),
{
    reveal(report_lines);
}

/// One more line adds itself and its line feed to the text.
proof fn lemma_lines_text_push(lines: Seq<Seq<char>>, line: Seq<char>)
    ensures
        lines_text(lines.push(line)) == lines_text(lines) + line + "\n"@,
{
    assert(lines.push(line).drop_last() =~= lines);
}

/// A report that shows no period is its two header lines.
proof fn lemma_report_head(
    location: LocationView,
    periods: Seq<ForecastPeriod>,
    config: Config,
    colored: bool,
)
    ensures
        lines_text(report_lines(location, periods, config, colored, 0)) == header_line(location)
            + "\n"@ + count_line(config.hours as int) + "\n"@,
{
    reveal(report_lines);
    let none = Seq::<Seq<char>>::empty();
    let first = none.push(header_line(location));
    let both = first.push(count_line(config.hours as int));
    lemma_lines_text_push(none, header_line(location));
    lemma_lines_text_push(first, count_line(config.hours as int));
    assert(lines_text(none) =~= Seq::<char>::empty());
    assert(report_lines(location, periods, config, colored, 0) =~= both);
    assert(lines_text(both) =~= header_line(location) + "\n"@ + count_line(config.hours as int)
        + "\n"@);
}

/// A report that shows one period more has one line more, the line of
/// that period.
proof fn lemma_report_next(
    location: LocationView,
    periods: Seq<ForecastPeriod>,
    config: Config,
    colored: bool,
    count: int,
)
    requires
        0 <= count,
    ensures
        lines_text(report_lines(location, periods, config, colored, count + 1)) == lines_text(
            report_lines(location, periods, config, colored, count),
        ) + period_line(
            periods[count],
            rfc3339_clock(periods[count].time@).unwrap(),
            config.celsius,
            style_of(colored, count),
        ) + "\n"@,
{
    let line = period_line(
        periods[count],
        rfc3339_clock(periods[count].time@).unwrap(),
        config.celsius,
        style_of(colored, count),
    );
    let before = report_lines(location, periods, config, colored, count);
    reveal(report_lines);
    assert(report_lines(location, periods, config, colored, count + 1) =~= before.push(line));
    lemma_lines_text_push(before, line);
}

/// The line at place `index` of a report is the line of the period at
/// that place, read at the period's own start; in a coloured report it
/// wears the palette of that place, in a plain one none.
pub proof fn lemma_line_of_period(
    periods: Seq<ForecastPeriod>,
    celsius: bool,
    colored: bool,
    count: int,
    index: int,
)
    requires
        0 <= index < count,
    ensures
        period_lines(periods, celsius, colored, count)[index] == period_line(
            periods[index],
            rfc3339_clock(periods[index].time@).unwrap(),
            celsius,
            if colored {
                Some(palette_of(index))
            } else {
                None
            },
        ),
{
}

/// How many of the first `count` lines of a coloured report wear the
/// palette of the even places.
pub open spec fn even_lines(count: nat) -> nat
    decreases count,
{
    if count == 0 {
        0
    } else if palette_of(count - 1) == palette_of(0) {
        even_lines((count - 1) as nat) + 1
    } else {
        even_lines((count - 1) as nat)
    }
}

/// The palettes alternate strictly with the place of the period: a line
/// wears the palette of the even places exactly where its place is even,
/// so neighbours differ, and of `count` lines the even palette dresses
/// `(count + 1) / 2` and the odd one the other `count / 2`.
pub proof fn lemma_palettes_alternate(count: nat)
    ensures
        forall|i: int| (#[trigger] palette_of(i) == palette_of(0)) <==> i % 2 == 0,
        forall|i: int| (#[trigger] palette_of(i) == palette_of(1)) <==> i % 2 != 0,
        forall|i: int| #[trigger] palette_of(i) != palette_of(i + 1),
        even_lines(count) == (count + 1) / 2,
        count - even_lines(count) == count / 2,
    decreases count,
{
    if count > 0 {
        lemma_palettes_alternate((count - 1) as nat);
    }
}

/// Rounds `magnitude / denominator` to the nearest integer, the even one
/// where two are as near.
fn round_magnitude(magnitude: u128, denominator: u128) -> (rounded: u128)
    requires
        0 < denominator <= 10000000,
        magnitude < u128::MAX,
    ensures
        rounded == round_half_even(magnitude as int, denominator as int),
{
    let quotient: u128 = magnitude / denominator;
    let remainder: u128 = magnitude % denominator;
    if 2 * remainder < denominator || (2 * remainder == denominator && quotient % 2 == 0) {
        quotient
    } else {
        quotient + 1
    }
}

/// The Celsius value shown for a Fahrenheit reading.
pub fn to_celsius(fahrenheit: Temperature) -> (celsius: i64)
    ensures
        celsius == celsius_of(fahrenheit.thousandths as int),
{
    let above = fahrenheit.thousandths >= 32000;
    let distance: u128 = if above {
        (fahrenheit.thousandths as i128 - 32000) as u128
    } else {
        (32000 - fahrenheit.thousandths as i128) as u128
    };
    let rounded = round_magnitude(distance * 5556, 10000000);
    if above {
        rounded as i64
    } else {
        -(rounded as i64)
    }
}

/// A reading rounded to the nearest whole degree.
pub fn to_whole_degrees(reading: Temperature) -> (degrees: i64)
    ensures
        degrees == whole_degrees(reading.thousandths as int),
{
    if reading.thousandths >= 0 {
        round_magnitude(reading.thousandths as u128, 1000) as i64
    } else {
        -(round_magnitude((-(reading.thousandths as i128)) as u128, 1000) as i64)
    }
}

/// The palette of the period at `index`.
pub fn palette(index: usize) -> (colours: Palette)
    ensures
        colours == palette_of(index as int),
{
    Palette {
        background: if index % 2 == 0 {
            47
        } else {
            100
        },
        temperature: 30,
        conditions: 34,
        wind: 35,
    }
}

/// How many periods a report shows.
pub fn hours_shown(hours: usize, available: usize) -> (count: usize)
    ensures
        count == shown_count(hours as int, available as int),
{
    let announced = if hours < MAX_HOURS {
        hours
    } else {
        MAX_HOURS
    };
    if announced < available {
        announced
    } else {
        available
    }
}

/// Appends one segment of a period's line to `out`.
fn write_segment(
    out: &mut String,
    period: &ForecastPeriod,
    celsius: bool,
    style: &Option<Palette>,
    part: Part,
)
    ensures
        final(out)@ == old(out)@ + segment_text(*period, celsius, *style, part),
{
    match style {
        Some(colours) => {
            out.append("\x1b[");
            push_natural(out, colours.background as u64);
            out.append(";");
            push_natural(out, colours.foreground(part) as u64);
            out.append("m");
        },
        None => {
            out.append("[");
        },
    }
    assert(out@ =~= old(out)@ + opening_text(*style, part));
    match part {
        Part::Temperature => {
            out.append(" Temp: ");
            if celsius {
                push_decimal(out, to_celsius(period.temperature));
                out.append("\u{b0}");
                out.append(CELSIUS_UNIT);
            } else {
                push_decimal(out, to_whole_degrees(period.temperature));
                out.append("\u{b0}");
                out.append(period.unit.as_str());
            }
            out.append(" ");
        },
        Part::Conditions => {
            out.append(" Conditions: ");
            out.append(period.short_forecast.as_str());
            out.append(" ");
        },
        Part::Wind => {
            out.append(" Wind: ");
            out.append(period.wind_speed.as_str());
            out.append(" ");
            out.append(period.wind_direction.as_str());
            out.append(" ");
        },
    }
    assert(out@ =~= old(out)@ + opening_text(*style, part) + part_text(*period, celsius, part));
    match style {
        Some(_) => {
            out.append(RESET);
        },
        None => {
            out.append("]");
        },
    }
    assert(out@ =~= old(out)@ + segment_text(*period, celsius, *style, part));
}

/// Appends the line of a period that starts at `clock` to `out`, without
/// a line feed: the weekday and hour, then temperature, conditions and
/// wind, dressed as `style` says.
pub fn write_period(
    out: &mut String,
    period: &ForecastPeriod,
    clock: ClockTime,
    celsius: bool,
    style: Option<Palette>,
)
    ensures
        final(out)@ == old(out)@ + period_line(*period, clock, celsius, style),
{
    out.append("  ");
    clock.write(out);
    out.append(":  ");
    write_segment(out, period, celsius, &style, Part::Temperature);
    let ghost first = out@;
    match style {
        Some(_) => {},
        None => {
            out.append("  ");
        },
    }
    assert(out@ =~= first + gap_text(style));
    write_segment(out, period, celsius, &style, Part::Conditions);
    let ghost second = out@;
    match style {
        Some(_) => {},
        None => {
            out.append("  ");
        },
    }
    assert(out@ =~= second + gap_text(style));
    write_segment(out, period, celsius, &style, Part::Wind);
    proof {
        reveal(period_line);
    }
    assert(out@ =~= old(out)@ + period_line(*period, clock, celsius, style));
}

/// Appends the header line and its line feed to `out`: city, region and
/// country, then latitude and longitude cut at their first `.`.
pub fn print_location(location: &Location, out: &mut String)
    ensures
        final(out)@ == old(out)@ + header_line(location@) + "\n"@,
{
    out.append(location.city.as_str());
    out.append(", ");
    out.append(location.region.as_str());
    out.append(" | ");
    out.append(location.country.as_str());
    out.append(" (");
    let latitude = integer_part(location.latitude.as_str());
    out.append(latitude.as_str());
    out.append(", ");
    let longitude = integer_part(location.longitude.as_str());
    out.append(longitude.as_str());
    out.append(")");
    out.append("\n");
    assert(out@ =~= old(out)@ + header_line(location@) + "\n"@);
}

/// Appends the count line and its line feed to `out`.
fn write_count(hours: usize, out: &mut String)
    ensures
        final(out)@ == old(out)@ + count_line(hours as int) + "\n"@,
{
    let announced = if hours < MAX_HOURS {
        hours
    } else {
        MAX_HOURS
    };
    out.append("Weather for the next ");
    push_decimal(out, announced as i64);
    out.append(" hour(s):");
    out.append("\n");
    assert(out@ =~= old(out)@ + count_line(hours as int) + "\n"@);
}

/// Writes the report in either dress.
fn write_report(
    location: &Location,
    hourly_forecast: &HourlyForecast,
    config: Config,
    colored: bool,
    out: &mut String,
) -> (outcome: WeatherResult<()>)
    ensures
        final(out)@ == old(out)@ + written_text(
            location@,
            hourly_forecast.forecast.periods@,
            config,
            colored,
        ),
        outcome is Ok <==> report_complete(hourly_forecast.forecast.periods@, config),
        outcome matches Err(error) ==> error is Format,
{
    let periods = &hourly_forecast.forecast.periods;
    let shown = hours_shown(config.hours, periods.len());
    print_location(location, out);
    write_count(config.hours, out);
    proof {
        lemma_report_head(location@, periods@, config, colored);
        assert(out@ =~= old(out)@ + lines_text(
            report_lines(location@, periods@, config, colored, 0),
        ));
    }
    let mut index: usize = 0;
    while index < shown
        invariant
            index <= shown <= periods.len(),
            periods@ == hourly_forecast.forecast.periods@,
            shown == shown_count(config.hours as int, periods.len() as int),
            forall|i: int| 0 <= i < index ==> readable(#[trigger] periods@[i]),
            out@ == old(out)@ + lines_text(
                report_lines(location@, periods@, config, colored, index as int),
            ),
        decreases shown - index,
    {
        let period = &periods[index];
        match start_clock(period.time.as_str()) {
            Ok(clock) => {
                let style = if colored {
                    Some(palette(index))
                } else {
                    None
                };
                let ghost before = out@;
                write_period(out, period, clock, config.celsius, style);
                out.append("\n");
                proof {
                    lemma_report_next(location@, periods@, config, colored, index as int);
                    let line = period_line(*period, clock, config.celsius, style);
                    assert(out@ == before + line + "\n"@);
                    assert(before + line + "\n"@ =~= old(out)@ + (lines_text(
                        report_lines(location@, periods@, config, colored, index as int),
                    ) + line + "\n"@));
                }
            },
            Err(error) => {
                proof {
                    lemma_readable_count_unique(periods@, shown as int, index as int);
                }
                return Err(error);
            },
        }
        index += 1;
    }
    proof {
        lemma_readable_count_unique(periods@, shown as int, shown as int);
    }
    Ok(())
}

/// Writes the plain report to `out`: the location header, the count line,
/// and a line for each of the first `min(24, hours)` periods that there
/// are, in the order received.
///
/// Fails with a format error at the first of those periods whose
/// timestamp is not valid; the lines before it are written by then.
pub fn print_hourly_forecast(
    location: Location,
    hourly_forecast: HourlyForecast,
    config: Config,
    out: &mut String,
) -> (outcome: WeatherResult<()>)
    ensures
        final(out)@ == old(out)@ + written_text(
            location@,
            hourly_forecast.forecast.periods@,
            config,
            false,
        ),
        outcome is Ok <==> report_complete(hourly_forecast.forecast.periods@, config),
        outcome matches Err(error) ==> error is Format,
{
    write_report(&location, &hourly_forecast, config, false, out)
}

/// Writes the coloured report to `out`: as the plain one in content and
/// order, with each segment of a period's line set in the palette of the
/// period's place in place of brackets.
///
/// Fails as the plain report does.
pub fn print_hourly_forecast_colored(
    location: Location,
    hourly_forecast: HourlyForecast,
    config: Config,
    out: &mut String,
) -> (outcome: WeatherResult<()>)
    ensures
        final(out)@ == old(out)@ + written_text(
            location@,
            hourly_forecast.forecast.periods@,
            config,
            true,
        ),
        outcome is Ok <==> report_complete(hourly_forecast.forecast.periods@, config),
        outcome matches Err(error) ==> error is Format,
{
    write_report(&location, &hourly_forecast, config, true, out)
}

} // verus!
