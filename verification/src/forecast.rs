//! The hourly forecast of a point, and the two requests that lead to it.

use vstd::prelude::*;
use crate::error::WeatherResult;

verus! {

/// A temperature, counted in thousandths of a degree, so that a reading
/// with a fraction is held as it was reported.
#[derive(Debug, Clone, Copy, PartialEq, Eq, Structural)]
pub struct Temperature {
    pub thousandths: i64,
}

impl Temperature {
    /// The temperature of a whole number of degrees.
    pub fn from_degrees(degrees: i32) -> (temperature: Temperature)
        ensures
            temperature.thousandths == 1000 * degrees,
    {
        Temperature { thousandths: 1000 * (degrees as i64) }
    }
}

/// One hourly slot of a forecast.
#[derive(Debug, Clone, PartialEq, Eq)]
pub struct ForecastPeriod {
    /// When the slot starts: a timestamp with its offset.
    pub time: String,
    /// The temperature, in degrees of `unit`.
    pub temperature: Temperature,
    /// The short code of the temperature's unit, such as `F`.
    pub unit: String,
    pub wind_speed: String,
    pub wind_direction: String,
    pub short_forecast: String,
}

/// The periods of a forecast, in the order the service gave them:
/// ascending in time. They are never sorted again.
#[derive(Debug, Clone, PartialEq, Eq)]
pub struct ForecastPeriods {
    pub periods: Vec<ForecastPeriod>,
}

/// An hourly forecast as the service wraps it.
#[derive(Debug, Clone, PartialEq, Eq)]
pub struct HourlyForecast {
    pub forecast: ForecastPeriods,
}

/// How the client names itself to the weather service.
pub const USER_AGENT: &'static str = "Weather APP";

/// The address under which the weather service describes a point.
pub const POINTS_ADDRESS: &'static str = "https://api.weather.gov/points/";

/// What a reply to a request is to be read as.
#[derive(Debug, Clone, Copy, PartialEq, Eq, Structural)]
pub enum Expect {
    /// The description of a point, of which the address of its hourly
    /// forecast is needed.
    HourlyAddress,
    /// An hourly forecast.
    Forecast,
}

/// A request to the weather service: a GET of `url` that carries
/// `user_agent` as the client's name.
#[derive(Debug, Clone, PartialEq, Eq)]
pub struct Request {
    pub url: String,
    pub user_agent: String,
    pub expect: Expect,
}

/// What is known when the next step of the lookup is decided.
#[derive(Debug, PartialEq, Eq)]
pub enum Reply {
    /// Nothing was asked yet.
    Nothing,
    /// The point was asked for: the address of its hourly forecast, or why
    /// there is none.
    HourlyAddress(WeatherResult<String>),
    /// The hourly forecast was asked for.
    Forecast(WeatherResult<HourlyForecast>),
}

/// What the lookup does next.
#[derive(Debug, PartialEq, Eq)]
pub enum Lookup {
    /// Send this request, and come back with its reply.
    Fetch(Request),
    /// The lookup is over.
    Done(WeatherResult<HourlyForecast>),
}

/// The address that describes the point at the given coordinates. The
/// coordinates go in as they are written, digit for digit.
pub open spec fn point_url(latitude: Seq<char>, longitude: Seq<char>) -> Seq<char> {
    POINTS_ADDRESS@ + latitude + ","@ + longitude
}

/// Whether `request` asks the weather service for `url`, to be read as
/// `expect`, under the client's name.
pub open spec fn asks_for(request: Request, url: Seq<char>, expect: Expect) -> bool {
    &&& request.url@ == url
    &&& request.user_agent@ == USER_AGENT@
    &&& request.expect == expect
}

/// The request for the description of the point at the given coordinates.
pub fn point_request(latitude: &String, longitude: &String) -> (request: Request)
    ensures
        asks_for(request, point_url(latitude@, longitude@), Expect::HourlyAddress),
{
    let mut url = String::new();
    url.append(POINTS_ADDRESS);
    url.append(latitude.as_str());
    url.append(",");
    url.append(longitude.as_str());
    assert(url@ =~= point_url(latitude@, longitude@));
    Request { url, user_agent: USER_AGENT.to_owned(), expect: Expect::HourlyAddress }
}

/// The request for the hourly forecast found at `url`.
pub fn forecast_request(url: String) -> (request: Request)
    ensures
        asks_for(request, url@, Expect::Forecast),
{
    Request { url, user_agent: USER_AGENT.to_owned(), expect: Expect::Forecast }
}

/// Decides the next step of the lookup of the hourly forecast at the given
/// coordinates, from the reply to the step before.
///
/// The point is asked for first, then the forecast at the address that the
/// point's description gave. The first failure ends the lookup and is its
/// result; the forecast, once it is there, is handed on as it came.
pub fn get_hourly_forecast(latitude: &String, longitude: &String, reply: Reply) -> (next: Lookup)
    ensures
        match reply {
            Reply::Nothing => next matches Lookup::Fetch(request) && asks_for(
                request,
                point_url(latitude@, longitude@),
                Expect::HourlyAddress,
            ),
            Reply::HourlyAddress(Ok(url)) => next matches Lookup::Fetch(request) && asks_for(
                request,
                url@,
                Expect::Forecast,
            ),
            Reply::HourlyAddress(Err(error)) => next == Lookup::Done(Err(error)),
            Reply::Forecast(outcome) => next == Lookup::Done(outcome),
        },
{
    match reply {
        Reply::Nothing => Lookup::Fetch(point_request(latitude, longitude)),
        Reply::HourlyAddress(Ok(url)) => Lookup::Fetch(forecast_request(url)),
        Reply::HourlyAddress(Err(error)) => Lookup::Done(Err(error)),
        Reply::Forecast(outcome) => Lookup::Done(outcome),
    }
}

} // verus!
