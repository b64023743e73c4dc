//! Local hourly weather report: where the caller is, what the next hours
//! bring, and how that is laid out as text.
//!
//! The library holds everything that is decided or computed. Requests are
//! described here and performed by the caller, who hands the replies back.

pub mod cli;
pub mod clock;
pub mod error;
pub mod forecast;
pub mod location;
pub mod print;
pub mod text;

pub use cli::{get_args, run, Config};
pub use error::{WeatherError, WeatherResult};
