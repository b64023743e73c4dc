//! The ways a run can fail.

use vstd::prelude::*;

verus! {

/// Why a run was abandoned. Each variant carries the one-line description
/// that is shown to the user.
#[derive(Debug, Clone, PartialEq, Eq)]
pub enum WeatherError {
    /// A request could not be sent, or its response could not be read.
    Network(String),
    /// A weather-service response did not have the required structure.
    Decode(String),
    /// A forecast period's timestamp is not a valid timestamp with offset.
    Format(String),
    /// The requested number of hours is not a non-negative integer.
    Argument(String),
}

pub type WeatherResult<T> = Result<T, WeatherError>;

impl WeatherError {
    /// The description carried by the error, as text.
    pub open spec fn text(self) -> Seq<char> {
        match self {
            WeatherError::Network(m) => m@,
            WeatherError::Decode(m) => m@,
            WeatherError::Format(m) => m@,
            WeatherError::Argument(m) => m@,
        }
    }

    /// The human-readable line that describes the error.
    pub fn message(&self) -> (m: String)
        ensures
            m@ == self.text(),
    {
        match self {
            WeatherError::Network(m) => m.clone(),
            WeatherError::Decode(m) => m.clone(),
            WeatherError::Format(m) => m.clone(),
            WeatherError::Argument(m) => m.clone(),
        }
    }
}

} // verus!
