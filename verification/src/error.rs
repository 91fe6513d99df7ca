use vstd::prelude::*;
use vstd::string::StringExecFns;

verus! {

/// The application's error taxonomy. Remote, configuration and local I/O
/// failures are all carried as human-readable text; nothing here is fatal.
#[derive(Clone, Debug)]
pub enum AppError {
    Auth(String),
    Api(String),
    NoActiveDevice,
    Config(String),
    Io(String),
    Other(String),
}

impl AppError {
    /// The user-facing text of this error.
    pub open spec fn spec_message(self) -> Seq<char> {
        match self {
            AppError::Auth(m) => "Authentication failed: "@ + m@,
            AppError::Api(m) => "Spotify API error: "@ + m@,
            AppError::NoActiveDevice => "No active Spotify device found. Open Spotify on a device and try again."@,
            AppError::Config(m) => "Configuration error: "@ + m@,
            AppError::Io(m) => m@,
            AppError::Other(m) => m@,
        }
    }

    /// Renders the error as display text.
    pub fn message(&self) -> (r: String)
        ensures
            r@ == self.spec_message(),
    {
        match self {
            AppError::Auth(m) => String::from_str("Authentication failed: ").concat(m.as_str()),
            AppError::Api(m) => String::from_str("Spotify API error: ").concat(m.as_str()),
            AppError::NoActiveDevice => String::from_str(
                "No active Spotify device found. Open Spotify on a device and try again.",
            ),
            AppError::Config(m) => String::from_str("Configuration error: ").concat(m.as_str()),
            AppError::Io(m) => m.clone(),
            AppError::Other(m) => m.clone(),
        }
    }
}

} // verus!
