//! What can go wrong, and how much it matters.

use vstd::prelude::*;
use vstd::string::*;

verus! {

/// A failure, with the words of whoever reported it.
#[derive(Debug, PartialEq, Eq)]
pub enum GstaldergeistError {
    /// A notification could not be delivered.
    TelegramError(String),
    /// A data source could not be reached.
    NetworkError(String),
    /// The startup configuration is missing or invalid.
    ConfigError(String),
    /// A data source gave a date that cannot be read.
    DateError(String),
    /// A data source gave a document that cannot be read.
    PdfExtract(String),
    /// Any other failure of a data source.
    Other(String),
}

/// How the scheduler treats a failure.
#[derive(Clone, Copy, Debug, PartialEq, Eq, Structural)]
pub enum Severity {
    /// The process does not start.
    Fatal,
    /// The state transition proceeds; the failure is only reported.
    BestEffort,
    /// The iteration is tried again later; the state is left untouched.
    Retry,
}

impl GstaldergeistError {
    /// How the scheduler treats the failure.
    pub open spec fn spec_severity(self) -> Severity {
        match self {
            GstaldergeistError::ConfigError(_) => Severity::Fatal,
            GstaldergeistError::TelegramError(_) => Severity::BestEffort,
            _ => Severity::Retry,
        }
    }

    /// The words in front of the report, by kind of failure.
    pub open spec fn spec_prefix(self) -> Seq<char> {
        match self {
            GstaldergeistError::TelegramError(_) => "Telegram error: "@,
            GstaldergeistError::NetworkError(_) => "Network error: "@,
            GstaldergeistError::ConfigError(_) => "Configuration error: "@,
            GstaldergeistError::DateError(_) => "Date parsing error: "@,
            GstaldergeistError::PdfExtract(_) => "Pdf extract error: "@,
            GstaldergeistError::Other(_) => "Other error: "@,
        }
    }

    /// The report that the failure carries.
    pub open spec fn spec_detail(self) -> Seq<char> {
        match self {
            GstaldergeistError::TelegramError(detail) => detail@,
            GstaldergeistError::NetworkError(detail) => detail@,
            GstaldergeistError::ConfigError(detail) => detail@,
            GstaldergeistError::DateError(detail) => detail@,
            GstaldergeistError::PdfExtract(detail) => detail@,
            GstaldergeistError::Other(detail) => detail@,
        }
    }

    /// Only a configuration failure is fatal; a failed delivery does not hold
    /// the state machine back; everything else is tried again.
    pub fn severity(&self) -> (s: Severity)
        ensures
            s == self.spec_severity(),
    {
        match self {
            GstaldergeistError::ConfigError(_) => Severity::Fatal,
            GstaldergeistError::TelegramError(_) => Severity::BestEffort,
            _ => Severity::Retry,
        }
    }

    /// Whether the process cannot go on.
    pub fn is_fatal(&self) -> (fatal: bool)
        ensures
            fatal <==> self is ConfigError,
    {
        match self {
            GstaldergeistError::ConfigError(_) => true,
            _ => false,
        }
    }

    /// The failure in words: the kind, then the report.
    pub fn message(&self) -> (text: String)
        ensures
            text@ == self.spec_prefix() + self.spec_detail(),
    {
        match self {
            GstaldergeistError::TelegramError(detail) => {
                String::from_str("Telegram error: ").concat(detail.as_str())
            },
            GstaldergeistError::NetworkError(detail) => {
                String::from_str("Network error: ").concat(detail.as_str())
            },
            GstaldergeistError::ConfigError(detail) => {
                String::from_str("Configuration error: ").concat(detail.as_str())
            },
            GstaldergeistError::DateError(detail) => {
                String::from_str("Date parsing error: ").concat(detail.as_str())
            },
            GstaldergeistError::PdfExtract(detail) => {
                String::from_str("Pdf extract error: ").concat(detail.as_str())
            },
            GstaldergeistError::Other(detail) => {
                String::from_str("Other error: ").concat(detail.as_str())
            },
        }
    }
}

} // verus!
