//! The ways in which a run can fail, and what the process reports for each.

use vstd::prelude::*;
use crate::config::ConfigurationError;

verus! {

/// Exit status of a run whose message was handed to the transport.
pub const EXIT_CONFIRMED: i32 = 0;

/// Exit status of a run whose settings were turned down.
pub const EXIT_USAGE: i32 = 2;

/// Exit status of a run that failed after its settings were accepted.
pub const EXIT_ABORTED: i32 = 101;

/// Why a run ended without a confirmed publish. No failure is recovered from:
/// each one ends the run.
#[derive(Copy, Clone, PartialEq, Eq, Debug, Structural)]
pub enum Failure {
    /// The settings were turned down; nothing was sent or opened.
    Configuration(ConfigurationError),
    /// The message body could not be encoded.
    Serialization,
    /// The session could not be opened or kept.
    Connection,
    /// The publish request was turned down before it was queued.
    Publish,
    /// The session closed before the message was seen to leave.
    Confirmation,
}

/// The exit status that stands for `failure`.
pub open spec fn failure_status(failure: Failure) -> i32 {
    match failure {
        Failure::Configuration(_) => EXIT_USAGE,
        _ => EXIT_ABORTED,
    }
}

/// The line that describes `failure` to the operator.
pub open spec fn failure_text(failure: Failure) -> Seq<char> {
    match failure {
        Failure::Configuration(ConfigurationError::EmptyTopic) => "the topic must not be empty"@,
        Failure::Configuration(ConfigurationError::EmptyFieldName) => {
            "the payload field name must not be empty"@
        },
        Failure::Configuration(ConfigurationError::PortOutOfRange) => {
            "the port must lie between 1 and 65535"@
        },
        Failure::Configuration(ConfigurationError::BatteryOutOfRange) => {
            "the battery charge must lie between 0 and 100"@
        },
        Failure::Configuration(ConfigurationError::VoltageOutOfRange) => {
            "the voltage must lie between 0 and 4200"@
        },
        Failure::Serialization => "failed to serialize sensor payload"@,
        Failure::Connection => "the connection to the broker failed"@,
        Failure::Publish => "the publish request was rejected"@,
        Failure::Confirmation => "the session closed before the publish was sent"@,
    }
}

impl Failure {
    /// The exit status of a run that ended with this failure: never
    /// `EXIT_CONFIRMED`.
    pub fn exit_status(&self) -> (status: i32)
        ensures
            status == failure_status(*self),
            status != EXIT_CONFIRMED,
    {
        match self {
            Failure::Configuration(_) => EXIT_USAGE,
            _ => EXIT_ABORTED,
        }
    }

    /// The diagnostic line for this failure.
    pub fn diagnostic(&self) -> (line: String)
        ensures
            line@ == failure_text(*self),
    {
        let text: &str = match self {
            Failure::Configuration(ConfigurationError::EmptyTopic) => "the topic must not be empty",
            Failure::Configuration(ConfigurationError::EmptyFieldName) => {
                "the payload field name must not be empty"
            },
            Failure::Configuration(ConfigurationError::PortOutOfRange) => {
                "the port must lie between 1 and 65535"
            },
            Failure::Configuration(ConfigurationError::BatteryOutOfRange) => {
                "the battery charge must lie between 0 and 100"
            },
            Failure::Configuration(ConfigurationError::VoltageOutOfRange) => {
                "the voltage must lie between 0 and 4200"
            },
            Failure::Serialization => "failed to serialize sensor payload",
            Failure::Connection => "the connection to the broker failed",
            Failure::Publish => "the publish request was rejected",
            Failure::Confirmation => "the session closed before the publish was sent",
        };
        text.to_owned()
    }
}

} // verus!
