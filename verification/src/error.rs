//! The failures of the connection pipeline.

use vstd::prelude::*;

verus! {

/// Why the pipeline could not deliver heart-rate notifications. Every one of
/// these is fatal: no stage retries or recovers.
#[derive(Clone, Copy, Debug, PartialEq, Eq, Structural)]
pub enum PipelineError {
    /// The host has no usable Bluetooth radio.
    NoAdapterFound,
    /// No advertisement seen during the scan window carried the wanted name.
    DeviceNotFound,
    /// The peripheral refused or dropped the connection attempt.
    ConnectionFailed,
    /// The peripheral's characteristic table could not be read.
    DiscoveryFailed,
    /// The peripheral does not expose the wanted characteristic.
    CharacteristicNotFound,
    /// The peripheral rejected the request to enable notifications.
    SubscribeFailed,
}

impl PipelineError {
    /// The words in which the failure is reported.
    pub open spec fn message_text(self) -> Seq<char> {
        match self {
            PipelineError::NoAdapterFound => "Couldn't find adapter"@,
            PipelineError::DeviceNotFound => "Couldn't find HRM"@,
            PipelineError::ConnectionFailed => "Couldn't connect"@,
            PipelineError::DiscoveryFailed => "Couldn't discover characteristics"@,
            PipelineError::CharacteristicNotFound => "couldn't find HR characteristic"@,
            PipelineError::SubscribeFailed => "Couldn't subscribe"@,
        }
    }

    /// The message to end the program with.
    pub fn message(&self) -> (text: String)
        ensures
            text@ == self.message_text(),
    {
        match self {
            PipelineError::NoAdapterFound => String::from_str("Couldn't find adapter"),
            PipelineError::DeviceNotFound => String::from_str("Couldn't find HRM"),
            PipelineError::ConnectionFailed => String::from_str("Couldn't connect"),
            PipelineError::DiscoveryFailed => String::from_str("Couldn't discover characteristics"),
            PipelineError::CharacteristicNotFound => String::from_str(
                "couldn't find HR characteristic",
            ),
            PipelineError::SubscribeFailed => String::from_str("Couldn't subscribe"),
        }
    }
}

} // verus!
