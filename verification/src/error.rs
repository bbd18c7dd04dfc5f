//! The failures that the protocol engine reports.

use vstd::prelude::*;

verus! {

/// Every failure is terminal: nothing in the engine recovers from one.
#[derive(Clone, Copy, Debug, PartialEq, Eq, Structural)]
pub enum LoaderError {
    /// No device with the expected vendor and product identifiers is attached.
    DeviceNotFound,
    /// The interface could not be claimed before the deadline.
    InterfaceBusy,
    /// The negotiated link speed is none of the known ones.
    SpeedUnsupported,
    /// The USB stack reported that a transfer failed.
    TransferError,
    /// A transfer did not complete within its time budget.
    Timeout,
    /// The status wrapper does not start with the response signature.
    SignatureMismatch,
    /// The status wrapper echoes a tag other than the one that was sent.
    TagMismatch,
    /// The status wrapper carries a nonzero status byte.
    DeviceStatus,
    /// The command needs an operational mode that the device is not in.
    ModeMismatch,
    /// The payload could not be read.
    InputError,
}

impl LoaderError {
    /// The text of the message that goes with each failure.
    pub open spec fn spec_message(self) -> Seq<char> {
        match self {
            LoaderError::DeviceNotFound => "device not found, is it connected and in the right mode?"@,
            LoaderError::InterfaceBusy => "failure claiming USB interface"@,
            LoaderError::SpeedUnsupported => "unknown USB device speed"@,
            LoaderError::TransferError => "USB transfer failed"@,
            LoaderError::Timeout => "USB transfer timed out"@,
            LoaderError::SignatureMismatch => "response signature is not USBS"@,
            LoaderError::TagMismatch => "response tag differs from request tag"@,
            LoaderError::DeviceStatus => "device reported a nonzero status"@,
            LoaderError::ModeMismatch => "device must be in USB plug mode"@,
            LoaderError::InputError => "payload could not be read"@,
        }
    }

    /// A human-readable message for the failure.
    pub fn message(&self) -> (text: &'static str)
        ensures
            text@ == self.spec_message(),
    {
        match self {
            LoaderError::DeviceNotFound => "device not found, is it connected and in the right mode?",
            LoaderError::InterfaceBusy => "failure claiming USB interface",
            LoaderError::SpeedUnsupported => "unknown USB device speed",
            LoaderError::TransferError => "USB transfer failed",
            LoaderError::Timeout => "USB transfer timed out",
            LoaderError::SignatureMismatch => "response signature is not USBS",
            LoaderError::TagMismatch => "response tag differs from request tag",
            LoaderError::DeviceStatus => "device reported a nonzero status",
            LoaderError::ModeMismatch => "device must be in USB plug mode",
            LoaderError::InputError => "payload could not be read",
        }
    }
}

} // verus!
