//! The USB transfers that the engine asks for, and what comes back.

use vstd::prelude::*;

verus! {

/// Time budget of a bulk transfer, in milliseconds.
pub const BULK_TIMEOUT_MS: u64 = 5000;

/// Time budget of a control transfer, in milliseconds.
pub const CONTROL_TIMEOUT_MS: u64 = 25;

/// One USB transfer for the caller to perform.
#[derive(Debug, PartialEq, Eq)]
pub enum Transfer {
    /// Send `data` on the bulk endpoint `endpoint`.
    BulkOut { endpoint: u8, data: Vec<u8> },
    /// Receive up to `length` bytes from the bulk endpoint `endpoint`.
    BulkIn { endpoint: u8, length: usize },
    /// Send `data` as the data stage of a vendor-type control transfer that
    /// is addressed to the device.
    ControlOut { request: u8, value: u16, index: u16, data: Vec<u8> },
}

/// A transfer with its bytes as a sequence.
pub enum TransferView {
    BulkOut { endpoint: u8, data: Seq<u8> },
    BulkIn { endpoint: u8, length: usize },
    ControlOut { request: u8, value: u16, index: u16, data: Seq<u8> },
}

impl View for Transfer {
    type V = TransferView;

    open spec fn view(&self) -> TransferView {
        match *self {
            Transfer::BulkOut { endpoint, data } => TransferView::BulkOut { endpoint, data: data@ },
            Transfer::BulkIn { endpoint, length } => TransferView::BulkIn { endpoint, length },
            Transfer::ControlOut { request, value, index, data } => TransferView::ControlOut {
                request,
                value,
                index,
                data: data@,
            },
        }
    }
}

impl TransferView {
    /// The time budget of the transfer in milliseconds: 5 s on a bulk
    /// endpoint, 25 ms on the control endpoint.
    pub open spec fn timeout_ms(self) -> u64 {
        match self {
            TransferView::BulkOut { .. } => BULK_TIMEOUT_MS,
            TransferView::BulkIn { .. } => BULK_TIMEOUT_MS,
            TransferView::ControlOut { .. } => CONTROL_TIMEOUT_MS,
        }
    }
}

impl Transfer {
    /// The time after which the caller gives the transfer up and reports
    /// `Outcome::TimedOut`.
    pub fn timeout_ms(&self) -> (millis: u64)
        ensures
            millis == self@.timeout_ms(),
    {
        match self {
            Transfer::BulkOut { .. } => BULK_TIMEOUT_MS,
            Transfer::BulkIn { .. } => BULK_TIMEOUT_MS,
            Transfer::ControlOut { .. } => CONTROL_TIMEOUT_MS,
        }
    }
}

/// How a transfer ended.
#[derive(Debug, PartialEq, Eq)]
pub enum Outcome {
    /// The transfer completed. For an inbound transfer the bytes are those
    /// that arrived, as many as arrived; for an outbound one they are empty.
    Completed(Vec<u8>),
    /// The USB stack reported a failure.
    Failed,
    /// The time budget ran out first.
    TimedOut,
}

/// An outcome with its bytes as a sequence.
pub enum OutcomeView {
    Completed(Seq<u8>),
    Failed,
    TimedOut,
}

impl View for Outcome {
    type V = OutcomeView;

    open spec fn view(&self) -> OutcomeView {
        match *self {
            Outcome::Completed(data) => OutcomeView::Completed(data@),
            Outcome::Failed => OutcomeView::Failed,
            Outcome::TimedOut => OutcomeView::TimedOut,
        }
    }
}

} // verus!
