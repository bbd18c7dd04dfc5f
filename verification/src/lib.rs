//! Host-side engine for the boot-ROM recovery protocol of the Rockchip RK3366.
//!
//! The crate holds the protocol itself and performs no I/O. Each operation is
//! a small state machine: it names the next USB transfer, takes the outcome of
//! that transfer, and moves on. The caller owns the USB handle and runs the
//! transfers.

pub mod dialogue;
pub mod endian;
pub mod error;
pub mod frame;
pub mod scan;
pub mod session;
pub mod transfer;
pub mod upload;
pub mod wire;
