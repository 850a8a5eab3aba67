//! An adapter that lets a polling network stack drive a single-buffer,
//! blocking Ethernet controller as a packet-level device.
//!
//! The controller has exactly one frame buffer, so at most one receive or
//! transmit operation may touch the hardware at a time.  The adapter
//! arbitrates access with a non-blocking exclusive claim and hands out
//! single-use receive/transmit tokens; consuming a token attempts the claim,
//! performs the hardware transfer, and releases the claim on every exit path.

use vstd::prelude::*;

pub mod controller;
pub mod device;
pub mod token;

pub use device::SmolEnc28j60;
pub use token::RxToken;
pub use token::TxToken;

verus! {

/// Largest Ethernet frame the controller can hold, trailing CRC included.
pub const MAX_FRAME_LENGTH: usize = 1518;

/// Size of the CRC trailer the controller appends to each frame.
pub const CRC_SIZE: usize = 4;

/// Capacity of the shared frame buffer: one maximum-size frame minus its CRC.
pub const BUFFER_SIZE: usize = MAX_FRAME_LENGTH - CRC_SIZE;

/// Failures surfaced to the network stack.
#[derive(Clone, Copy, Debug, PartialEq, Eq, Structural)]
pub enum Error {
    /// No resource is available right now: the exclusive claim is taken, or a
    /// requested transmit length exceeds the buffer capacity.  Retry on a
    /// later poll cycle.
    Exhausted,
    /// The controller driver rejected the transfer.
    Illegal,
}

} // verus!
