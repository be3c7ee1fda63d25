//! Verified core of an SD/MMC host-controller driver.
//!
//! The crate covers the pure, hardware-independent logic of a driver for a
//! two-slot SD/MMC host controller: the command descriptor and its compilation
//! into the controller's command-register word, the clock-divider and timeout
//! arithmetic, the event-driven state machine that drives one command (with an
//! optional data phase) to completion, the interrupt-snapshot decisions, and
//! the bring-up decision functions. Everything that touches memory-mapped
//! registers, DMA buffers, interrupts or the scheduler is kept outside; the
//! functions here take the raw register values and status snapshots as plain
//! integers and say exactly what must be written back or decided.

use vstd::prelude::*;

pub mod bringup;
pub mod clock;
pub mod cmd;
pub mod engine;
pub mod flags;
pub mod hw_cmd;
pub mod intr;
pub mod poll;

verus! {

/// Result kind of every driver operation.
#[derive(Debug, Clone, Copy, PartialEq, Eq, Structural)]
pub enum Error {
    /// Unsupported slot/width combination or malformed argument.
    InvalidArg,
    /// A bounded wait (reset, command-taken, busy, data transfer) expired.
    Timeout,
    /// No card detected, or a write was attempted on a write-protected card.
    NotFound,
    /// Response or data CRC mismatch.
    InvalidCRC,
    /// The controller reported a response error independent of CRC.
    InvalidResponse,
    /// Data length is not a multiple of the block length.
    InvalidSize,
    /// Unclassified data-phase error.
    Fail,
    /// The hardware cannot perform the requested action.
    NotSupported,
    /// Protocol-sequencing violation.
    InvalidState,
}

/// One of the controller's two physical card slots.
#[derive(Debug, Clone, Copy, PartialEq, Eq, Structural)]
pub enum Slot {
    Slot0,
    Slot1,
}

impl Slot {
    /// The slot's index, as used for card-number fields.
    pub fn num(self) -> (r: u8)
        ensures
            r == (if self is Slot0 { 0u8 } else { 1u8 }),
    {
        match self {
            Slot::Slot0 => 0,
            Slot::Slot1 => 1,
        }
    }

    /// The slot's bit in per-slot bitmask registers (card detect,
    /// write protect, clock enable).
    pub fn bit(self) -> (r: u8)
        ensures
            r == self.bit_spec(),
    {
        match self {
            Slot::Slot0 => 1,
            Slot::Slot1 => 2,
        }
    }

    /// The slot's bit in per-slot bitmask registers.
    pub open spec fn bit_spec(self) -> u8 {
        if self is Slot0 {
            1u8
        } else {
            2u8
        }
    }
}

/// Bus width, in data lines.
#[derive(Debug, Clone, Copy, PartialEq, Eq, Structural)]
pub enum Width {
    Bit1,
    Bit4,
    Bit8,
}

/// Bus sampling mode: single or double data rate.
#[derive(Debug, Clone, Copy, PartialEq, Eq, Structural)]
pub enum BusSamplingMode {
    SDR,
    DDR,
}

/// A snapshot pair captured by one interrupt invocation: the masked
/// controller status bits and the DMA status bits. Consumed by the
/// transaction state machine; bits it does not consume are carried
/// forward, never dropped.
#[derive(Debug, Clone, Copy, PartialEq, Eq, Structural)]
pub struct Event {
    pub sdmmc_status: u32,
    pub dma_status: u32,
}

} // verus!
