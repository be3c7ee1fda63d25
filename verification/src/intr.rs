//! Interrupt-source decisions.
//!
//! The interrupt handler itself runs at elevated priority and touches the
//! hardware; the functions here compute everything it decides: the event
//! snapshot to publish, the bit patterns to write back to the two
//! clear-on-write status registers, whether the snapshot is published at
//! all, and the interrupt-enable mask update that holds off further
//! card-interrupt delivery until the condition is serviced.

use vstd::prelude::*;

use crate::Event;

verus! {

/// Capacity of the bounded event queue between the interrupt handler and
/// the consuming task. Publishing to a full queue is a fatal condition:
/// it means the consumer has stalled.
pub const EVENT_QUEUE_CAPACITY: usize = 32;

/// What one interrupt invocation must do with the status registers.
#[derive(Debug, Clone, Copy, PartialEq, Eq, Structural)]
pub struct IrqOutcome {
    /// The snapshot to publish into the event queue.
    pub event: Event,
    /// Whether to publish at all: only a snapshot with at least one bit
    /// set is worth a queue slot.
    pub publish: bool,
    /// Pattern to write back to the raw-status register, clearing exactly
    /// the controller bits that were captured.
    pub clear_status: u32,
    /// Pattern to write back to the DMA status register, clearing exactly
    /// the DMA bits that were captured.
    pub clear_dma: u32,
}

/// Decide one interrupt invocation from the two status registers read:
/// only the lower 16 bits of the masked controller status are meaningful
/// (the upper bits are reserved), the captured bits are written back to
/// clear them, and the snapshot is published exactly when it is nonzero.
pub fn irq_snapshot(mintsts: u32, idsts: u32) -> (r: IrqOutcome)
    ensures
        r.event.sdmmc_status == mintsts & 0xFFFF,
        r.event.dma_status == idsts,
        r.clear_status == mintsts & 0xFFFF,
        r.clear_dma == idsts,
        r.publish == (mintsts & 0xFFFF != 0 || idsts != 0),
{
    let pending = mintsts & 0xFFFF;
    IrqOutcome {
        event: Event { sdmmc_status: pending, dma_status: idsts },
        publish: pending != 0 || idsts != 0,
        clear_status: pending,
        clear_dma: idsts,
    }
}

/// Decide the card-interrupt (SDIO) side of one invocation: when a
/// card-interrupt condition is pending, its enable bits are masked off so
/// it is not delivered again before it is serviced, and the counting gate
/// is released with one permit.
pub fn sdio_mask_update(int_mask: u8, sdio_pending: u8) -> (r: (u8, bool))
    ensures
        r.0 == int_mask & !sdio_pending,
        r.1 == (sdio_pending != 0),
{
    (int_mask & !sdio_pending, sdio_pending != 0)
}

} // verus!
