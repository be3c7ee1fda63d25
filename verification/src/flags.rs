//! Register bit masks, descriptor flags and command opcodes.
//!
//! The controller status register uses its lower 16 bits; the positions here
//! must match the hardware exactly. Writing a 1 to a status bit clears it.

use vstd::prelude::*;

verus! {

// Controller interrupt status bits (lower 16 bits of the status register,
// plus the per-slot card-interrupt bits 16 and 17).
pub const SDMMC_INTMASK_IO_SLOT1: u32 = 0x20000;
pub const SDMMC_INTMASK_IO_SLOT0: u32 = 0x10000;
/// End-bit error.
pub const SDMMC_INTMASK_EBE: u32 = 0x8000;
/// Auto command done.
pub const SDMMC_INTMASK_ACD: u32 = 0x4000;
/// Start-bit error.
pub const SDMMC_INTMASK_SBE: u32 = 0x2000;
/// Hardware-locked error.
pub const SDMMC_INTMASK_HLE: u32 = 0x1000;
/// FIFO underrun/overrun.
pub const SDMMC_INTMASK_FRUN: u32 = 0x0800;
/// Host timeout; doubles as the voltage-switch-ready bit.
pub const SDMMC_INTMASK_HTO: u32 = 0x0400;
/// Voltage-switch ready aliases host timeout on this controller.
pub const SDMMC_INTMASK_VOLT_SW: u32 = 0x0400;
/// Data read timeout.
pub const SDMMC_INTMASK_DTO: u32 = 0x0200;
/// Response timeout.
pub const SDMMC_INTMASK_RTO: u32 = 0x0100;
/// Data CRC error.
pub const SDMMC_INTMASK_DCRC: u32 = 0x0080;
/// Response CRC error.
pub const SDMMC_INTMASK_RCRC: u32 = 0x0040;
/// Receive FIFO data request.
pub const SDMMC_INTMASK_RXDR: u32 = 0x0020;
/// Transmit FIFO data request.
pub const SDMMC_INTMASK_TXDR: u32 = 0x0010;
/// Data transfer over.
pub const SDMMC_INTMASK_DATA_OVER: u32 = 0x0008;
/// Command done.
pub const SDMMC_INTMASK_CMD_DONE: u32 = 0x0004;
/// Response error.
pub const SDMMC_INTMASK_RESP_ERR: u32 = 0x0002;
/// Card detect.
pub const SDMMC_INTMASK_CD: u32 = 0x0001;

// DMA engine status bits.
pub const SDMMC_IDMAC_INTMASK_AI: u32 = 0x0200;
/// Normal interrupt summary.
pub const SDMMC_IDMAC_INTMASK_NI: u32 = 0x0100;
/// Card error summary.
pub const SDMMC_IDMAC_INTMASK_CES: u32 = 0x0020;
/// Descriptor unavailable.
pub const SDMMC_IDMAC_INTMASK_DU: u32 = 0x0010;
/// Fatal bus error.
pub const SDMMC_IDMAC_INTMASK_FBE: u32 = 0x0004;
/// Receive interrupt.
pub const SDMMC_IDMAC_INTMASK_RI: u32 = 0x0002;
/// Transmit interrupt.
pub const SDMMC_IDMAC_INTMASK_TI: u32 = 0x0001;

/// Data-phase error group: data timeout, data CRC, host timeout,
/// start-bit error, end-bit error.
pub const SD_DATA_ERR_MASK: u32 = 0x0200 | 0x0080 | 0x0400 | 0x2000 | 0x8000;

/// DMA completion group: receive, transmit, normal-interrupt summary.
pub const SD_DMA_DONE_MASK: u32 = 0x0002 | 0x0001 | 0x0100;

/// Command-phase error group: response timeout, response CRC,
/// response error.
pub const SD_CMD_ERR_MASK: u32 = 0x0100 | 0x0040 | 0x0002;

// MMC command opcodes.
pub const MMC_GO_IDLE_STATE: u8 = 0;
pub const MMC_SEND_OP_COND: u8 = 1;
pub const MMC_ALL_SEND_CID: u8 = 2;
pub const MMC_SET_RELATIVE_ADDR: u8 = 3;
pub const MMC_SWITCH: u8 = 6;
pub const MMC_SELECT_CARD: u8 = 7;
pub const MMC_SEND_EXT_CSD: u8 = 8;
pub const MMC_SEND_CSD: u8 = 9;
pub const MMC_SEND_CID: u8 = 10;
pub const MMC_READ_DAT_UNTIL_STOP: u8 = 11;
pub const MMC_STOP_TRANSMISSION: u8 = 12;
pub const MMC_SEND_STATUS: u8 = 13;
pub const MMC_SET_BLOCKLEN: u8 = 16;
pub const MMC_READ_BLOCK_SINGLE: u8 = 17;
pub const MMC_READ_BLOCK_MULTIPLE: u8 = 18;
pub const MMC_SEND_TUNING_BLOCK: u8 = 19;
pub const MMC_WRITE_DAT_UNTIL_STOP: u8 = 20;
pub const MMC_SET_BLOCK_COUNT: u8 = 23;
pub const MMC_WRITE_BLOCK_SINGLE: u8 = 24;
pub const MMC_WRITE_BLOCK_MULTIPLE: u8 = 25;
pub const MMC_ERASE_GROUP_START: u8 = 35;
pub const MMC_ERASE_GROUP_END: u8 = 36;
pub const MMC_ERASE: u8 = 38;
pub const MMC_APP_CMD: u8 = 55;

// SD command opcodes.
pub const SD_SEND_RELATIVE_ADDR: u8 = 3;
pub const SD_SEND_SWITCH_FUNC: u8 = 6;
pub const SD_SEND_IF_COND: u8 = 8;
pub const SD_SWITCH_VOLTAGE: u8 = 11;
pub const SD_ERASE_GROUP_START: u8 = 32;
pub const SD_ERASE_GROUP_END: u8 = 33;
pub const SD_READ_OCR: u8 = 58;
pub const SD_CRC_ON_OFF: u8 = 59;

// SD application command opcodes (issued after APP_CMD).
pub const SD_APP_SET_BUS_WIDTH: u8 = 6;
pub const SD_APP_SD_STATUS: u8 = 13;
pub const SD_APP_SEND_NUM_WR_BLOCKS: u8 = 22;
pub const SD_APP_OP_COND: u8 = 41;
pub const SD_APP_SEND_SCR: u8 = 51;

// Descriptor protocol flags.
/// Command is complete.
pub const SCF_ITSDONE: u32 = 0x0001;
pub const SCF_CMD_AC: u32 = 0x0000;
pub const SCF_CMD_ADTC: u32 = 0x0010;
pub const SCF_CMD_BC: u32 = 0x0020;
pub const SCF_CMD_BCR: u32 = 0x0030;
/// Read command: data flows from the card to the host.
pub const SCF_CMD_READ: u32 = 0x0040;
/// Response carries a busy phase.
pub const SCF_RSP_BSY: u32 = 0x0100;
/// Long (136-bit) response.
pub const SCF_RSP_136: u32 = 0x0200;
/// Response CRC is checked.
pub const SCF_RSP_CRC: u32 = 0x0400;
/// Response carries a command index.
pub const SCF_RSP_IDX: u32 = 0x0800;
/// A response is expected at all.
pub const SCF_RSP_PRESENT: u32 = 0x1000;
/// Poll the card-busy line after the command completes.
pub const SCF_WAIT_BUSY: u32 = 0x2000;

// Response shapes, as flag combinations.
pub const SCF_RSP_R0: u32 = 0;
pub const SCF_RSP_R1: u32 = 0x1000 | 0x0400 | 0x0800;
pub const SCF_RSP_R1B: u32 = 0x1000 | 0x0400 | 0x0800 | 0x0100;
pub const SCF_RSP_R2: u32 = 0x1000 | 0x0400 | 0x0200;
pub const SCF_RSP_R3: u32 = 0x1000;
pub const SCF_RSP_R4: u32 = 0x1000;
pub const SCF_RSP_R5: u32 = 0x1000 | 0x0400 | 0x0800;
pub const SCF_RSP_R5B: u32 = 0x1000 | 0x0400 | 0x0800 | 0x0100;
pub const SCF_RSP_R6: u32 = 0x1000 | 0x0400 | 0x0800;
pub const SCF_RSP_R7: u32 = 0x1000 | 0x0400 | 0x0800;

// Card status (R1) bits.
/// Ready for the next transfer.
pub const MMC_R1_READY_FOR_DATA: u32 = 0x100;
/// Application commands supported.
pub const MMC_R1_APP_CMD: u32 = 0x20;
/// A switch command did not succeed.
pub const MMC_R1_SWITCH_ERROR: u32 = 0x80;
pub const MMC_R1_CURRENT_STATE_POS: u32 = 9;
pub const MMC_R1_CURRENT_STATE_MASK: u32 = 0x1E00;
pub const MMC_R1_CURRENT_STATE_TRAN: u32 = 4;

// Operating-condition register bits.
/// Memory power-up status.
pub const MMC_OCR_MEM_READY: u32 = 0x80000000;
/// Access-mode field (bits 30:29).
pub const MMC_OCR_ACCESS_MODE_MASK: u32 = 0x60000000;
pub const MMC_OCR_SECTOR_MODE: u32 = 0x40000000;
pub const MMC_OCR_BYTE_MODE: u32 = 0x20000000;
/// Voltage-window field advertised by the host.
pub const SD_OCR_VOL_MASK: u32 = 0x00FF8000;
/// High-capacity (SDHC/SDXC) support.
pub const SD_OCR_SDHC_CAP: u32 = 0x40000000;
/// The card accepts switching to 1.8 V signalling.
pub const SD_OCR_S18_RA: u32 = 0x01000000;
/// Maximum-performance (XPC) request.
pub const SD_OCR_XPC: u32 = 0x10000000;

} // verus!
