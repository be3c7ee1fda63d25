//! Card bring-up decisions.
//!
//! The bring-up sequencer walks a card through reset, interface-condition
//! probe, operating-condition negotiation, identification and addressing by
//! submitting commands through the transaction engine. The functions here
//! are its decisions: the descriptors it submits, the checks it applies to
//! responses, and the retry bookkeeping of the operating-condition loop.

use vstd::prelude::*;

use crate::cmd::SdmmcCmd;
use crate::flags::MMC_ALL_SEND_CID;
use crate::flags::MMC_APP_CMD;
use crate::flags::MMC_GO_IDLE_STATE;
use crate::flags::MMC_OCR_ACCESS_MODE_MASK;
use crate::flags::MMC_OCR_MEM_READY;
use crate::flags::MMC_OCR_SECTOR_MODE;
use crate::flags::MMC_R1_APP_CMD;
use crate::flags::MMC_SEND_OP_COND;
use crate::flags::SCF_CMD_AC;
use crate::flags::SCF_CMD_BC;
use crate::flags::SCF_CMD_BCR;
use crate::flags::SCF_RSP_R0;
use crate::flags::SCF_RSP_R1;
use crate::flags::SCF_RSP_R2;
use crate::flags::SCF_RSP_R3;
use crate::flags::SCF_RSP_R6;
use crate::flags::SCF_RSP_R7;
use crate::flags::SD_APP_OP_COND;
use crate::flags::SD_OCR_S18_RA;
use crate::flags::SD_OCR_SDHC_CAP;
use crate::flags::SD_OCR_VOL_MASK;
use crate::flags::SD_OCR_XPC;
use crate::flags::SD_READ_OCR;
use crate::flags::SD_SEND_IF_COND;
use crate::flags::SD_SEND_RELATIVE_ADDR;
use crate::BusSamplingMode;
use crate::Error;
use crate::Slot;
use crate::Width;

verus! {

/// The check pattern carried by the interface-condition probe.
pub const IF_COND_PATTERN: u32 = 0xAA;

/// How many transient command errors the operating-condition loop
/// tolerates before giving up with the last observed error.
pub const OP_COND_MAX_ERRORS: u32 = 3;

/// How many negotiation rounds the operating-condition loop makes before
/// giving up with a timeout.
pub const OP_COND_MAX_RETRIES: u32 = 300;

/// The reset descriptor: "go idle state", broadcast, no response.
pub fn go_idle_descriptor() -> (r: SdmmcCmd)
    ensures
        r.opcode == MMC_GO_IDLE_STATE,
        r.arg == 0,
        r.flags == SCF_CMD_BC | SCF_RSP_R0,
        r.data is None && r.err is None,
{
    SdmmcCmd { opcode: MMC_GO_IDLE_STATE, flags: SCF_CMD_BC | SCF_RSP_R0, ..Default::default() }
}

/// Argument of the interface-condition probe: the host-voltage-accepted
/// bit when the host advertises the 2.7-3.6 V window, plus the check
/// pattern the card must echo.
pub fn if_cond_arg(ocr: u32) -> (r: u32)
    ensures
        r == (if ocr & SD_OCR_VOL_MASK != 0 {
            0x100u32 | IF_COND_PATTERN
        } else {
            IF_COND_PATTERN
        }),
{
    if ocr & SD_OCR_VOL_MASK != 0 {
        0x100 | IF_COND_PATTERN
    } else {
        IF_COND_PATTERN
    }
}

/// The interface-condition probe descriptor.
pub fn if_cond_descriptor(ocr: u32) -> (r: SdmmcCmd)
    ensures
        r.opcode == SD_SEND_IF_COND,
        r.arg == (if ocr & SD_OCR_VOL_MASK != 0 {
            0x100u32 | IF_COND_PATTERN
        } else {
            IF_COND_PATTERN
        }),
        r.flags == SCF_CMD_BCR | SCF_RSP_R7,
        r.data is None && r.err is None,
{
    SdmmcCmd {
        opcode: SD_SEND_IF_COND,
        arg: if_cond_arg(ocr),
        flags: SCF_CMD_BCR | SCF_RSP_R7,
        ..Default::default()
    }
}

/// Check the interface-condition response: the card must echo the check
/// pattern in the low byte, anything else is an invalid response.
pub fn if_cond_check(resp0: u32) -> (r: Result<(), Error>)
    ensures
        resp0 & 0xFF == IF_COND_PATTERN ==> r is Ok,
        resp0 & 0xFF != IF_COND_PATTERN ==> r == Err::<(), Error>(Error::InvalidResponse),
{
    if resp0 & 0xFF != IF_COND_PATTERN {
        Err(Error::InvalidResponse)
    } else {
        Ok(())
    }
}

/// The host operating-condition window after the interface-condition
/// probe: a card that answered is high-capacity aware, a card that timed
/// out or rejected the probe is not one (the plain window stands), and any
/// other failure is surfaced.
pub fn host_ocr_after_if_cond(probe: &Result<(), Error>) -> (r: Result<u32, Error>)
    ensures
        probe is Ok ==> r == Ok::<u32, Error>(SD_OCR_VOL_MASK | SD_OCR_SDHC_CAP),
        probe == Err::<(), Error>(Error::Timeout) || probe == Err::<(), Error>(
            Error::NotSupported,
        ) ==> r == Ok::<u32, Error>(SD_OCR_VOL_MASK),
        probe is Err && probe->Err_0 != Error::Timeout && probe->Err_0 != Error::NotSupported
            ==> r == Err::<u32, Error>(probe->Err_0),
{
    match probe {
        Ok(_) => Ok(SD_OCR_VOL_MASK | SD_OCR_SDHC_CAP),
        Err(e) => match e {
            Error::Timeout => Ok(SD_OCR_VOL_MASK),
            Error::NotSupported => Ok(SD_OCR_VOL_MASK),
            _ => Err(*e),
        },
    }
}

/// The negotiation argument: the host voltage window, the high-capacity
/// bit when the card advertised it, and the 1.8 V-switch and
/// maximum-performance requests when the slot is to run at 1.8 V.
pub fn acmd41_arg(card_ocr: u32, uhs1: bool) -> (r: u32)
    ensures
        r == ({
            let base = if card_ocr & SD_OCR_SDHC_CAP != 0 {
                SD_OCR_VOL_MASK | SD_OCR_SDHC_CAP
            } else {
                SD_OCR_VOL_MASK
            };
            if uhs1 {
                base | SD_OCR_S18_RA | SD_OCR_XPC
            } else {
                base
            }
        }),
{
    let mut arg = SD_OCR_VOL_MASK;
    if card_ocr & SD_OCR_SDHC_CAP != 0 {
        arg = arg | SD_OCR_SDHC_CAP;
    }
    if uhs1 {
        arg = arg | SD_OCR_S18_RA | SD_OCR_XPC;
    }
    arg
}

/// Whether a negotiated operating-condition value asks for the 1.8 V
/// signalling switch: the card must both accept the switch and be
/// high-capacity.
pub fn wants_uhs1(ocr: u32) -> (r: bool)
    ensures
        r == (ocr & SD_OCR_S18_RA != 0 && ocr & SD_OCR_SDHC_CAP != 0),
{
    ocr & SD_OCR_S18_RA != 0 && ocr & SD_OCR_SDHC_CAP != 0
}

/// The host window restricted to what the card supports: voltage bits the
/// card does not advertise are dropped, bits outside the window are kept.
pub fn masked_host_ocr(host_ocr: u32, card_ocr: u32) -> (r: u32)
    ensures
        r == host_ocr & (card_ocr | !SD_OCR_VOL_MASK),
{
    host_ocr & (card_ocr | !SD_OCR_VOL_MASK)
}

/// The application-command prefix descriptor, addressed to the card.
pub fn app_cmd_descriptor(rsa: u32) -> (r: SdmmcCmd)
    ensures
        r.opcode == MMC_APP_CMD,
        r.arg == rsa << 16u32,
        r.flags == SCF_CMD_AC | SCF_RSP_R1,
        r.data is None && r.err is None,
{
    SdmmcCmd {
        opcode: MMC_APP_CMD,
        arg: rsa << 16u32,
        flags: SCF_CMD_AC | SCF_RSP_R1,
        ..Default::default()
    }
}

/// Whether the card's status says it supports application commands.
pub fn app_cmd_supported(resp0: u32) -> (r: bool)
    ensures
        r == (resp0 & MMC_R1_APP_CMD != 0),
{
    resp0 & MMC_R1_APP_CMD != 0
}

/// The operating-condition descriptor for one negotiation round. The
/// application-command form carries the argument as is; the plain form
/// forces sector addressing into the access-mode field.
pub fn op_cond_descriptor(use_app_cmd: bool, ocr: u32) -> (r: SdmmcCmd)
    ensures
        use_app_cmd ==> r.opcode == SD_APP_OP_COND && r.arg == ocr,
        !use_app_cmd ==> r.opcode == MMC_SEND_OP_COND && r.arg == ((ocr
            & !MMC_OCR_ACCESS_MODE_MASK) | MMC_OCR_SECTOR_MODE),
        r.flags == SCF_CMD_BCR | SCF_RSP_R3,
        r.data is None && r.err is None,
{
    if use_app_cmd {
        SdmmcCmd {
            opcode: SD_APP_OP_COND,
            arg: ocr,
            flags: SCF_CMD_BCR | SCF_RSP_R3,
            ..Default::default()
        }
    } else {
        SdmmcCmd {
            opcode: MMC_SEND_OP_COND,
            arg: (ocr & !MMC_OCR_ACCESS_MODE_MASK) | MMC_OCR_SECTOR_MODE,
            flags: SCF_CMD_BCR | SCF_RSP_R3,
            ..Default::default()
        }
    }
}

/// Whether a negotiation round ends the loop: the card reports its memory
/// powered up, or the host asked with an empty window (a bare query).
pub fn op_cond_ready(resp0: u32, ocr: u32) -> (r: bool)
    ensures
        r == (resp0 & MMC_OCR_MEM_READY != 0 || ocr == 0),
{
    resp0 & MMC_OCR_MEM_READY != 0 || ocr == 0
}

/// Book-keeping of a failed negotiation round: the error budget is spent
/// one error at a time, and when it runs out the last observed error is
/// the loop's result.
pub fn op_cond_on_error(err_budget: u32, err: Error) -> (r: Result<u32, Error>)
    requires
        err_budget >= 1,
    ensures
        err_budget == 1 ==> r == Err::<u32, Error>(err),
        err_budget > 1 ==> r == Ok::<u32, Error>((err_budget - 1) as u32),
{
    let remaining = err_budget - 1;
    if remaining == 0 {
        Err(err)
    } else {
        Ok(remaining)
    }
}

/// The read-OCR descriptor.
pub fn read_ocr_descriptor() -> (r: SdmmcCmd)
    ensures
        r.opcode == SD_READ_OCR,
        r.arg == 0,
        r.flags == SCF_CMD_BCR | SCF_RSP_R2,
        r.data is None && r.err is None,
{
    SdmmcCmd { opcode: SD_READ_OCR, flags: SCF_CMD_BCR | SCF_RSP_R2, ..Default::default() }
}

/// The identification (all-send-CID) descriptor.
pub fn all_send_cid_descriptor() -> (r: SdmmcCmd)
    ensures
        r.opcode == MMC_ALL_SEND_CID,
        r.arg == 0,
        r.flags == SCF_CMD_BCR | SCF_RSP_R2,
        r.data is None && r.err is None,
{
    SdmmcCmd { opcode: MMC_ALL_SEND_CID, flags: SCF_CMD_BCR | SCF_RSP_R2, ..Default::default() }
}

/// The relative-address descriptor: an MMC card is assigned the fixed
/// address one; an SD card publishes its own.
pub fn relative_addr_descriptor(is_mmc: bool) -> (r: SdmmcCmd)
    ensures
        r.opcode == SD_SEND_RELATIVE_ADDR,
        r.arg == (if is_mmc {
            0x10000u32
        } else {
            0u32
        }),
        r.flags == SCF_CMD_BCR | SCF_RSP_R6,
        r.data is None && r.err is None,
{
    SdmmcCmd {
        opcode: SD_SEND_RELATIVE_ADDR,
        arg: if is_mmc {
            0x10000
        } else {
            0
        },
        flags: SCF_CMD_BCR | SCF_RSP_R6,
        ..Default::default()
    }
}

/// The relative card address published in an addressing response.
pub fn rca_from_response(resp0: u32) -> (r: u16)
    ensures
        r as u32 == resp0 >> 16u32,
{
    proof {
        assert(resp0 >> 16u32 <= 0xFFFF) by (bit_vector);
    }
    (resp0 >> 16) as u16
}

/// The largest capacity, in sectors, a standard-capacity card can report;
/// larger values are clamped for cards that did not negotiate the
/// high-capacity class.
pub fn clamp_sdsc_capacity(capacity: u32, sector_size: u32, ocr: u32) -> (r: u32)
    requires
        sector_size >= 2,
    ensures
        ({
            let max_sdsc = 0xffffffffu32 as int / sector_size as int + 1;
            r == (if ocr & SD_OCR_SDHC_CAP == 0 && capacity > max_sdsc {
                max_sdsc
            } else {
                capacity as int
            })
        }),
{
    proof {
        assert(0xffffffffu32 as int / sector_size as int <= 0x7fffffff) by (nonlinear_arith)
            requires
                sector_size >= 2,
        ;
    }
    let max_sdsc: u32 = 0xffffffffu32 / sector_size + 1;
    if ocr & SD_OCR_SDHC_CAP == 0 && capacity > max_sdsc {
        max_sdsc
    } else {
        capacity
    }
}

/// Whether a slot supports a bus width: the second slot has only four
/// data lines.
pub fn slot_width_supported(slot: Slot, width: Width) -> (r: bool)
    ensures
        r == !(slot is Slot1 && width is Bit8),
{
    !(slot == Slot::Slot1 && width == Width::Bit8)
}

/// Whether a width supports a sampling mode: the eight-line bus cannot
/// run double data rate.
pub fn sampling_mode_allowed(width: Width, mode: BusSamplingMode) -> (r: bool)
    ensures
        r == !(width is Bit8 && mode is DDR),
{
    !(width == Width::Bit8 && mode == BusSamplingMode::DDR)
}

/// The per-slot width bits of the card-type register after selecting a
/// width: one line clears both per-slot bits, four lines sets the
/// four-line bit and clears the eight-line bit, eight lines sets the
/// eight-line bit.
pub fn card_width_bits(width4: u8, width8: u8, slot: Slot, width: Width) -> (r: (u8, u8))
    ensures
        width is Bit1 ==> r == (width4 & !slot.bit_spec(), width8 & !slot.bit_spec()),
        width is Bit4 ==> r == (width4 | slot.bit_spec(), width8 & !slot.bit_spec()),
        width is Bit8 ==> r == (width4, width8 | slot.bit_spec()),
{
    let bit = slot.bit();
    match width {
        Width::Bit1 => (width4 & !bit, width8 & !bit),
        Width::Bit4 => (width4 | bit, width8 & !bit),
        Width::Bit8 => (width4, width8 | bit),
    }
}

} // verus!
