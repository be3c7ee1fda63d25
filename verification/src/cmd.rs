//! The command descriptor and its compilation into a hardware command word.
//!
//! A `SdmmcCmd` represents one logical command: opcode, 32-bit argument,
//! response buffer, optional data buffer with total and per-block lengths,
//! protocol flags, a timeout, and a result slot. It is owned by the caller
//! for the duration of one transaction.

use vstd::prelude::*;

use crate::flags::MMC_GO_IDLE_STATE;
use crate::flags::MMC_READ_BLOCK_MULTIPLE;
use crate::flags::MMC_READ_DAT_UNTIL_STOP;
use crate::flags::MMC_STOP_TRANSMISSION;
use crate::flags::MMC_WRITE_BLOCK_MULTIPLE;
use crate::flags::MMC_WRITE_DAT_UNTIL_STOP;
use crate::flags::SCF_CMD_READ;
use crate::flags::SCF_RSP_136;
use crate::flags::SCF_RSP_CRC;
use crate::flags::SCF_RSP_PRESENT;
use crate::flags::SD_SWITCH_VOLTAGE;
use crate::hw_cmd::SdmmcHwCmd;
use crate::Error;

verus! {

/// One logical SD/MMC command.
#[derive(Debug)]
pub struct SdmmcCmd {
    /// Command opcode.
    pub opcode: u8,
    /// 32-bit command argument.
    pub arg: u32,
    /// Captured response words. For a short response only the first word is
    /// meaningful and the rest are zeroed; a long response fills all four.
    pub response: [u32; 4],
    /// Data buffer for the data phase, if the command has one.
    pub data: Option<Vec<u8>>,
    /// Total data length in bytes.
    pub datalen: u32,
    /// Buffer length in bytes.
    pub buflen: u32,
    /// Per-block length in bytes.
    pub blklen: u32,
    /// Protocol flags (`SCF_*`).
    pub flags: u32,
    /// Result slot: the protocol outcome of the transaction.
    pub err: Option<Error>,
    /// Overall transaction timeout in milliseconds.
    pub timeout_ms: u64,
}

impl SdmmcCmd {
    /// Invariant of a well-formed descriptor: a data buffer comes with a
    /// nonzero block length that evenly divides the total length.
    pub open spec fn data_len_ok(&self) -> bool {
        self.data is Some ==> self.blklen != 0 && self.datalen % self.blklen == 0
    }

    /// The command-kind field of the protocol flags.
    pub fn scf_cmd(&self) -> (r: u32)
        ensures
            r == self.flags & 0x00f0,
    {
        self.flags & 0x00f0
    }

    /// Whether the descriptor's flags intersect `flag`.
    pub fn has_flag(&self, flag: u32) -> (r: bool)
        ensures
            r == self.has_flag_spec(flag),
    {
        self.flags & flag != 0
    }

    /// Whether the descriptor's flags intersect `flag`.
    pub open spec fn has_flag_spec(&self, flag: u32) -> bool {
        self.flags & flag != 0
    }

    /// Whether the opcode is one of the four multi-block or stream
    /// read/write commands that require an automatic stop.
    pub open spec fn is_multi_block_opcode(&self) -> bool {
        self.opcode == MMC_WRITE_BLOCK_MULTIPLE || self.opcode == MMC_READ_BLOCK_MULTIPLE
            || self.opcode == MMC_WRITE_DAT_UNTIL_STOP || self.opcode == MMC_READ_DAT_UNTIL_STOP
    }

    /// The compiled hardware command word, at the specification level.
    pub open spec fn hw_cmd_spec(&self) -> SdmmcHwCmd {
        SdmmcHwCmd {
            cmd_index: self.opcode,
            response_expect: self.has_flag_spec(SCF_RSP_PRESENT),
            response_long: self.has_flag_spec(SCF_RSP_PRESENT) && self.has_flag_spec(SCF_RSP_136),
            check_response_crc: self.has_flag_spec(SCF_RSP_CRC),
            data_expected: self.data is Some,
            rw: self.data is Some && self.has_flag_spec(SCF_CMD_READ),
            send_auto_stop: self.data is Some && self.datalen > 0 && self.is_multi_block_opcode(),
            wait_complete: self.opcode != MMC_STOP_TRANSMISSION && self.opcode != MMC_GO_IDLE_STATE
                && self.opcode != SD_SWITCH_VOLTAGE,
            stop_abort_cmd: self.opcode == MMC_STOP_TRANSMISSION,
            send_init: self.opcode == MMC_GO_IDLE_STATE,
            card_num: 0,
            update_clk_reg: false,
            volt_switch: self.opcode == SD_SWITCH_VOLTAGE,
            use_hold_reg: false,
            start_command: false,
        }
    }

    /// Compile the descriptor into the hardware command word for slot-less
    /// submission; the slot number and start bit are added at submission.
    ///
    /// The compilation rules are a pure function of opcode and flags:
    /// stop/abort iff the opcode is "stop transmission"; init-sequence iff
    /// "go idle state"; voltage-switch iff "switch voltage";
    /// wait-for-completion for every other opcode; the response flags copied
    /// from the descriptor's response shape; data-expected iff a buffer is
    /// attached, with the direction flag iff the read flag is also set; and
    /// auto-stop iff a nonempty buffer is attached and the opcode is one of
    /// the four multi-block/stream opcodes.
    pub fn make_hw_cmd(&self) -> (r: SdmmcHwCmd)
        requires
            self.data_len_ok(),
        ensures
            r.cmd_index == self.opcode,
            r.stop_abort_cmd == (self.opcode == MMC_STOP_TRANSMISSION),
            r.send_init == (self.opcode == MMC_GO_IDLE_STATE),
            r.volt_switch == (self.opcode == SD_SWITCH_VOLTAGE),
            r.wait_complete == (self.opcode != MMC_STOP_TRANSMISSION && self.opcode
                != MMC_GO_IDLE_STATE && self.opcode != SD_SWITCH_VOLTAGE),
            r.response_expect == self.has_flag_spec(SCF_RSP_PRESENT),
            r.response_long == (self.has_flag_spec(SCF_RSP_PRESENT) && self.has_flag_spec(
                SCF_RSP_136,
            )),
            r.check_response_crc == self.has_flag_spec(SCF_RSP_CRC),
            r.data_expected == (self.data is Some),
            r.rw == (self.data is Some && self.has_flag_spec(SCF_CMD_READ)),
            r.send_auto_stop == (self.data is Some && self.datalen > 0
                && self.is_multi_block_opcode()),
            r.card_num == 0 && !r.update_clk_reg && !r.use_hold_reg && !r.start_command,
            r == self.hw_cmd_spec(),
    {
        SdmmcHwCmd::new().with_cmd_index(self.opcode).with_stop_abort_cmd(
            self.opcode == MMC_STOP_TRANSMISSION,
        ).with_send_init(self.opcode == MMC_GO_IDLE_STATE).with_volt_switch(
            self.opcode == SD_SWITCH_VOLTAGE,
        ).with_wait_complete(
            self.opcode != MMC_STOP_TRANSMISSION && self.opcode != MMC_GO_IDLE_STATE && self.opcode
                != SD_SWITCH_VOLTAGE,
        ).with_response_expect(self.has_flag(SCF_RSP_PRESENT)).with_response_long(
            self.has_flag(SCF_RSP_PRESENT) && self.has_flag(SCF_RSP_136),
        ).with_check_response_crc(self.has_flag(SCF_RSP_CRC)).with_data_expected(
            self.data.is_some(),
        ).with_rw(self.data.is_some() && self.has_flag(SCF_CMD_READ)).with_send_auto_stop(
            self.data.is_some() && self.datalen > 0 && (self.opcode == MMC_WRITE_BLOCK_MULTIPLE
                || self.opcode == MMC_READ_BLOCK_MULTIPLE || self.opcode == MMC_WRITE_DAT_UNTIL_STOP
                || self.opcode == MMC_READ_DAT_UNTIL_STOP),
        )
    }
}

impl Default for SdmmcCmd {
    /// A descriptor with everything zeroed, no data buffer, no recorded
    /// result, and a one-second timeout.
    fn default() -> (r: SdmmcCmd)
        ensures
            r.opcode == 0 && r.arg == 0 && r.response@ == seq![0u32, 0u32, 0u32, 0u32],
            r.data is None && r.datalen == 0 && r.buflen == 0 && r.blklen == 0,
            r.flags == 0 && r.err is None && r.timeout_ms == 1000,
    {
        SdmmcCmd {
            opcode: 0,
            arg: 0,
            response: [0u32, 0, 0, 0],
            data: None,
            datalen: 0,
            buflen: 0,
            blklen: 0,
            flags: 0,
            err: None,
            timeout_ms: 1000,
        }
    }
}

} // verus!
