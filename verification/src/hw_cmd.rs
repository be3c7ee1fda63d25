//! The controller's hardware command word.
//!
//! A `SdmmcHwCmd` is the derived, purely functional value written to the
//! controller's command register when a command is started. It is never
//! persisted; it is recomputed for each submission from the command
//! descriptor and the target slot. The fields are kept typed here and
//! [`SdmmcHwCmd::word`] produces the exact register encoding.

use vstd::prelude::*;

verus! {

/// The fields of the controller's command register.
#[derive(Debug, Clone, Copy, PartialEq, Eq, Structural)]
pub struct SdmmcHwCmd {
    /// Command index (6 bits).
    pub cmd_index: u8,
    /// A response is expected.
    pub response_expect: bool,
    /// The response is long (136-bit).
    pub response_long: bool,
    /// The response CRC is checked.
    pub check_response_crc: bool,
    /// A data phase follows the command.
    pub data_expected: bool,
    /// Data direction flag.
    pub rw: bool,
    /// Issue a stop command automatically at the end of the transfer.
    pub send_auto_stop: bool,
    /// Wait for any previous data transfer to complete before sending.
    pub wait_complete: bool,
    /// This is the stop/abort command.
    pub stop_abort_cmd: bool,
    /// Send the 80-clock initialization sequence first.
    pub send_init: bool,
    /// Target slot number (5 bits).
    pub card_num: u8,
    /// Register-update-only command: no command goes on the bus.
    pub update_clk_reg: bool,
    /// This command starts the voltage-switch sequence.
    pub volt_switch: bool,
    /// Route the command through the hold register (timing requirement).
    pub use_hold_reg: bool,
    /// Start-command bit: the controller latches the word when set.
    pub start_command: bool,
}

impl SdmmcHwCmd {
    /// The all-clear word: every flag off, index and slot zero.
    pub fn new() -> (r: SdmmcHwCmd)
        ensures
            r == SdmmcHwCmd::empty_spec(),
    {
        SdmmcHwCmd {
            cmd_index: 0,
            response_expect: false,
            response_long: false,
            check_response_crc: false,
            data_expected: false,
            rw: false,
            send_auto_stop: false,
            wait_complete: false,
            stop_abort_cmd: false,
            send_init: false,
            card_num: 0,
            update_clk_reg: false,
            volt_switch: false,
            use_hold_reg: false,
            start_command: false,
        }
    }

    /// The all-clear word, at the specification level.
    pub open spec fn empty_spec() -> SdmmcHwCmd {
        SdmmcHwCmd {
            cmd_index: 0,
            response_expect: false,
            response_long: false,
            check_response_crc: false,
            data_expected: false,
            rw: false,
            send_auto_stop: false,
            wait_complete: false,
            stop_abort_cmd: false,
            send_init: false,
            card_num: 0,
            update_clk_reg: false,
            volt_switch: false,
            use_hold_reg: false,
            start_command: false,
        }
    }

    pub fn with_cmd_index(self, v: u8) -> (r: SdmmcHwCmd)
        ensures
            r == (SdmmcHwCmd { cmd_index: v, ..self }),
    {
        SdmmcHwCmd { cmd_index: v, ..self }
    }

    pub fn with_response_expect(self, v: bool) -> (r: SdmmcHwCmd)
        ensures
            r == (SdmmcHwCmd { response_expect: v, ..self }),
    {
        SdmmcHwCmd { response_expect: v, ..self }
    }

    pub fn with_response_long(self, v: bool) -> (r: SdmmcHwCmd)
        ensures
            r == (SdmmcHwCmd { response_long: v, ..self }),
    {
        SdmmcHwCmd { response_long: v, ..self }
    }

    pub fn with_check_response_crc(self, v: bool) -> (r: SdmmcHwCmd)
        ensures
            r == (SdmmcHwCmd { check_response_crc: v, ..self }),
    {
        SdmmcHwCmd { check_response_crc: v, ..self }
    }

    pub fn with_data_expected(self, v: bool) -> (r: SdmmcHwCmd)
        ensures
            r == (SdmmcHwCmd { data_expected: v, ..self }),
    {
        SdmmcHwCmd { data_expected: v, ..self }
    }

    pub fn with_rw(self, v: bool) -> (r: SdmmcHwCmd)
        ensures
            r == (SdmmcHwCmd { rw: v, ..self }),
    {
        SdmmcHwCmd { rw: v, ..self }
    }

    pub fn with_send_auto_stop(self, v: bool) -> (r: SdmmcHwCmd)
        ensures
            r == (SdmmcHwCmd { send_auto_stop: v, ..self }),
    {
        SdmmcHwCmd { send_auto_stop: v, ..self }
    }

    pub fn with_wait_complete(self, v: bool) -> (r: SdmmcHwCmd)
        ensures
            r == (SdmmcHwCmd { wait_complete: v, ..self }),
    {
        SdmmcHwCmd { wait_complete: v, ..self }
    }

    pub fn with_stop_abort_cmd(self, v: bool) -> (r: SdmmcHwCmd)
        ensures
            r == (SdmmcHwCmd { stop_abort_cmd: v, ..self }),
    {
        SdmmcHwCmd { stop_abort_cmd: v, ..self }
    }

    pub fn with_send_init(self, v: bool) -> (r: SdmmcHwCmd)
        ensures
            r == (SdmmcHwCmd { send_init: v, ..self }),
    {
        SdmmcHwCmd { send_init: v, ..self }
    }

    pub fn with_card_num(self, v: u8) -> (r: SdmmcHwCmd)
        ensures
            r == (SdmmcHwCmd { card_num: v, ..self }),
    {
        SdmmcHwCmd { card_num: v, ..self }
    }

    pub fn with_update_clk_reg(self, v: bool) -> (r: SdmmcHwCmd)
        ensures
            r == (SdmmcHwCmd { update_clk_reg: v, ..self }),
    {
        SdmmcHwCmd { update_clk_reg: v, ..self }
    }

    pub fn with_volt_switch(self, v: bool) -> (r: SdmmcHwCmd)
        ensures
            r == (SdmmcHwCmd { volt_switch: v, ..self }),
    {
        SdmmcHwCmd { volt_switch: v, ..self }
    }

    pub fn with_use_hold_reg(self, v: bool) -> (r: SdmmcHwCmd)
        ensures
            r == (SdmmcHwCmd { use_hold_reg: v, ..self }),
    {
        SdmmcHwCmd { use_hold_reg: v, ..self }
    }

    pub fn with_start_command(self, v: bool) -> (r: SdmmcHwCmd)
        ensures
            r == (SdmmcHwCmd { start_command: v, ..self }),
    {
        SdmmcHwCmd { start_command: v, ..self }
    }

    /// The register encoding of the fields, at the specification level.
    ///
    /// Bit layout of the command register: index in bits 5:0,
    /// response-expect 6, response-length 7, check-response-crc 8,
    /// data-expected 9, read/write 10, send-auto-stop 12,
    /// wait-for-previous-data 13, stop/abort 14, send-initialization 15,
    /// card number 20:16, update-clock-registers-only 21, voltage switch 28,
    /// use hold register 29, start command 31.
    pub open spec fn word_spec(self) -> u32 {
        ((self.cmd_index & 0x3f) as u32) | (if self.response_expect {
            0x40u32
        } else {
            0u32
        }) | (if self.response_long {
            0x80u32
        } else {
            0u32
        }) | (if self.check_response_crc {
            0x100u32
        } else {
            0u32
        }) | (if self.data_expected {
            0x200u32
        } else {
            0u32
        }) | (if self.rw {
            0x400u32
        } else {
            0u32
        }) | (if self.send_auto_stop {
            0x1000u32
        } else {
            0u32
        }) | (if self.wait_complete {
            0x2000u32
        } else {
            0u32
        }) | (if self.stop_abort_cmd {
            0x4000u32
        } else {
            0u32
        }) | (if self.send_init {
            0x8000u32
        } else {
            0u32
        }) | ((((self.card_num & 0x1f) as u32) << 16u32)) | (if self.update_clk_reg {
            0x200000u32
        } else {
            0u32
        }) | (if self.volt_switch {
            0x10000000u32
        } else {
            0u32
        }) | (if self.use_hold_reg {
            0x20000000u32
        } else {
            0u32
        }) | (if self.start_command {
            0x80000000u32
        } else {
            0u32
        })
    }

    /// Encode the fields into the word written to the command register.
    pub fn word(&self) -> (r: u32)
        ensures
            r == self.word_spec(),
    {
        ((self.cmd_index & 0x3f) as u32) | (if self.response_expect {
            0x40u32
        } else {
            0u32
        }) | (if self.response_long {
            0x80u32
        } else {
            0u32
        }) | (if self.check_response_crc {
            0x100u32
        } else {
            0u32
        }) | (if self.data_expected {
            0x200u32
        } else {
            0u32
        }) | (if self.rw {
            0x400u32
        } else {
            0u32
        }) | (if self.send_auto_stop {
            0x1000u32
        } else {
            0u32
        }) | (if self.wait_complete {
            0x2000u32
        } else {
            0u32
        }) | (if self.stop_abort_cmd {
            0x4000u32
        } else {
            0u32
        }) | (if self.send_init {
            0x8000u32
        } else {
            0u32
        }) | ((((self.card_num & 0x1f) as u32) << 16u32)) | (if self.update_clk_reg {
            0x200000u32
        } else {
            0u32
        }) | (if self.volt_switch {
            0x10000000u32
        } else {
            0u32
        }) | (if self.use_hold_reg {
            0x20000000u32
        } else {
            0u32
        }) | (if self.start_command {
            0x80000000u32
        } else {
            0u32
        })
    }
}

/// The register-update-only word used to latch new clock settings into the
/// card-interface unit: wait-for-completion set, no command on the bus, the
/// voltage-switch flag only while a voltage switch is in progress.
pub fn clk_update_word(slot: crate::Slot, is_volt_switch: bool) -> (r: SdmmcHwCmd)
    ensures
        r == clk_update_word_spec(slot, is_volt_switch),
{
    SdmmcHwCmd::new().with_card_num(slot.num()).with_update_clk_reg(true).with_wait_complete(
        true,
    ).with_volt_switch(is_volt_switch)
}

/// Specification of [`clk_update_word`].
pub open spec fn clk_update_word_spec(slot: crate::Slot, is_volt_switch: bool) -> SdmmcHwCmd {
    SdmmcHwCmd {
        card_num: if slot is Slot0 {
            0u8
        } else {
            1u8
        },
        update_clk_reg: true,
        wait_complete: true,
        volt_switch: is_volt_switch,
        ..SdmmcHwCmd::empty_spec()
    }
}

} // verus!
