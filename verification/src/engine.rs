//! The event-driven transaction state machine.
//!
//! One submitted command is driven to completion by consuming `Event`
//! snapshots. Each snapshot is merged with the bits left unhandled by
//! earlier snapshots, then run through a fixed-point loop: every state
//! consumes its trigger bits from the working snapshot, updates the
//! descriptor's result slot and response, emits hardware actions (stop the
//! DMA engine, reset the FIFO, run a voltage-switch stage), and picks a next
//! state, until a pass no longer changes the state. Bits that no state
//! consumed stay in the unhandled accumulator and are merged into the next
//! snapshot: interrupts may report several conditions at once and none may
//! be dropped.
//!
//! The functions here are pure: the values the hardware would supply (the
//! response registers, the outcome of the physical voltage switch) are
//! taken as arguments, and the actions to perform are returned, so the
//! machine is verified for every value the hardware could produce.

use vstd::prelude::*;

use crate::cmd::SdmmcCmd;
use crate::flags::SCF_CMD_READ;
use crate::flags::SCF_RSP_136;
use crate::flags::SCF_RSP_CRC;
use crate::flags::SCF_RSP_PRESENT;
use crate::flags::SDMMC_INTMASK_CMD_DONE;
use crate::flags::SDMMC_INTMASK_DATA_OVER;
use crate::flags::SDMMC_INTMASK_DCRC;
use crate::flags::SDMMC_INTMASK_DTO;
use crate::flags::SDMMC_INTMASK_EBE;
use crate::flags::SDMMC_INTMASK_RCRC;
use crate::flags::SDMMC_INTMASK_RESP_ERR;
use crate::flags::SDMMC_INTMASK_RTO;
use crate::flags::SDMMC_INTMASK_SBE;
use crate::flags::SDMMC_INTMASK_VOLT_SW;
use crate::flags::SCF_WAIT_BUSY;
use crate::flags::SD_CMD_ERR_MASK;
use crate::flags::SD_DATA_ERR_MASK;
use crate::flags::SD_DMA_DONE_MASK;
use crate::flags::SD_SWITCH_VOLTAGE;
use crate::hw_cmd::SdmmcHwCmd;
use crate::Error;
use crate::Event;

verus! {

/// The state of one in-flight transaction. Only one command may be
/// outstanding on the controller at a time, so exactly one value of this
/// type exists per transaction.
#[derive(Debug, Clone, Copy, PartialEq, Eq, Structural)]
pub enum TransState {
    /// Terminal: the transaction is complete (successfully or not).
    Idle,
    /// The command has been latched; awaiting command done or error.
    SendingCmd,
    /// The command finished and a data phase is in progress.
    SendingData,
    /// The DMA engine finished; awaiting data-transfer-over.
    Busy,
    /// A voltage-switch command is on the bus.
    SendingVoltageSwitch,
    /// The physical switch ran; awaiting the card's acknowledgement.
    WaitingVoltageSwitch,
}

/// A snapshot of the controller's four response registers, taken when a
/// response is captured.
#[derive(Debug, Clone, Copy, PartialEq, Eq, Structural)]
pub struct RespRegs {
    pub r0: u32,
    pub r1: u32,
    pub r2: u32,
    pub r3: u32,
}

/// The hardware actions one processing pass asks the caller to perform,
/// and whether the response registers were read.
#[derive(Debug, Clone, Copy, PartialEq, Eq, Structural)]
pub struct StepOutcome {
    /// Stop the DMA engine before anything else touches the buffer.
    pub dma_stop: bool,
    /// Reset the controller's FIFO after a data error.
    pub fifo_reset: bool,
    /// Run voltage-switch stage two: disable the card clock, perform the
    /// physical transition, re-enable the clock.
    pub run_stage2: bool,
    /// Run voltage-switch stage three: return the clock to low-power mode.
    pub run_stage3: bool,
    /// The response registers were captured into the descriptor.
    pub captured_response: bool,
}

impl StepOutcome {
    /// No actions requested.
    pub open spec fn none_spec() -> StepOutcome {
        StepOutcome {
            dma_stop: false,
            fifo_reset: false,
            run_stage2: false,
            run_stage3: false,
            captured_response: false,
        }
    }
}

/// The slice of a command descriptor that the state machine reads and
/// writes: the protocol flags, whether a data buffer is attached, the
/// result slot and the captured response.
#[derive(Debug, Clone, Copy, PartialEq, Eq, Structural)]
pub struct CmdModel {
    pub flags: u32,
    pub has_data: bool,
    pub err: Option<Error>,
    pub response: RespRegs,
}

impl SdmmcCmd {
    /// The slice of this descriptor that the state machine acts on.
    pub open spec fn model(&self) -> CmdModel {
        CmdModel {
            flags: self.flags,
            has_data: self.data is Some,
            err: self.err,
            response: RespRegs {
                r0: self.response@[0],
                r1: self.response@[1],
                r2: self.response@[2],
                r3: self.response@[3],
            },
        }
    }
}

/// Whether `state` intersects `mask`; the mask bits are cleared from
/// `state` either way.
pub fn mask_check_and_clear(state: &mut u32, mask: u32) -> (r: bool)
    ensures
        *final(state) == (*old(state) & !mask),
        r == (*old(state) & mask != 0),
{
    let ret = ((*state) & mask) != 0;
    *state = *state & !mask;
    ret
}

/// Classify a command-phase error from a status snapshot, first match wins:
/// response timeout, then (when the descriptor checks CRC) response CRC
/// error, then response error. `None` when no command-error bit is set.
pub open spec fn classify_cmd_error_spec(status: u32, flags: u32) -> Option<Error> {
    if status & SDMMC_INTMASK_RTO != 0 {
        Some(Error::Timeout)
    } else if flags & SCF_RSP_CRC != 0 && status & SDMMC_INTMASK_RCRC != 0 {
        Some(Error::InvalidCRC)
    } else if status & SDMMC_INTMASK_RESP_ERR != 0 {
        Some(Error::InvalidResponse)
    } else {
        None
    }
}

/// Classify a data-phase error from a status snapshot, first match wins:
/// data timeout, then data CRC error, then an end-bit error on anything but
/// a read is a timeout, and anything else is the generic failure.
pub open spec fn classify_data_error_spec(status: u32, flags: u32) -> Error {
    if status & SDMMC_INTMASK_DTO != 0 {
        Error::Timeout
    } else if status & SDMMC_INTMASK_DCRC != 0 {
        Error::InvalidCRC
    } else if status & SDMMC_INTMASK_EBE != 0 && flags & SCF_CMD_READ == 0 {
        Error::Timeout
    } else {
        Error::Fail
    }
}

/// The response captured for a descriptor: nothing is read when the
/// descriptor expects no response; a long (136-bit) response copies all
/// four registers; a short one copies the first and zeroes the rest.
pub open spec fn captured_response_spec(flags: u32, prev: RespRegs, resp: RespRegs) -> RespRegs {
    if flags & SCF_RSP_PRESENT != 0 {
        if flags & SCF_RSP_136 != 0 {
            resp
        } else {
            RespRegs { r0: resp.r0, r1: 0, r2: 0, r3: 0 }
        }
    } else {
        prev
    }
}

/// Effect of one command-response processing pass on the descriptor model:
/// the response is captured, a command error (classified from the full
/// original snapshot) overwrites the result slot, and the DMA engine is
/// stopped when an error hits a command with a data phase.
pub open spec fn proc_cmd_resp_spec(c: CmdModel, status: u32, resp: RespRegs) -> (CmdModel, bool) {
    let response = captured_response_spec(c.flags, c.response, resp);
    let cl = classify_cmd_error_spec(status, c.flags);
    let err = if cl is Some {
        cl
    } else {
        c.err
    };
    let dma_stop = cl is Some && c.has_data;
    (CmdModel { response, err, ..c }, dma_stop)
}

/// Capture the response registers and classify a command-phase error.
///
/// `status` is the full original snapshot of the event being processed;
/// `resp` holds the controller's response registers at that moment.
/// Returns whether the DMA engine must be stopped.
pub fn process_command_response(cmd: &mut SdmmcCmd, status: u32, resp: RespRegs) -> (dma_stop:
    bool)
    ensures
        final(cmd).model() == proc_cmd_resp_spec(old(cmd).model(), status, resp).0,
        dma_stop == proc_cmd_resp_spec(old(cmd).model(), status, resp).1,
        final(cmd).opcode == old(cmd).opcode,
        final(cmd).arg == old(cmd).arg,
        final(cmd).data == old(cmd).data,
        final(cmd).datalen == old(cmd).datalen,
        final(cmd).buflen == old(cmd).buflen,
        final(cmd).blklen == old(cmd).blklen,
        final(cmd).flags == old(cmd).flags,
        final(cmd).timeout_ms == old(cmd).timeout_ms,
{
    if cmd.has_flag(SCF_RSP_PRESENT) {
        if cmd.has_flag(SCF_RSP_136) {
            cmd.response = [resp.r0, resp.r1, resp.r2, resp.r3];
        } else {
            cmd.response = [resp.r0, 0, 0, 0];
        }
    }
    let classified: Option<Error> = if status & SDMMC_INTMASK_RTO != 0 {
        Some(Error::Timeout)
    } else if cmd.has_flag(SCF_RSP_CRC) && status & SDMMC_INTMASK_RCRC != 0 {
        Some(Error::InvalidCRC)
    } else {
        if status & SDMMC_INTMASK_RESP_ERR != 0 {
            Some(Error::InvalidResponse)
        } else {
            None
        }
    };
    match classified {
        Some(e) => {
            cmd.err = Some(e);
            cmd.data.is_some()
        },
        None => false,
    }
}

/// Effect of one data-status processing pass on the descriptor model: when
/// the original snapshot holds a data-error bit, the classified error
/// overwrites the result slot and the FIFO must be reset; whenever the
/// result slot then holds an error and a data buffer is attached, the DMA
/// engine must be stopped.
pub open spec fn proc_data_spec(c: CmdModel, status: u32) -> (CmdModel, bool, bool) {
    let fired = status & SD_DATA_ERR_MASK != 0;
    let err = if fired {
        Some(classify_data_error_spec(status, c.flags))
    } else {
        c.err
    };
    let dma_stop = err is Some && c.has_data;
    (CmdModel { err, ..c }, fired, dma_stop)
}

/// Classify a data-phase error and record it in the descriptor.
///
/// `status` is the full original snapshot of the event being processed.
/// Returns (FIFO reset needed, DMA stop needed).
pub fn process_data_status(cmd: &mut SdmmcCmd, status: u32) -> (r: (bool, bool))
    ensures
        final(cmd).model() == proc_data_spec(old(cmd).model(), status).0,
        r.0 == proc_data_spec(old(cmd).model(), status).1,
        r.1 == proc_data_spec(old(cmd).model(), status).2,
        final(cmd).opcode == old(cmd).opcode,
        final(cmd).arg == old(cmd).arg,
        final(cmd).data == old(cmd).data,
        final(cmd).datalen == old(cmd).datalen,
        final(cmd).buflen == old(cmd).buflen,
        final(cmd).blklen == old(cmd).blklen,
        final(cmd).flags == old(cmd).flags,
        final(cmd).timeout_ms == old(cmd).timeout_ms,
        final(cmd).response == old(cmd).response,
{
    let fired = status & SD_DATA_ERR_MASK != 0;
    if fired {
        cmd.err = Some(
            if status & SDMMC_INTMASK_DTO != 0 {
                Error::Timeout
            } else if status & SDMMC_INTMASK_DCRC != 0 {
                Error::InvalidCRC
            } else {
                if status & SDMMC_INTMASK_EBE != 0 && !cmd.has_flag(SCF_CMD_READ) {
                    Error::Timeout
                } else {
                    Error::Fail
                }
            },
        );
    }
    let dma_stop = cmd.err.is_some() && cmd.data.is_some();
    (fired, dma_stop)
}

/// Result of a handler pass or of the whole fixed-point run: the state
/// reached, the remaining snapshot, the updated descriptor slice, and the
/// actions requested.
#[derive(Debug, Clone, Copy, PartialEq, Eq, Structural)]
pub struct StepRes {
    pub state: TransState,
    pub ev: Event,
    pub cmd: CmdModel,
    pub out: StepOutcome,
}

/// Rank of a state in the fixed-point loop: every state change moves
/// strictly down in rank, so a pass over the states terminates.
pub open spec fn rank(s: TransState) -> nat {
    match s {
        TransState::Idle => 0,
        TransState::Busy => 1,
        TransState::WaitingVoltageSwitch => 1,
        TransState::SendingData => 2,
        TransState::SendingVoltageSwitch => 2,
        TransState::SendingCmd => 3,
    }
}

/// Union of the actions of two passes.
pub open spec fn or_outcome(a: StepOutcome, b: StepOutcome) -> StepOutcome {
    StepOutcome {
        dma_stop: a.dma_stop || b.dma_stop,
        fifo_reset: a.fifo_reset || b.fifo_reset,
        run_stage2: a.run_stage2 || b.run_stage2,
        run_stage3: a.run_stage3 || b.run_stage3,
        captured_response: a.captured_response || b.captured_response,
    }
}

/// One handler pass of the state machine at state `s`.
///
/// `ev` is the working snapshot (consumed bits already cleared); `orig` is
/// the original controller status of the snapshot being processed, which
/// error classification and the data-phase short-circuit read; `resp` holds
/// the response registers; `stage2_err` is the outcome the physical voltage
/// switch would report.
pub open spec fn handle_spec(
    s: TransState,
    c: CmdModel,
    ev: Event,
    orig: u32,
    resp: RespRegs,
    stage2_err: Option<Error>,
) -> StepRes {
    match s {
        TransState::Idle => StepRes { state: s, ev, cmd: c, out: StepOutcome::none_spec() },
        TransState::SendingCmd => {
            let fired_err = ev.sdmmc_status & SD_CMD_ERR_MASK != 0;
            let ev1 = Event { sdmmc_status: ev.sdmmc_status & !SD_CMD_ERR_MASK, ..ev };
            let c1 = if fired_err {
                proc_cmd_resp_spec(c, orig, resp).0
            } else {
                c
            };
            let ds1 = fired_err && proc_cmd_resp_spec(c, orig, resp).1;
            let fired_done = ev1.sdmmc_status & SDMMC_INTMASK_CMD_DONE != 0;
            let ev2 = Event { sdmmc_status: ev1.sdmmc_status & !SDMMC_INTMASK_CMD_DONE, ..ev1 };
            if fired_done {
                let c2 = proc_cmd_resp_spec(c1, orig, resp).0;
                let ds2 = proc_cmd_resp_spec(c1, orig, resp).1;
                let next = if c2.err is Some || !c2.has_data {
                    TransState::Idle
                } else {
                    TransState::SendingData
                };
                StepRes {
                    state: next,
                    ev: ev2,
                    cmd: c2,
                    out: StepOutcome {
                        dma_stop: ds1 || ds2,
                        fifo_reset: false,
                        run_stage2: false,
                        run_stage3: false,
                        captured_response: true,
                    },
                }
            } else {
                StepRes {
                    state: s,
                    ev: ev2,
                    cmd: c1,
                    out: StepOutcome {
                        dma_stop: ds1,
                        fifo_reset: false,
                        run_stage2: false,
                        run_stage3: false,
                        captured_response: fired_err,
                    },
                }
            }
        },
        TransState::SendingData => {
            let fired_derr = ev.sdmmc_status & SD_DATA_ERR_MASK != 0;
            let ev1 = Event { sdmmc_status: ev.sdmmc_status & !SD_DATA_ERR_MASK, ..ev };
            let c1 = if fired_derr {
                proc_data_spec(c, orig).0
            } else {
                c
            };
            let fifo = fired_derr && proc_data_spec(c, orig).1;
            let fired_dma = ev1.dma_status & SD_DMA_DONE_MASK != 0;
            let ev2 = Event { dma_status: ev1.dma_status & !SD_DMA_DONE_MASK, ..ev1 };
            let next0 = if fired_dma {
                TransState::Busy
            } else {
                s
            };
            let next = if orig & (SDMMC_INTMASK_SBE | SDMMC_INTMASK_DATA_OVER) != 0 {
                TransState::Idle
            } else {
                next0
            };
            StepRes {
                state: next,
                ev: ev2,
                cmd: c1,
                out: StepOutcome {
                    dma_stop: fired_derr,
                    fifo_reset: fifo,
                    run_stage2: false,
                    run_stage3: false,
                    captured_response: false,
                },
            }
        },
        TransState::Busy => {
            let fired_over = ev.sdmmc_status & SDMMC_INTMASK_DATA_OVER != 0;
            let ev1 = Event { sdmmc_status: ev.sdmmc_status & !SDMMC_INTMASK_DATA_OVER, ..ev };
            if fired_over {
                let pd = proc_data_spec(c, orig);
                StepRes {
                    state: TransState::Idle,
                    ev: ev1,
                    cmd: pd.0,
                    out: StepOutcome {
                        dma_stop: pd.2,
                        fifo_reset: pd.1,
                        run_stage2: false,
                        run_stage3: false,
                        captured_response: false,
                    },
                }
            } else {
                StepRes { state: s, ev: ev1, cmd: c, out: StepOutcome::none_spec() }
            }
        },
        TransState::SendingVoltageSwitch => {
            let fired_err = ev.sdmmc_status & SD_CMD_ERR_MASK != 0;
            let ev1 = Event { sdmmc_status: ev.sdmmc_status & !SD_CMD_ERR_MASK, ..ev };
            let c1 = if fired_err {
                proc_cmd_resp_spec(c, orig, resp).0
            } else {
                c
            };
            let ds1 = fired_err && proc_cmd_resp_spec(c, orig, resp).1;
            let next1 = if fired_err {
                TransState::Idle
            } else {
                s
            };
            let fired_vs = ev1.sdmmc_status & SDMMC_INTMASK_VOLT_SW != 0;
            let ev2 = Event { sdmmc_status: ev1.sdmmc_status & !SDMMC_INTMASK_VOLT_SW, ..ev1 };
            if fired_vs {
                let err2 = if c1.err is Some {
                    c1.err
                } else {
                    stage2_err
                };
                let next = if err2 is Some {
                    TransState::Idle
                } else {
                    TransState::WaitingVoltageSwitch
                };
                StepRes {
                    state: next,
                    ev: ev2,
                    cmd: CmdModel { err: err2, ..c1 },
                    out: StepOutcome {
                        dma_stop: ds1,
                        fifo_reset: false,
                        run_stage2: true,
                        run_stage3: false,
                        captured_response: fired_err,
                    },
                }
            } else {
                StepRes {
                    state: next1,
                    ev: ev2,
                    cmd: c1,
                    out: StepOutcome {
                        dma_stop: ds1,
                        fifo_reset: false,
                        run_stage2: false,
                        run_stage3: false,
                        captured_response: fired_err,
                    },
                }
            }
        },
        TransState::WaitingVoltageSwitch => {
            let fired_err = ev.sdmmc_status & SD_CMD_ERR_MASK != 0;
            let ev1 = Event { sdmmc_status: ev.sdmmc_status & !SD_CMD_ERR_MASK, ..ev };
            let c1 = if fired_err {
                proc_cmd_resp_spec(c, orig, resp).0
            } else {
                c
            };
            let ds1 = fired_err && proc_cmd_resp_spec(c, orig, resp).1;
            let next1 = if fired_err {
                TransState::Idle
            } else {
                s
            };
            let fired_vs = ev1.sdmmc_status & SDMMC_INTMASK_VOLT_SW != 0;
            let ev2 = Event { sdmmc_status: ev1.sdmmc_status & !SDMMC_INTMASK_VOLT_SW, ..ev1 };
            if fired_vs {
                StepRes {
                    state: TransState::Idle,
                    ev: ev2,
                    cmd: c1,
                    out: StepOutcome {
                        dma_stop: ds1,
                        fifo_reset: false,
                        run_stage2: false,
                        run_stage3: true,
                        captured_response: fired_err,
                    },
                }
            } else {
                StepRes {
                    state: next1,
                    ev: ev2,
                    cmd: c1,
                    out: StepOutcome {
                        dma_stop: ds1,
                        fifo_reset: false,
                        run_stage2: false,
                        run_stage3: false,
                        captured_response: fired_err,
                    },
                }
            }
        },
    }
}

/// A handler pass moves strictly down in rank whenever it changes state.
pub proof fn lemma_handle_rank(
    s: TransState,
    c: CmdModel,
    ev: Event,
    orig: u32,
    resp: RespRegs,
    stage2_err: Option<Error>,
)
    ensures
        handle_spec(s, c, ev, orig, resp, stage2_err).state != s ==> rank(
            handle_spec(s, c, ev, orig, resp, stage2_err).state,
        ) < rank(s),
{
}

/// The fixed point of the handler: handler passes are applied, each on the
/// snapshot left by the previous one, until a pass keeps the state; one
/// snapshot may satisfy several transitions in sequence.
pub open spec fn run_fixpoint(
    s: TransState,
    c: CmdModel,
    ev: Event,
    orig: u32,
    resp: RespRegs,
    stage2_err: Option<Error>,
) -> StepRes
    decreases rank(s),
{
    let h = handle_spec(s, c, ev, orig, resp, stage2_err);
    if h.state == s {
        h
    } else {
        let rest = run_fixpoint(h.state, h.cmd, h.ev, orig, resp, stage2_err);
        StepRes { out: or_outcome(h.out, rest.out), ..rest }
    }
}


/// One handler pass of the state machine, executable form.
///
/// Consumes this state's trigger bits from `ev`, updates the descriptor,
/// and returns the next state, the remaining snapshot and the actions.
fn handle_one(
    cmd: &mut SdmmcCmd,
    state: TransState,
    ev: Event,
    orig: u32,
    resp: RespRegs,
    stage2_err: Option<Error>,
) -> (r: (TransState, Event, StepOutcome))
    ensures
        ({
            let h = handle_spec(state, old(cmd).model(), ev, orig, resp, stage2_err);
            r.0 == h.state && r.1 == h.ev && final(cmd).model() == h.cmd && r.2 == h.out
        }),
        final(cmd).opcode == old(cmd).opcode,
        final(cmd).arg == old(cmd).arg,
        final(cmd).data == old(cmd).data,
        final(cmd).datalen == old(cmd).datalen,
        final(cmd).buflen == old(cmd).buflen,
        final(cmd).blklen == old(cmd).blklen,
        final(cmd).flags == old(cmd).flags,
        final(cmd).timeout_ms == old(cmd).timeout_ms,
{
    let mut sd: u32 = ev.sdmmc_status;
    let mut dm: u32 = ev.dma_status;
    match state {
        TransState::Idle => (
            state,
            ev,
            StepOutcome {
                dma_stop: false,
                fifo_reset: false,
                run_stage2: false,
                run_stage3: false,
                captured_response: false,
            },
        ),
        TransState::SendingCmd => {
            let fired_err = mask_check_and_clear(&mut sd, SD_CMD_ERR_MASK);
            let mut ds1 = false;
            if fired_err {
                ds1 = process_command_response(cmd, orig, resp);
            }
            let fired_done = mask_check_and_clear(&mut sd, SDMMC_INTMASK_CMD_DONE);
            let ev2 = Event { sdmmc_status: sd, dma_status: dm };
            if fired_done {
                let ds2 = process_command_response(cmd, orig, resp);
                let next = if cmd.err.is_some() || cmd.data.is_none() {
                    TransState::Idle
                } else {
                    TransState::SendingData
                };
                (
                    next,
                    ev2,
                    StepOutcome {
                        dma_stop: ds1 || ds2,
                        fifo_reset: false,
                        run_stage2: false,
                        run_stage3: false,
                        captured_response: true,
                    },
                )
            } else {
                (
                    state,
                    ev2,
                    StepOutcome {
                        dma_stop: ds1,
                        fifo_reset: false,
                        run_stage2: false,
                        run_stage3: false,
                        captured_response: fired_err,
                    },
                )
            }
        },
        TransState::SendingData => {
            let fired_derr = mask_check_and_clear(&mut sd, SD_DATA_ERR_MASK);
            let mut fifo = false;
            if fired_derr {
                let pd = process_data_status(cmd, orig);
                fifo = pd.0;
            }
            let fired_dma = mask_check_and_clear(&mut dm, SD_DMA_DONE_MASK);
            let ev2 = Event { sdmmc_status: sd, dma_status: dm };
            let next0 = if fired_dma {
                TransState::Busy
            } else {
                state
            };
            let next = if orig & (SDMMC_INTMASK_SBE | SDMMC_INTMASK_DATA_OVER) != 0 {
                TransState::Idle
            } else {
                next0
            };
            (
                next,
                ev2,
                StepOutcome {
                    dma_stop: fired_derr,
                    fifo_reset: fifo,
                    run_stage2: false,
                    run_stage3: false,
                    captured_response: false,
                },
            )
        },
        TransState::Busy => {
            let fired_over = mask_check_and_clear(&mut sd, SDMMC_INTMASK_DATA_OVER);
            let ev1 = Event { sdmmc_status: sd, dma_status: dm };
            if fired_over {
                let pd = process_data_status(cmd, orig);
                (
                    TransState::Idle,
                    ev1,
                    StepOutcome {
                        dma_stop: pd.1,
                        fifo_reset: pd.0,
                        run_stage2: false,
                        run_stage3: false,
                        captured_response: false,
                    },
                )
            } else {
                (
                    state,
                    ev1,
                    StepOutcome {
                        dma_stop: false,
                        fifo_reset: false,
                        run_stage2: false,
                        run_stage3: false,
                        captured_response: false,
                    },
                )
            }
        },
        TransState::SendingVoltageSwitch => {
            let fired_err = mask_check_and_clear(&mut sd, SD_CMD_ERR_MASK);
            let mut ds1 = false;
            if fired_err {
                ds1 = process_command_response(cmd, orig, resp);
            }
            let next1 = if fired_err {
                TransState::Idle
            } else {
                state
            };
            let fired_vs = mask_check_and_clear(&mut sd, SDMMC_INTMASK_VOLT_SW);
            let ev2 = Event { sdmmc_status: sd, dma_status: dm };
            if fired_vs {
                if cmd.err.is_none() {
                    cmd.err = stage2_err;
                }
                let next = if cmd.err.is_some() {
                    TransState::Idle
                } else {
                    TransState::WaitingVoltageSwitch
                };
                (
                    next,
                    ev2,
                    StepOutcome {
                        dma_stop: ds1,
                        fifo_reset: false,
                        run_stage2: true,
                        run_stage3: false,
                        captured_response: fired_err,
                    },
                )
            } else {
                (
                    next1,
                    ev2,
                    StepOutcome {
                        dma_stop: ds1,
                        fifo_reset: false,
                        run_stage2: false,
                        run_stage3: false,
                        captured_response: fired_err,
                    },
                )
            }
        },
        TransState::WaitingVoltageSwitch => {
            let fired_err = mask_check_and_clear(&mut sd, SD_CMD_ERR_MASK);
            let mut ds1 = false;
            if fired_err {
                ds1 = process_command_response(cmd, orig, resp);
            }
            let next1 = if fired_err {
                TransState::Idle
            } else {
                state
            };
            let fired_vs = mask_check_and_clear(&mut sd, SDMMC_INTMASK_VOLT_SW);
            let ev2 = Event { sdmmc_status: sd, dma_status: dm };
            if fired_vs {
                (
                    TransState::Idle,
                    ev2,
                    StepOutcome {
                        dma_stop: ds1,
                        fifo_reset: false,
                        run_stage2: false,
                        run_stage3: true,
                        captured_response: fired_err,
                    },
                )
            } else {
                (
                    next1,
                    ev2,
                    StepOutcome {
                        dma_stop: ds1,
                        fifo_reset: false,
                        run_stage2: false,
                        run_stage3: false,
                        captured_response: fired_err,
                    },
                )
            }
        },
    }
}

/// Run handler passes from `state` until one keeps the state, consuming
/// bits from `ev` as the passes visit the states.
fn process_from(
    cmd: &mut SdmmcCmd,
    state: TransState,
    ev: Event,
    orig: u32,
    resp: RespRegs,
    stage2_err: Option<Error>,
) -> (r: (TransState, Event, StepOutcome))
    ensures
        ({
            let fx = run_fixpoint(state, old(cmd).model(), ev, orig, resp, stage2_err);
            r.0 == fx.state && r.1 == fx.ev && final(cmd).model() == fx.cmd && r.2 == fx.out
        }),
        final(cmd).opcode == old(cmd).opcode,
        final(cmd).arg == old(cmd).arg,
        final(cmd).data == old(cmd).data,
        final(cmd).datalen == old(cmd).datalen,
        final(cmd).buflen == old(cmd).buflen,
        final(cmd).blklen == old(cmd).blklen,
        final(cmd).flags == old(cmd).flags,
        final(cmd).timeout_ms == old(cmd).timeout_ms,
    decreases rank(state),
{
    let ghost c0 = cmd.model();
    let (next, ev1, out1) = handle_one(cmd, state, ev, orig, resp, stage2_err);
    if next == state {
        (next, ev1, out1)
    } else {
        proof {
            lemma_handle_rank(state, c0, ev, orig, resp, stage2_err);
        }
        let (fs, fe, out2) = process_from(cmd, next, ev1, orig, resp, stage2_err);
        (
            fs,
            fe,
            StepOutcome {
                dma_stop: out1.dma_stop || out2.dma_stop,
                fifo_reset: out1.fifo_reset || out2.fifo_reset,
                run_stage2: out1.run_stage2 || out2.run_stage2,
                run_stage3: out1.run_stage3 || out2.run_stage3,
                captured_response: out1.captured_response || out2.captured_response,
            },
        )
    }
}

/// Process one already-merged snapshot through the state machine until the
/// fixed point is reached.
///
/// `event` is the merged snapshot (the freshly delivered bits together with
/// everything previously unhandled); classification reads the merged
/// controller status as the original snapshot. On return `pstate` holds the
/// state reached and `unhandled` exactly the bits no state consumed.
pub fn process_events(
    cmd: &mut SdmmcCmd,
    pstate: &mut TransState,
    event: Event,
    unhandled: &mut Event,
    resp: RespRegs,
    stage2_err: Option<Error>,
) -> (out: StepOutcome)
    ensures
        ({
            let fx = run_fixpoint(
                *old(pstate),
                old(cmd).model(),
                event,
                event.sdmmc_status,
                resp,
                stage2_err,
            );
            *final(pstate) == fx.state && *final(unhandled) == fx.ev && final(cmd).model()
                == fx.cmd && out == fx.out
        }),
        final(cmd).opcode == old(cmd).opcode,
        final(cmd).arg == old(cmd).arg,
        final(cmd).data == old(cmd).data,
        final(cmd).datalen == old(cmd).datalen,
        final(cmd).buflen == old(cmd).buflen,
        final(cmd).blklen == old(cmd).blklen,
        final(cmd).flags == old(cmd).flags,
        final(cmd).timeout_ms == old(cmd).timeout_ms,
{
    let (s, e, o) = process_from(cmd, *pstate, event, event.sdmmc_status, resp, stage2_err);
    *pstate = s;
    *unhandled = e;
    o
}

/// Merge a freshly delivered event with the unhandled accumulator and
/// process the merged snapshot; the accumulator is left holding exactly
/// the bits the machine did not consume.
pub fn handle_event(
    cmd: &mut SdmmcCmd,
    pstate: &mut TransState,
    event: Event,
    unhandled: &mut Event,
    resp: RespRegs,
    stage2_err: Option<Error>,
) -> (out: StepOutcome)
    ensures
        ({
            let merged = Event {
                sdmmc_status: event.sdmmc_status | old(unhandled).sdmmc_status,
                dma_status: event.dma_status | old(unhandled).dma_status,
            };
            let fx = run_fixpoint(
                *old(pstate),
                old(cmd).model(),
                merged,
                merged.sdmmc_status,
                resp,
                stage2_err,
            );
            *final(pstate) == fx.state && *final(unhandled) == fx.ev && final(cmd).model()
                == fx.cmd && out == fx.out
        }),
        final(cmd).opcode == old(cmd).opcode,
        final(cmd).arg == old(cmd).arg,
        final(cmd).data == old(cmd).data,
        final(cmd).datalen == old(cmd).datalen,
        final(cmd).buflen == old(cmd).buflen,
        final(cmd).blklen == old(cmd).blklen,
        final(cmd).flags == old(cmd).flags,
        final(cmd).timeout_ms == old(cmd).timeout_ms,
{
    let merged = Event {
        sdmmc_status: event.sdmmc_status | unhandled.sdmmc_status,
        dma_status: event.dma_status | unhandled.dma_status,
    };
    process_events(cmd, pstate, merged, unhandled, resp, stage2_err)
}


/// Merge of two snapshots: the union of their bits.
pub open spec fn merge_event_spec(a: Event, b: Event) -> Event {
    Event {
        sdmmc_status: a.sdmmc_status | b.sdmmc_status,
        dma_status: a.dma_status | b.dma_status,
    }
}

/// The state a freshly submitted command starts in: the voltage-switch
/// opcode enters the voltage-switch leg, everything else the command leg.
pub open spec fn initial_state_spec(opcode: u8) -> TransState {
    if opcode == SD_SWITCH_VOLTAGE {
        TransState::SendingVoltageSwitch
    } else {
        TransState::SendingCmd
    }
}

/// The state a freshly submitted command starts in.
pub fn initial_state(opcode: u8) -> (r: TransState)
    ensures
        r == initial_state_spec(opcode),
{
    if opcode == SD_SWITCH_VOLTAGE {
        TransState::SendingVoltageSwitch
    } else {
        TransState::SendingCmd
    }
}

/// Validate the descriptor's data lengths before anything touches the
/// hardware: a data buffer must come with a nonzero block length that
/// evenly divides the total length; the violation is the size error.
pub fn validate_size(cmd: &SdmmcCmd) -> (r: Result<(), Error>)
    ensures
        r is Ok <==> cmd.data_len_ok(),
        !cmd.data_len_ok() ==> r == Err::<(), Error>(Error::InvalidSize),
{
    match &cmd.data {
        Some(_) => {
            if cmd.blklen == 0 || cmd.datalen % cmd.blklen != 0 {
                Err(Error::InvalidSize)
            } else {
                Ok(())
            }
        },
        None => Ok(()),
    }
}

/// The rejection a submission meets at the controller, if any: no card in
/// the slot (unless the word only updates clock registers), or a write
/// against a write-protected card. `cdetect_n` and `wrtprt` are the
/// card-detect (active low) and write-protect register values.
pub open spec fn start_gate_spec(hw: SdmmcHwCmd, slot: crate::Slot, cdetect_n: u8, wrtprt: u8) -> Option<
    Error,
> {
    if slot.bit_spec() & cdetect_n != 0 && !hw.update_clk_reg {
        Some(Error::NotFound)
    } else if hw.data_expected && !hw.rw && slot.bit_spec() & wrtprt != 0 {
        Some(Error::NotFound)
    } else {
        None
    }
}

/// Gate a command word against the card-detect and write-protect lines and
/// finalize it for submission: the hold register is forced on for every
/// submission (hardware timing requirement), the slot number is stamped in
/// and the start bit is set.
pub fn start_cmd_gate(hw: SdmmcHwCmd, slot: crate::Slot, cdetect_n: u8, wrtprt: u8) -> (r: Result<
    SdmmcHwCmd,
    Error,
>)
    ensures
        ({
            let g = start_gate_spec(hw, slot, cdetect_n, wrtprt);
            match g {
                Some(e) => r == Err::<SdmmcHwCmd, Error>(e),
                None => r == Ok::<SdmmcHwCmd, Error>(
                    SdmmcHwCmd {
                        use_hold_reg: true,
                        card_num: if slot is Slot0 {
                            0u8
                        } else {
                            1u8
                        },
                        start_command: true,
                        ..hw
                    },
                ),
            }
        }),
{
    let bit = slot.bit();
    if bit & cdetect_n != 0 && !hw.update_clk_reg {
        return Err(Error::NotFound);
    }
    if hw.data_expected && !hw.rw && bit & wrtprt != 0 {
        return Err(Error::NotFound);
    }
    Ok(hw.with_use_hold_reg(true).with_card_num(slot.num()).with_start_command(true))
}

/// A buffer after the received bytes are drained into it: the received
/// bytes overwrite its prefix, the tail keeps its old contents.
pub open spec fn drained_spec(buf: Seq<u8>, rec: Seq<u8>) -> Seq<u8> {
    Seq::new(buf.len(), |i: int| if i < rec.len() { rec[i] } else { buf[i] })
}

/// Drain received bytes into a caller's buffer.
pub fn read_received(buf: &mut Vec<u8>, received: &Vec<u8>)
    ensures
        final(buf)@ == drained_spec(old(buf)@, received@),
{
    let n: usize = if received.len() < buf.len() {
        received.len()
    } else {
        buf.len()
    };
    let mut i: usize = 0;
    while i < n
        invariant
            i <= n,
            n <= received@.len(),
            n <= buf@.len(),
            n == (if received@.len() < buf@.len() {
                received@.len()
            } else {
                buf@.len()
            }),
            buf@.len() == old(buf)@.len(),
            forall|j: int| 0 <= j < i ==> buf@[j] == received@[j],
            forall|j: int| i <= j < buf@.len() ==> buf@[j] == old(buf)@[j],
        decreases n - i,
    {
        let v = received[i];
        buf.set(i, v);
        i = i + 1;
    }
    proof {
        assert(buf@ =~= drained_spec(old(buf)@, received@));
    }
}

/// Result of driving a transaction over a sequence of snapshots: whether
/// the machine reached the terminal state before the snapshots ran out,
/// the state and descriptor slice reached, the bits left unhandled, and
/// the union of the actions requested along the way.
#[derive(Debug, Clone, Copy, PartialEq, Eq, Structural)]
pub struct RunRes {
    pub completed: bool,
    pub state: TransState,
    pub cmd: CmdModel,
    pub unhandled: Event,
    pub out: StepOutcome,
}

/// Fold of the state machine over a sequence of event snapshots: each
/// snapshot is merged with the unhandled bits and processed to its fixed
/// point, until the terminal state is reached or the snapshots run out.
pub open spec fn run_events_spec(
    s: TransState,
    c: CmdModel,
    u: Event,
    events: Seq<Event>,
    resp: RespRegs,
    stage2_err: Option<Error>,
) -> RunRes
    decreases events.len(),
{
    if s == TransState::Idle {
        RunRes { completed: true, state: s, cmd: c, unhandled: u, out: StepOutcome::none_spec() }
    } else if events.len() == 0 {
        RunRes { completed: false, state: s, cmd: c, unhandled: u, out: StepOutcome::none_spec() }
    } else {
        let merged = merge_event_spec(events[0], u);
        let fx = run_fixpoint(s, c, merged, merged.sdmmc_status, resp, stage2_err);
        let rest = run_events_spec(fx.state, fx.cmd, fx.ev, events.skip(1), resp, stage2_err);
        RunRes { out: or_outcome(fx.out, rest.out), ..rest }
    }
}

/// Drive the state machine over recorded event snapshots, starting at
/// index `i`, until the terminal state or the end of the recording.
fn run_events(
    cmd: &mut SdmmcCmd,
    state: TransState,
    u: Event,
    events: &Vec<Event>,
    i: usize,
    resp: RespRegs,
    stage2_err: Option<Error>,
) -> (r: (bool, TransState, Event, StepOutcome))
    requires
        i <= events@.len(),
    ensures
        ({
            let rr = run_events_spec(
                state,
                old(cmd).model(),
                u,
                events@.skip(i as int),
                resp,
                stage2_err,
            );
            r.0 == rr.completed && r.1 == rr.state && r.2 == rr.unhandled && final(cmd).model()
                == rr.cmd && r.3 == rr.out
        }),
        final(cmd).opcode == old(cmd).opcode,
        final(cmd).arg == old(cmd).arg,
        final(cmd).data == old(cmd).data,
        final(cmd).datalen == old(cmd).datalen,
        final(cmd).buflen == old(cmd).buflen,
        final(cmd).blklen == old(cmd).blklen,
        final(cmd).flags == old(cmd).flags,
        final(cmd).timeout_ms == old(cmd).timeout_ms,
    decreases events@.len() - i,
{
    if state == TransState::Idle {
        return (
            true,
            state,
            u,
            StepOutcome {
                dma_stop: false,
                fifo_reset: false,
                run_stage2: false,
                run_stage3: false,
                captured_response: false,
            },
        );
    }
    if i == events.len() {
        return (
            false,
            state,
            u,
            StepOutcome {
                dma_stop: false,
                fifo_reset: false,
                run_stage2: false,
                run_stage3: false,
                captured_response: false,
            },
        );
    }
    let ev = *vstd::slice::slice_index_get(events.as_slice(), i);
    let mut st = state;
    let mut uh = u;
    let o1 = handle_event(cmd, &mut st, ev, &mut uh, resp, stage2_err);
    proof {
        assert(events@.skip(i as int)[0] == events@[i as int]);
        assert(events@.skip(i as int).skip(1) =~= events@.skip(i as int + 1));
    }
    let rest = run_events(cmd, st, uh, events, i + 1, resp, stage2_err);
    (
        rest.0,
        rest.1,
        rest.2,
        StepOutcome {
            dma_stop: o1.dma_stop || rest.3.dma_stop,
            fifo_reset: o1.fifo_reset || rest.3.fifo_reset,
            run_stage2: o1.run_stage2 || rest.3.run_stage2,
            run_stage3: o1.run_stage3 || rest.3.run_stage3,
            captured_response: o1.captured_response || rest.3.captured_response,
        },
    )
}


/// Drive one full transaction over recorded inputs: validate the
/// descriptor's sizes, gate against the card-detect and write-protect
/// lines, run the state machine over the event snapshots, apply the
/// post-command busy wait, and drain the received bytes into the
/// descriptor's buffer.
///
/// The hardware's contributions arrive as arguments: the event snapshots
/// in delivery order, the response registers, the outcome the physical
/// voltage switch would report, whether the card-busy line cleared within
/// the descriptor's timeout, and the bytes the DMA engine delivered.
/// A size violation is rejected with the size error before anything else
/// is touched; a gate rejection leaves the descriptor untouched; running
/// out of snapshots before the terminal state, or a busy line that never
/// cleared, is the timeout error. The protocol outcome of the command
/// itself is recorded in the descriptor's result slot.
pub fn run_transaction(
    cmd: &mut SdmmcCmd,
    slot: crate::Slot,
    cdetect_n: u8,
    wrtprt: u8,
    events: &Vec<Event>,
    resp: RespRegs,
    stage2_err: Option<Error>,
    busy_cleared: bool,
    received: &Vec<u8>,
) -> (r: Result<StepOutcome, Error>)
    ensures
        !old(cmd).data_len_ok() ==> r == Err::<StepOutcome, Error>(Error::InvalidSize) && *final(cmd) == *old(cmd),
        old(cmd).data_len_ok() && start_gate_spec(
            old(cmd).hw_cmd_spec(),
            slot,
            cdetect_n,
            wrtprt,
        ) is Some ==> r == Err::<StepOutcome, Error>(
            start_gate_spec(old(cmd).hw_cmd_spec(), slot, cdetect_n, wrtprt)->Some_0,
        ) && *final(cmd) == *old(cmd),
        old(cmd).data_len_ok() && start_gate_spec(
            old(cmd).hw_cmd_spec(),
            slot,
            cdetect_n,
            wrtprt,
        ) is None ==> ({
            let rr = run_events_spec(
                initial_state_spec(old(cmd).opcode),
                CmdModel { err: None, ..old(cmd).model() },
                Event { sdmmc_status: 0, dma_status: 0 },
                events@,
                resp,
                stage2_err,
            );
            let busy_ok = old(cmd).flags & SCF_WAIT_BUSY == 0 || busy_cleared;
            (r is Ok <==> rr.completed && busy_ok) && (r is Err ==> r->Err_0 == Error::Timeout) && (
            r is Ok ==> r->Ok_0 == rr.out) && final(cmd).err == rr.cmd.err && final(cmd).model().response == rr.cmd.response && (old(cmd).data is Some ==> final(cmd).data is Some && final(cmd).data->0@ == drained_spec(
                old(cmd).data->0@,
                received@,
            )) && (old(cmd).data is None ==> final(cmd).data is None) && final(cmd).opcode == old(cmd).opcode && final(cmd).arg == old(cmd).arg && final(cmd).datalen == old(cmd).datalen
                && final(cmd).buflen == old(cmd).buflen && final(cmd).blklen == old(cmd).blklen
                && final(cmd).flags == old(cmd).flags && final(cmd).timeout_ms == old(cmd).timeout_ms
        }),
{
    match validate_size(cmd) {
        Err(e) => {
            return Err(e);
        },
        Ok(_) => {},
    }
    let hw = cmd.make_hw_cmd();
    match start_cmd_gate(hw, slot, cdetect_n, wrtprt) {
        Err(e) => {
            return Err(e);
        },
        Ok(_latched) => {},
    }
    cmd.err = None;
    let st0 = initial_state(cmd.opcode);
    proof {
        assert(events@.skip(0) =~= events@);
    }
    let rr = run_events(
        cmd,
        st0,
        Event { sdmmc_status: 0, dma_status: 0 },
        events,
        0,
        resp,
        stage2_err,
    );
    let completed = rr.0;
    let out = rr.3;
    let mut ret: Result<StepOutcome, Error> = if completed {
        Ok(out)
    } else {
        Err(Error::Timeout)
    };
    if completed && cmd.has_flag(SCF_WAIT_BUSY) && !busy_cleared {
        ret = Err(Error::Timeout);
    }
    // the DMA engine may have delivered bytes even when the transaction
    // failed, so the drain happens on the timeout path as well
    let mut data: Option<Vec<u8>> = None;
    core::mem::swap(&mut data, &mut cmd.data);
    match data {
        Some(mut buf) => {
            read_received(&mut buf, received);
            cmd.data = Some(buf);
        },
        None => {},
    }
    ret
}


proof fn lemma_bits_self_disjoint(x: u32)
    by (bit_vector)
    ensures
        x & !x == 0,
{
}

proof fn lemma_bits_clear_absent(x: u32, m: u32)
    by (bit_vector)
    requires
        x & m == 0,
    ensures
        x & !m == x,
{
}

proof fn lemma_bits_cleared_disjoint(x: u32, m: u32)
    by (bit_vector)
    ensures
        (x & !m) & m == 0,
{
}

proof fn lemma_bits_subset_after_clear(x: u32, orig: u32, m: u32)
    by (bit_vector)
    requires
        x & !orig == 0,
    ensures
        (x & !m) & !orig == 0,
{
}

proof fn lemma_bits_absent_in_subset(x: u32, orig: u32, m: u32)
    by (bit_vector)
    requires
        x & !orig == 0,
        orig & m == 0,
    ensures
        x & m == 0,
{
}

proof fn lemma_bits_double_clear(x: u32, a: u32, b: u32)
    by (bit_vector)
    ensures
        ((x & !a) & !b) & (a | b) == 0,
{
}

proof fn lemma_bits_split_union(x: u32, a: u32, b: u32)
    by (bit_vector)
    requires
        x & (a | b) == 0,
    ensures
        x & a == 0,
        x & b == 0,
{
}

proof fn lemma_bits_join(x: u32, a: u32, b: u32)
    by (bit_vector)
    requires
        x & a == 0,
        x & b == 0,
    ensures
        x & (a | b) == 0,
{
}

proof fn lemma_bits_clear_keeps_absent(x: u32, a: u32, m: u32)
    by (bit_vector)
    requires
        x & m == 0,
    ensures
        (x & !a) & m == 0,
{
}

proof fn lemma_bits_mask_subset(x: u32, m1: u32, m2: u32)
    by (bit_vector)
    requires
        x & m1 == 0,
        m2 & !m1 == 0,
    ensures
        x & m2 == 0,
{
}

proof fn lemma_bits_preserved_outside(x: u32, a: u32, b: u32, m: u32)
    by (bit_vector)
    requires
        m & (a | b) == 0,
    ensures
        ((x & !a) & !b) & m == x & m,
{
}

/// A snapshot is quiescent for a state when it holds none of the bits that
/// state consumes or reacts to: a pass of the handler from such a pair
/// changes nothing.
pub open spec fn quiescent(s: TransState, ev: Event) -> bool {
    match s {
        TransState::Idle => true,
        TransState::SendingCmd => ev.sdmmc_status & (SD_CMD_ERR_MASK | SDMMC_INTMASK_CMD_DONE)
            == 0,
        TransState::SendingData => ev.sdmmc_status & (SD_DATA_ERR_MASK | SDMMC_INTMASK_DATA_OVER)
            == 0 && ev.dma_status & SD_DMA_DONE_MASK == 0,
        TransState::Busy => ev.sdmmc_status & SDMMC_INTMASK_DATA_OVER == 0,
        TransState::SendingVoltageSwitch => ev.sdmmc_status & (SD_CMD_ERR_MASK
            | SDMMC_INTMASK_VOLT_SW) == 0,
        TransState::WaitingVoltageSwitch => ev.sdmmc_status & (SD_CMD_ERR_MASK
            | SDMMC_INTMASK_VOLT_SW) == 0,
    }
}

/// The fixed point always stops in a quiescent pair: the state reached
/// holds none of its own trigger bits in the leftover snapshot, and the
/// leftover stays within the original snapshot.
proof fn lemma_fixpoint_quiescent(
    s: TransState,
    c: CmdModel,
    ev: Event,
    orig: u32,
    resp: RespRegs,
    stage2_err: Option<Error>,
)
    requires
        ev.sdmmc_status & !orig == 0,
    ensures
        ({
            let fx = run_fixpoint(s, c, ev, orig, resp, stage2_err);
            quiescent(fx.state, fx.ev) && fx.ev.sdmmc_status & !orig == 0
        }),
    decreases rank(s),
{
    let h = handle_spec(s, c, ev, orig, resp, stage2_err);
    if h.state == s {
        match s {
            TransState::Idle => {},
            TransState::SendingCmd => {
                lemma_bits_double_clear(
                    ev.sdmmc_status,
                    SD_CMD_ERR_MASK,
                    SDMMC_INTMASK_CMD_DONE,
                );
                lemma_bits_subset_after_clear(ev.sdmmc_status, orig, SD_CMD_ERR_MASK);
                lemma_bits_subset_after_clear(
                    ev.sdmmc_status & !SD_CMD_ERR_MASK,
                    orig,
                    SDMMC_INTMASK_CMD_DONE,
                );
            },
            TransState::SendingData => {
                // staying in this state means the short-circuit did not
                // fire, so the original snapshot holds no transfer-over bit
                lemma_bits_split_union(orig, SDMMC_INTMASK_SBE, SDMMC_INTMASK_DATA_OVER);
                lemma_bits_cleared_disjoint(ev.sdmmc_status, SD_DATA_ERR_MASK);
                lemma_bits_absent_in_subset(ev.sdmmc_status, orig, SDMMC_INTMASK_DATA_OVER);
                lemma_bits_clear_keeps_absent(
                    ev.sdmmc_status,
                    SD_DATA_ERR_MASK,
                    SDMMC_INTMASK_DATA_OVER,
                );
                lemma_bits_join(
                    ev.sdmmc_status & !SD_DATA_ERR_MASK,
                    SD_DATA_ERR_MASK,
                    SDMMC_INTMASK_DATA_OVER,
                );
                lemma_bits_cleared_disjoint(ev.dma_status, SD_DMA_DONE_MASK);
                lemma_bits_subset_after_clear(ev.sdmmc_status, orig, SD_DATA_ERR_MASK);
            },
            TransState::Busy => {
                lemma_bits_cleared_disjoint(ev.sdmmc_status, SDMMC_INTMASK_DATA_OVER);
                lemma_bits_subset_after_clear(ev.sdmmc_status, orig, SDMMC_INTMASK_DATA_OVER);
            },
            TransState::SendingVoltageSwitch => {
                lemma_bits_double_clear(ev.sdmmc_status, SD_CMD_ERR_MASK, SDMMC_INTMASK_VOLT_SW);
                lemma_bits_subset_after_clear(ev.sdmmc_status, orig, SD_CMD_ERR_MASK);
                lemma_bits_subset_after_clear(
                    ev.sdmmc_status & !SD_CMD_ERR_MASK,
                    orig,
                    SDMMC_INTMASK_VOLT_SW,
                );
            },
            TransState::WaitingVoltageSwitch => {
                lemma_bits_double_clear(ev.sdmmc_status, SD_CMD_ERR_MASK, SDMMC_INTMASK_VOLT_SW);
                lemma_bits_subset_after_clear(ev.sdmmc_status, orig, SD_CMD_ERR_MASK);
                lemma_bits_subset_after_clear(
                    ev.sdmmc_status & !SD_CMD_ERR_MASK,
                    orig,
                    SDMMC_INTMASK_VOLT_SW,
                );
            },
        }
    } else {
        assert(h.ev.sdmmc_status & !orig == 0) by {
            match s {
                TransState::Idle => {},
                TransState::SendingCmd => {
                    lemma_bits_subset_after_clear(ev.sdmmc_status, orig, SD_CMD_ERR_MASK);
                    lemma_bits_subset_after_clear(
                        ev.sdmmc_status & !SD_CMD_ERR_MASK,
                        orig,
                        SDMMC_INTMASK_CMD_DONE,
                    );
                },
                TransState::SendingData => {
                    lemma_bits_subset_after_clear(ev.sdmmc_status, orig, SD_DATA_ERR_MASK);
                },
                TransState::Busy => {
                    lemma_bits_subset_after_clear(ev.sdmmc_status, orig, SDMMC_INTMASK_DATA_OVER);
                },
                TransState::SendingVoltageSwitch => {
                    lemma_bits_subset_after_clear(ev.sdmmc_status, orig, SD_CMD_ERR_MASK);
                    lemma_bits_subset_after_clear(
                        ev.sdmmc_status & !SD_CMD_ERR_MASK,
                        orig,
                        SDMMC_INTMASK_VOLT_SW,
                    );
                },
                TransState::WaitingVoltageSwitch => {
                    lemma_bits_subset_after_clear(ev.sdmmc_status, orig, SD_CMD_ERR_MASK);
                    lemma_bits_subset_after_clear(
                        ev.sdmmc_status & !SD_CMD_ERR_MASK,
                        orig,
                        SDMMC_INTMASK_VOLT_SW,
                    );
                },
            }
        }
        lemma_handle_rank(s, c, ev, orig, resp, stage2_err);
        lemma_fixpoint_quiescent(h.state, h.cmd, h.ev, orig, resp, stage2_err);
    }
}

/// From a quiescent pair, a handler pass is the identity: same state, same
/// snapshot, untouched descriptor, no response capture, no actions.
proof fn lemma_quiescent_handle_identity(
    s: TransState,
    c: CmdModel,
    ev: Event,
    resp: RespRegs,
    stage2_err: Option<Error>,
)
    requires
        quiescent(s, ev),
    ensures
        handle_spec(s, c, ev, ev.sdmmc_status, resp, stage2_err) == (StepRes {
            state: s,
            ev,
            cmd: c,
            out: StepOutcome::none_spec(),
        }),
{
    match s {
        TransState::Idle => {},
        TransState::SendingCmd => {
            lemma_bits_split_union(ev.sdmmc_status, SD_CMD_ERR_MASK, SDMMC_INTMASK_CMD_DONE);
            lemma_bits_clear_absent(ev.sdmmc_status, SD_CMD_ERR_MASK);
            lemma_bits_clear_absent(ev.sdmmc_status, SDMMC_INTMASK_CMD_DONE);
        },
        TransState::SendingData => {
            lemma_bits_split_union(
                ev.sdmmc_status,
                SD_DATA_ERR_MASK,
                SDMMC_INTMASK_DATA_OVER,
            );
            lemma_bits_clear_absent(ev.sdmmc_status, SD_DATA_ERR_MASK);
            lemma_bits_clear_absent(ev.dma_status, SD_DMA_DONE_MASK);
            // the short-circuit reads the start-bit-error and transfer-over
            // bits of the original snapshot, both absent here
            assert(ev.sdmmc_status & (SDMMC_INTMASK_SBE | SDMMC_INTMASK_DATA_OVER) == 0) by {
                assert((SDMMC_INTMASK_SBE | SDMMC_INTMASK_DATA_OVER) & !(SD_DATA_ERR_MASK
                    | SDMMC_INTMASK_DATA_OVER) == 0) by (bit_vector);
                lemma_bits_mask_subset(
                    ev.sdmmc_status,
                    SD_DATA_ERR_MASK | SDMMC_INTMASK_DATA_OVER,
                    SDMMC_INTMASK_SBE | SDMMC_INTMASK_DATA_OVER,
                );
            }
        },
        TransState::Busy => {
            lemma_bits_clear_absent(ev.sdmmc_status, SDMMC_INTMASK_DATA_OVER);
        },
        TransState::SendingVoltageSwitch => {
            lemma_bits_split_union(ev.sdmmc_status, SD_CMD_ERR_MASK, SDMMC_INTMASK_VOLT_SW);
            lemma_bits_clear_absent(ev.sdmmc_status, SD_CMD_ERR_MASK);
            lemma_bits_clear_absent(ev.sdmmc_status, SDMMC_INTMASK_VOLT_SW);
        },
        TransState::WaitingVoltageSwitch => {
            lemma_bits_split_union(ev.sdmmc_status, SD_CMD_ERR_MASK, SDMMC_INTMASK_VOLT_SW);
            lemma_bits_clear_absent(ev.sdmmc_status, SD_CMD_ERR_MASK);
            lemma_bits_clear_absent(ev.sdmmc_status, SDMMC_INTMASK_VOLT_SW);
        },
    }
}

/// Idempotence of event processing: after a snapshot has been processed to
/// its fixed point, processing the leftover bits again (the same snapshot,
/// with the consumed bits already cleared) is a no-op: the state, the
/// leftover and the descriptor stay as they are, no action is requested
/// and no response is captured a second time.
pub proof fn lemma_second_pass_no_op(
    s: TransState,
    c: CmdModel,
    ev: Event,
    resp: RespRegs,
    stage2_err: Option<Error>,
)
    ensures
        ({
            let fx = run_fixpoint(s, c, ev, ev.sdmmc_status, resp, stage2_err);
            let fx2 = run_fixpoint(
                fx.state,
                fx.cmd,
                fx.ev,
                fx.ev.sdmmc_status,
                resp,
                stage2_err,
            );
            fx2.state == fx.state && fx2.ev == fx.ev && fx2.cmd == fx.cmd && fx2.out
                == StepOutcome::none_spec()
        }),
{
    lemma_bits_self_disjoint(ev.sdmmc_status);
    lemma_fixpoint_quiescent(s, c, ev, ev.sdmmc_status, resp, stage2_err);
    let fx = run_fixpoint(s, c, ev, ev.sdmmc_status, resp, stage2_err);
    lemma_quiescent_handle_identity(fx.state, fx.cmd, fx.ev, resp, stage2_err);
}


/// Carry-forward of unconsumed bits, first half: while a command is still
/// being sent and its completion bit has not arrived, a snapshot may carry
/// data-phase error bits (and DMA bits) that belong to a later state; the
/// fixed point leaves every one of them in the leftover snapshot, whatever
/// command-error bits the snapshot also carried.
pub proof fn lemma_data_error_retained(
    c: CmdModel,
    ev: Event,
    resp: RespRegs,
    stage2_err: Option<Error>,
)
    requires
        ev.sdmmc_status & SDMMC_INTMASK_CMD_DONE == 0,
    ensures
        ({
            let fx = run_fixpoint(TransState::SendingCmd, c, ev, ev.sdmmc_status, resp, stage2_err);
            fx.state == TransState::SendingCmd && fx.ev.sdmmc_status & SD_DATA_ERR_MASK
                == ev.sdmmc_status & SD_DATA_ERR_MASK && fx.ev.dma_status == ev.dma_status
        }),
{
    lemma_bits_clear_keeps_absent(ev.sdmmc_status, SD_CMD_ERR_MASK, SDMMC_INTMASK_CMD_DONE);
    assert(SD_DATA_ERR_MASK & (SD_CMD_ERR_MASK | SDMMC_INTMASK_CMD_DONE) == 0) by (bit_vector);
    lemma_bits_preserved_outside(
        ev.sdmmc_status,
        SD_CMD_ERR_MASK,
        SDMMC_INTMASK_CMD_DONE,
        SD_DATA_ERR_MASK,
    );
}

/// Carry-forward of unconsumed bits, second half: when the completion
/// event arrives with a retained data-error bit merged in, the machine
/// moves through the data phase and the bit is consumed there: the error
/// it encodes is classified into the result slot, the FIFO is reset and
/// the DMA engine is stopped. (When the command phase itself had recorded
/// an error, the machine instead completes without a data phase, by the
/// transition table.)
pub proof fn lemma_data_error_reprocessed(
    c: CmdModel,
    ev: Event,
    resp: RespRegs,
    stage2_err: Option<Error>,
)
    requires
        c.err is None,
        c.has_data,
        ev.sdmmc_status & SD_CMD_ERR_MASK == 0,
        ev.sdmmc_status & SDMMC_INTMASK_CMD_DONE != 0,
        ev.sdmmc_status & SD_DATA_ERR_MASK != 0,
        ev.dma_status & SD_DMA_DONE_MASK == 0,
        ev.sdmmc_status & SDMMC_INTMASK_DATA_OVER == 0,
    ensures
        ({
            let fx = run_fixpoint(TransState::SendingCmd, c, ev, ev.sdmmc_status, resp, stage2_err);
            fx.cmd.err == Some(classify_data_error_spec(ev.sdmmc_status, c.flags)) && fx.out.dma_stop
                && fx.out.fifo_reset
        }),
{
    let orig = ev.sdmmc_status;
    // no command-error bit is set, so the command-phase classification is
    // empty and the machine enters the data phase
    assert(orig & SDMMC_INTMASK_RTO == 0 && orig & SDMMC_INTMASK_RCRC == 0 && orig
        & SDMMC_INTMASK_RESP_ERR == 0) by (bit_vector)
        requires
            orig & SD_CMD_ERR_MASK == 0,
    ;
    lemma_bits_clear_absent(ev.sdmmc_status, SD_CMD_ERR_MASK);
    assert(SD_DATA_ERR_MASK & (SD_CMD_ERR_MASK | SDMMC_INTMASK_CMD_DONE) == 0) by (bit_vector);
    lemma_bits_preserved_outside(
        ev.sdmmc_status,
        SD_CMD_ERR_MASK,
        SDMMC_INTMASK_CMD_DONE,
        SD_DATA_ERR_MASK,
    );
    let h1 = handle_spec(TransState::SendingCmd, c, ev, orig, resp, stage2_err);
    assert(h1.state == TransState::SendingData);
    assert(h1.ev.sdmmc_status & SD_DATA_ERR_MASK == ev.sdmmc_status & SD_DATA_ERR_MASK);
    assert(h1.cmd.err is None && h1.cmd.has_data && h1.cmd.flags == c.flags);
    let h2 = handle_spec(TransState::SendingData, h1.cmd, h1.ev, orig, resp, stage2_err);
    assert(h2.cmd.err == Some(classify_data_error_spec(orig, c.flags)));
    assert(h2.out.dma_stop && h2.out.fifo_reset);
    let fx = run_fixpoint(TransState::SendingCmd, c, ev, orig, resp, stage2_err);
    reveal_with_fuel(run_fixpoint, 4);
    if h2.state == TransState::SendingData {
        assert(fx.cmd == h2.cmd && fx.out.dma_stop && fx.out.fifo_reset);
    } else {
        assert(h2.state == TransState::Idle);
        let h3 = handle_spec(TransState::Idle, h2.cmd, h2.ev, orig, resp, stage2_err);
        assert(h3.cmd == h2.cmd);
        assert(fx.cmd == h2.cmd && fx.out.dma_stop && fx.out.fifo_reset);
    }
}

} // verus!
