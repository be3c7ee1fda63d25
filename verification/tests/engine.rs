use sdmmc_host::cmd::SdmmcCmd;
use sdmmc_host::engine::handle_event;
use sdmmc_host::engine::initial_state;
use sdmmc_host::engine::mask_check_and_clear;
use sdmmc_host::engine::run_transaction;
use sdmmc_host::engine::start_cmd_gate;
use sdmmc_host::engine::validate_size;
use sdmmc_host::engine::RespRegs;
use sdmmc_host::engine::TransState;
use sdmmc_host::flags::MMC_GO_IDLE_STATE;
use sdmmc_host::flags::MMC_READ_BLOCK_SINGLE;
use sdmmc_host::flags::MMC_WRITE_BLOCK_SINGLE;
use sdmmc_host::flags::SCF_CMD_READ;
use sdmmc_host::flags::SCF_RSP_R0;
use sdmmc_host::flags::SCF_RSP_R1;
use sdmmc_host::flags::SCF_WAIT_BUSY;
use sdmmc_host::flags::SD_SWITCH_VOLTAGE;
use sdmmc_host::hw_cmd::clk_update_word;
use sdmmc_host::Error;
use sdmmc_host::Event;
use sdmmc_host::Slot;

const CMD_DONE: u32 = 0x4;
const RTO: u32 = 0x100;
const RCRC: u32 = 0x40;
const RESP_ERR: u32 = 0x2;
const DTO: u32 = 0x200;
const DCRC: u32 = 0x80;
const EBE: u32 = 0x8000;
const DATA_OVER: u32 = 0x8;
const VOLT_SW: u32 = 0x400;
const DMA_RI: u32 = 0x2;

fn resp(r0: u32) -> RespRegs {
    RespRegs { r0, r1: 0, r2: 0, r3: 0 }
}

fn no_event() -> Event {
    Event { sdmmc_status: 0, dma_status: 0 }
}

fn ev(sdmmc: u32) -> Event {
    Event { sdmmc_status: sdmmc, dma_status: 0 }
}

fn read_single_512() -> SdmmcCmd {
    SdmmcCmd {
        opcode: MMC_READ_BLOCK_SINGLE,
        flags: SCF_RSP_R1 | SCF_CMD_READ,
        data: Some(vec![0u8; 512]),
        datalen: 512,
        buflen: 512,
        blklen: 512,
        ..Default::default()
    }
}

#[test]
fn mask_check_clears_and_reports() {
    let mut s: u32 = 0x0146;
    assert!(mask_check_and_clear(&mut s, 0x0142));
    assert_eq!(s, 0x4);
    assert!(!mask_check_and_clear(&mut s, 0x0142));
    assert_eq!(s, 0x4);
}

#[test]
fn initial_state_depends_on_opcode() {
    assert_eq!(initial_state(SD_SWITCH_VOLTAGE), TransState::SendingVoltageSwitch);
    assert_eq!(initial_state(MMC_GO_IDLE_STATE), TransState::SendingCmd);
    assert_eq!(initial_state(MMC_READ_BLOCK_SINGLE), TransState::SendingCmd);
}

#[test]
fn size_mismatch_is_rejected_before_anything_happens() {
    let mut cmd = SdmmcCmd {
        opcode: MMC_READ_BLOCK_SINGLE,
        flags: SCF_RSP_R1 | SCF_CMD_READ,
        data: Some(vec![0u8; 100]),
        datalen: 100,
        buflen: 100,
        blklen: 512,
        ..Default::default()
    };
    let events = vec![ev(CMD_DONE)];
    let rec: Vec<u8> = vec![0xAB; 100];
    let r = run_transaction(&mut cmd, Slot::Slot1, 0, 0, &events, resp(0), None, true, &rec);
    assert_eq!(r, Err(Error::InvalidSize));
    // no observable side effect: the descriptor is exactly as built
    assert!(cmd.err.is_none());
    assert_eq!(cmd.response, [0u32; 4]);
    assert_eq!(cmd.data.as_ref().unwrap(), &vec![0u8; 100]);
}

#[test]
fn zero_block_length_with_data_is_a_size_error() {
    let cmd = SdmmcCmd {
        data: Some(vec![0u8; 8]),
        datalen: 8,
        blklen: 0,
        ..Default::default()
    };
    assert_eq!(validate_size(&cmd), Err(Error::InvalidSize));
    let ok = SdmmcCmd { data: None, blklen: 0, ..Default::default() };
    assert_eq!(validate_size(&ok), Ok(()));
}

#[test]
fn missing_card_is_rejected_as_not_found() {
    let mut cmd = read_single_512();
    let events = vec![ev(CMD_DONE)];
    let rec: Vec<u8> = Vec::new();
    // card-detect is active low: a set bit means no card in that slot
    let r = run_transaction(&mut cmd, Slot::Slot1, 0b10, 0, &events, resp(0), None, true, &rec);
    assert_eq!(r, Err(Error::NotFound));
    assert!(cmd.err.is_none());
}

#[test]
fn clock_update_words_bypass_the_card_detect_gate() {
    let w = clk_update_word(Slot::Slot1, false);
    let gated = start_cmd_gate(w, Slot::Slot1, 0b10, 0);
    let latched = gated.unwrap();
    assert!(latched.use_hold_reg);
    assert!(latched.start_command);
    assert_eq!(latched.card_num, 1);
}

#[test]
fn write_against_write_protect_is_not_found() {
    let mut cmd = SdmmcCmd {
        opcode: MMC_WRITE_BLOCK_SINGLE,
        flags: SCF_RSP_R1,
        data: Some(vec![0u8; 512]),
        datalen: 512,
        buflen: 512,
        blklen: 512,
        ..Default::default()
    };
    let events = vec![ev(CMD_DONE)];
    let rec: Vec<u8> = Vec::new();
    let r = run_transaction(&mut cmd, Slot::Slot1, 0, 0b10, &events, resp(0), None, true, &rec);
    assert_eq!(r, Err(Error::NotFound));
}

#[test]
fn reads_pass_the_write_protect_gate() {
    let mut cmd = read_single_512();
    let events = vec![ev(CMD_DONE), Event { sdmmc_status: 0, dma_status: DMA_RI }, ev(DATA_OVER)];
    let rec: Vec<u8> = vec![0x5A; 512];
    let r = run_transaction(&mut cmd, Slot::Slot1, 0, 0b10, &events, resp(0x900), None, true, &rec);
    assert!(r.is_ok());
}

#[test]
fn go_idle_completes_on_the_first_command_done() {
    // "go idle state": opcode 0, no response, no data
    let mut cmd = SdmmcCmd { opcode: MMC_GO_IDLE_STATE, flags: SCF_RSP_R0, ..Default::default() };
    let events = vec![ev(CMD_DONE)];
    let rec: Vec<u8> = Vec::new();
    let r = run_transaction(
        &mut cmd,
        Slot::Slot1,
        0,
        0,
        &events,
        resp(0xDEAD_BEEF),
        None,
        true,
        &rec,
    );
    let out = r.unwrap();
    assert!(cmd.err.is_none());
    // no response registers are read for a response-less command
    assert_eq!(cmd.response, [0u32; 4]);
    assert!(!out.dma_stop);
    assert!(!out.run_stage2);
}

#[test]
fn go_idle_state_trace_is_one_step() {
    let mut cmd = SdmmcCmd { opcode: MMC_GO_IDLE_STATE, flags: SCF_RSP_R0, ..Default::default() };
    let mut state = initial_state(cmd.opcode);
    assert_eq!(state, TransState::SendingCmd);
    let mut unhandled = no_event();
    handle_event(&mut cmd, &mut state, ev(CMD_DONE), &mut unhandled, resp(0), None);
    assert_eq!(state, TransState::Idle);
    assert_eq!(unhandled, no_event());
}

#[test]
fn single_block_read_walks_all_four_states() {
    let mut cmd = read_single_512();
    let mut state = initial_state(cmd.opcode);
    let mut unhandled = no_event();
    let regs = resp(0x900);

    handle_event(&mut cmd, &mut state, ev(CMD_DONE), &mut unhandled, regs, None);
    assert_eq!(state, TransState::SendingData);

    handle_event(
        &mut cmd,
        &mut state,
        Event { sdmmc_status: 0, dma_status: DMA_RI },
        &mut unhandled,
        regs,
        None,
    );
    assert_eq!(state, TransState::Busy);

    handle_event(&mut cmd, &mut state, ev(DATA_OVER), &mut unhandled, regs, None);
    assert_eq!(state, TransState::Idle);
    assert!(cmd.err.is_none());
    assert_eq!(cmd.response, [0x900, 0, 0, 0]);
}

#[test]
fn single_block_read_fills_the_buffer_from_the_drained_data() {
    let mut cmd = read_single_512();
    let events = vec![ev(CMD_DONE), Event { sdmmc_status: 0, dma_status: DMA_RI }, ev(DATA_OVER)];
    let rec: Vec<u8> = vec![0xAB; 512];
    let r = run_transaction(&mut cmd, Slot::Slot1, 0, 0, &events, resp(0x900), None, true, &rec);
    assert!(r.is_ok());
    assert!(cmd.err.is_none());
    assert_eq!(cmd.response[0], 0x900);
    assert_eq!(cmd.data.as_ref().unwrap(), &vec![0xABu8; 512]);
}

#[test]
fn response_timeout_goes_straight_to_idle() {
    // a response-timeout on the first event classifies as a timeout and
    // completes without ever entering the data phase
    let mut cmd = read_single_512();
    let mut state = initial_state(cmd.opcode);
    let mut unhandled = no_event();
    let out = handle_event(&mut cmd, &mut state, ev(RTO | CMD_DONE), &mut unhandled, resp(7), None);
    assert_eq!(state, TransState::Idle);
    assert_eq!(cmd.err, Some(Error::Timeout));
    // an error on a command with a data phase stops the DMA engine
    assert!(out.dma_stop);
}

#[test]
fn response_crc_error_is_classified_when_checked() {
    let mut cmd = read_single_512();
    let mut state = initial_state(cmd.opcode);
    let mut unhandled = no_event();
    handle_event(&mut cmd, &mut state, ev(RCRC | CMD_DONE), &mut unhandled, resp(7), None);
    assert_eq!(cmd.err, Some(Error::InvalidCRC));
    assert_eq!(state, TransState::Idle);
}

#[test]
fn response_crc_error_is_ignored_when_not_checked() {
    // a CRC-error bit on a descriptor that does not check CRC records
    // nothing and the transaction proceeds into the data phase
    let mut cmd = read_single_512();
    cmd.flags = 0x1000 | SCF_CMD_READ;  // response present, CRC not checked
    let mut state = initial_state(cmd.opcode);
    let mut unhandled = no_event();
    handle_event(&mut cmd, &mut state, ev(RCRC | CMD_DONE), &mut unhandled, resp(7), None);
    assert!(cmd.err.is_none());
    assert_eq!(state, TransState::SendingData);
}

#[test]
fn response_error_bit_is_invalid_response() {
    let mut cmd = SdmmcCmd { opcode: 13, flags: SCF_RSP_R1, ..Default::default() };
    let mut state = initial_state(cmd.opcode);
    let mut unhandled = no_event();
    handle_event(&mut cmd, &mut state, ev(RESP_ERR | CMD_DONE), &mut unhandled, resp(7), None);
    assert_eq!(cmd.err, Some(Error::InvalidResponse));
}

#[test]
fn data_timeout_is_classified_as_timeout() {
    let mut cmd = read_single_512();
    let mut state = TransState::SendingData;
    let mut unhandled = no_event();
    let out = handle_event(&mut cmd, &mut state, ev(DTO), &mut unhandled, resp(0), None);
    assert_eq!(cmd.err, Some(Error::Timeout));
    assert!(out.dma_stop);
    assert!(out.fifo_reset);
}

#[test]
fn data_crc_error_is_invalid_crc() {
    let mut cmd = read_single_512();
    let mut state = TransState::SendingData;
    let mut unhandled = no_event();
    handle_event(&mut cmd, &mut state, ev(DCRC), &mut unhandled, resp(0), None);
    assert_eq!(cmd.err, Some(Error::InvalidCRC));
}

#[test]
fn end_bit_error_on_a_write_is_a_timeout() {
    let mut cmd = SdmmcCmd {
        opcode: MMC_WRITE_BLOCK_SINGLE,
        flags: SCF_RSP_R1,
        data: Some(vec![0u8; 512]),
        datalen: 512,
        buflen: 512,
        blklen: 512,
        ..Default::default()
    };
    let mut state = TransState::SendingData;
    let mut unhandled = no_event();
    handle_event(&mut cmd, &mut state, ev(EBE), &mut unhandled, resp(0), None);
    assert_eq!(cmd.err, Some(Error::Timeout));
}

#[test]
fn end_bit_error_on_a_read_is_the_generic_failure() {
    let mut cmd = read_single_512();
    let mut state = TransState::SendingData;
    let mut unhandled = no_event();
    handle_event(&mut cmd, &mut state, ev(EBE), &mut unhandled, resp(0), None);
    assert_eq!(cmd.err, Some(Error::Fail));
}

#[test]
fn long_response_copies_all_four_registers() {
    let mut cmd = SdmmcCmd { opcode: 2, flags: 0x1000 | 0x0200, ..Default::default() };
    let mut state = TransState::SendingCmd;
    let mut unhandled = no_event();
    let regs = RespRegs { r0: 1, r1: 2, r2: 3, r3: 4 };
    handle_event(&mut cmd, &mut state, ev(CMD_DONE), &mut unhandled, regs, None);
    assert_eq!(cmd.response, [1, 2, 3, 4]);
}

#[test]
fn short_response_zeroes_the_upper_registers() {
    let mut cmd = SdmmcCmd {
        opcode: 13,
        flags: SCF_RSP_R1,
        response: [9, 9, 9, 9],
        ..Default::default()
    };
    let mut state = TransState::SendingCmd;
    let mut unhandled = no_event();
    let regs = RespRegs { r0: 0x1234, r1: 2, r2: 3, r3: 4 };
    handle_event(&mut cmd, &mut state, ev(CMD_DONE), &mut unhandled, regs, None);
    assert_eq!(cmd.response, [0x1234, 0, 0, 0]);
}

#[test]
fn second_pass_over_cleared_bits_is_a_no_op() {
    // a lone response-timeout bit records the error but awaits completion;
    // feeding the machine again with the already-cleared snapshot must not
    // capture the response a second time nor touch anything
    let mut cmd = SdmmcCmd { opcode: 13, flags: SCF_RSP_R1, ..Default::default() };
    let mut state = TransState::SendingCmd;
    let mut unhandled = no_event();
    let out1 = handle_event(&mut cmd, &mut state, ev(RTO), &mut unhandled, resp(0x11), None);
    assert_eq!(state, TransState::SendingCmd);
    assert_eq!(cmd.err, Some(Error::Timeout));
    assert!(out1.captured_response);
    assert_eq!(cmd.response[0], 0x11);

    // the registers now read differently; a duplicate capture would show
    let out2 = handle_event(&mut cmd, &mut state, no_event(), &mut unhandled, resp(0x99), None);
    assert!(!out2.captured_response);
    assert_eq!(cmd.response[0], 0x11);
    assert_eq!(cmd.err, Some(Error::Timeout));
    assert_eq!(state, TransState::SendingCmd);
    assert_eq!(unhandled, no_event());
}

#[test]
fn early_data_error_bit_is_carried_forward() {
    // a data-timeout bit delivered while the command is still being sent
    // must be retained in the unhandled accumulator ...
    let mut cmd = read_single_512();
    let mut state = TransState::SendingCmd;
    let mut unhandled = no_event();
    handle_event(&mut cmd, &mut state, ev(DTO), &mut unhandled, resp(0), None);
    assert_eq!(state, TransState::SendingCmd);
    assert!(cmd.err.is_none());
    assert_eq!(unhandled.sdmmc_status, DTO);

    // ... and classified once the completion event reaches the data phase
    let out = handle_event(&mut cmd, &mut state, ev(CMD_DONE), &mut unhandled, resp(0), None);
    assert_eq!(cmd.err, Some(Error::Timeout));
    assert!(out.dma_stop);
    assert!(out.fifo_reset);
}

#[test]
fn voltage_switch_walks_both_stages() {
    // stage two runs on the first voltage-switch event, stage three on the
    // second; the machine passes through the waiting state in between
    let mut cmd = SdmmcCmd { opcode: SD_SWITCH_VOLTAGE, flags: SCF_RSP_R1, ..Default::default() };
    let mut state = initial_state(cmd.opcode);
    assert_eq!(state, TransState::SendingVoltageSwitch);
    let mut unhandled = no_event();

    let out1 = handle_event(&mut cmd, &mut state, ev(VOLT_SW), &mut unhandled, resp(0), None);
    assert_eq!(state, TransState::WaitingVoltageSwitch);
    assert!(out1.run_stage2);
    assert!(!out1.run_stage3);
    assert!(cmd.err.is_none());

    let out2 = handle_event(&mut cmd, &mut state, ev(VOLT_SW), &mut unhandled, resp(0), None);
    assert_eq!(state, TransState::Idle);
    assert!(!out2.run_stage2);
    assert!(out2.run_stage3);
    assert!(cmd.err.is_none());
}

#[test]
fn voltage_switch_end_to_end() {
    let mut cmd = SdmmcCmd { opcode: SD_SWITCH_VOLTAGE, flags: SCF_RSP_R1, ..Default::default() };
    let events = vec![ev(VOLT_SW), ev(VOLT_SW)];
    let rec: Vec<u8> = Vec::new();
    let r = run_transaction(&mut cmd, Slot::Slot1, 0, 0, &events, resp(0), None, true, &rec);
    let out = r.unwrap();
    assert!(out.run_stage2);
    assert!(out.run_stage3);
    assert!(cmd.err.is_none());
}

#[test]
fn failed_physical_switch_ends_the_transaction() {
    let mut cmd = SdmmcCmd { opcode: SD_SWITCH_VOLTAGE, flags: SCF_RSP_R1, ..Default::default() };
    let mut state = initial_state(cmd.opcode);
    let mut unhandled = no_event();
    let out = handle_event(
        &mut cmd,
        &mut state,
        ev(VOLT_SW),
        &mut unhandled,
        resp(0),
        Some(Error::Fail),
    );
    assert_eq!(state, TransState::Idle);
    assert!(out.run_stage2);
    assert_eq!(cmd.err, Some(Error::Fail));
}

#[test]
fn running_out_of_events_is_a_timeout() {
    let mut cmd = read_single_512();
    let events = vec![ev(CMD_DONE)];
    let rec: Vec<u8> = Vec::new();
    let r = run_transaction(&mut cmd, Slot::Slot1, 0, 0, &events, resp(0x900), None, true, &rec);
    assert_eq!(r, Err(Error::Timeout));
}

#[test]
fn busy_line_that_never_clears_is_a_timeout() {
    let mut cmd = SdmmcCmd {
        opcode: 6,
        flags: SCF_RSP_R1 | SCF_WAIT_BUSY,
        ..Default::default()
    };
    let events = vec![ev(CMD_DONE)];
    let rec: Vec<u8> = Vec::new();
    let r = run_transaction(&mut cmd, Slot::Slot1, 0, 0, &events, resp(0x900), None, false, &rec);
    assert_eq!(r, Err(Error::Timeout));
    // the command itself succeeded on the bus
    assert!(cmd.err.is_none());
}
