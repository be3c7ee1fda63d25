use sdmmc_host::cmd::SdmmcCmd;
use sdmmc_host::flags::MMC_GO_IDLE_STATE;
use sdmmc_host::flags::MMC_READ_BLOCK_MULTIPLE;
use sdmmc_host::flags::MMC_READ_BLOCK_SINGLE;
use sdmmc_host::flags::MMC_STOP_TRANSMISSION;
use sdmmc_host::flags::MMC_WRITE_BLOCK_MULTIPLE;
use sdmmc_host::flags::SCF_CMD_AC;
use sdmmc_host::flags::SCF_CMD_READ;
use sdmmc_host::flags::SCF_RSP_R0;
use sdmmc_host::flags::SCF_RSP_R1;
use sdmmc_host::flags::SCF_RSP_R1B;
use sdmmc_host::flags::SCF_RSP_R2;
use sdmmc_host::flags::SD_SWITCH_VOLTAGE;
use sdmmc_host::hw_cmd::clk_update_word;
use sdmmc_host::hw_cmd::SdmmcHwCmd;
use sdmmc_host::Slot;

fn read_single_512() -> SdmmcCmd {
    SdmmcCmd {
        opcode: MMC_READ_BLOCK_SINGLE,
        flags: SCF_RSP_R1 | SCF_CMD_READ,
        data: Some(vec![0u8; 512]),
        datalen: 512,
        buflen: 512,
        blklen: 512,
        ..Default::default()
    }
}

#[test]
fn default_descriptor_is_empty_with_one_second_timeout() {
    let cmd = SdmmcCmd::default();
    assert_eq!(cmd.opcode, 0);
    assert_eq!(cmd.arg, 0);
    assert_eq!(cmd.response, [0u32; 4]);
    assert!(cmd.data.is_none());
    assert_eq!(cmd.flags, 0);
    assert!(cmd.err.is_none());
    assert_eq!(cmd.timeout_ms, 1000);
}

#[test]
fn command_kind_field_and_flag_test() {
    let cmd = SdmmcCmd { flags: SCF_CMD_AC | SCF_RSP_R1B, ..Default::default() };
    assert_eq!(cmd.scf_cmd(), (SCF_CMD_AC | SCF_RSP_R1B) & 0x00f0);
    assert!(cmd.has_flag(SCF_RSP_R1B));
    assert!(!cmd.has_flag(SCF_CMD_READ));
}

#[test]
fn go_idle_sets_only_the_init_sequence() {
    let cmd = SdmmcCmd { opcode: MMC_GO_IDLE_STATE, flags: SCF_RSP_R0, ..Default::default() };
    let hw = cmd.make_hw_cmd();
    assert!(hw.send_init);
    assert!(!hw.stop_abort_cmd);
    assert!(!hw.volt_switch);
    assert!(!hw.wait_complete);
    assert!(!hw.response_expect);
    assert!(!hw.data_expected);
    assert_eq!(hw.word(), 0x8000);
}

#[test]
fn stop_transmission_sets_the_abort_flag() {
    let cmd = SdmmcCmd { opcode: MMC_STOP_TRANSMISSION, flags: SCF_RSP_R1B, ..Default::default() };
    let hw = cmd.make_hw_cmd();
    assert!(hw.stop_abort_cmd);
    assert!(!hw.wait_complete);
    assert!(hw.response_expect);
    assert!(hw.check_response_crc);
    assert_eq!(hw.word(), 0x4000 | 0x100 | 0x40 | 12);
}

#[test]
fn switch_voltage_sets_the_voltage_flag() {
    let cmd = SdmmcCmd { opcode: SD_SWITCH_VOLTAGE, flags: SCF_RSP_R1, ..Default::default() };
    let hw = cmd.make_hw_cmd();
    assert!(hw.volt_switch);
    assert!(!hw.wait_complete);
    assert!(!hw.send_init);
}

#[test]
fn data_expected_iff_buffer_present() {
    let with_data = read_single_512();
    assert!(with_data.make_hw_cmd().data_expected);
    assert!(with_data.make_hw_cmd().rw);

    let without = SdmmcCmd { opcode: MMC_READ_BLOCK_SINGLE, flags: SCF_RSP_R1, ..Default::default() };
    assert!(!without.make_hw_cmd().data_expected);
    assert!(!without.make_hw_cmd().rw);
}

#[test]
fn long_response_needs_both_flags() {
    let long = SdmmcCmd { opcode: 2, flags: SCF_RSP_R2, ..Default::default() };
    assert!(long.make_hw_cmd().response_long);
    let short = SdmmcCmd { opcode: 2, flags: SCF_RSP_R1, ..Default::default() };
    assert!(!short.make_hw_cmd().response_long);
}

#[test]
fn auto_stop_only_for_multi_block_opcodes() {
    let mut multi = read_single_512();
    multi.opcode = MMC_READ_BLOCK_MULTIPLE;
    assert!(multi.make_hw_cmd().send_auto_stop);

    let mut write_multi = read_single_512();
    write_multi.opcode = MMC_WRITE_BLOCK_MULTIPLE;
    write_multi.flags = SCF_RSP_R1;
    assert!(write_multi.make_hw_cmd().send_auto_stop);

    let single = read_single_512();
    assert!(!single.make_hw_cmd().send_auto_stop);

    let mut empty = SdmmcCmd {
        opcode: MMC_READ_BLOCK_MULTIPLE,
        flags: SCF_RSP_R1 | SCF_CMD_READ,
        data: Some(Vec::new()),
        datalen: 0,
        blklen: 1,
        ..Default::default()
    };
    assert!(!empty.make_hw_cmd().send_auto_stop);
    empty.data = None;
    assert!(!empty.make_hw_cmd().send_auto_stop);
}

#[test]
fn single_block_read_word_encoding() {
    let hw = read_single_512().make_hw_cmd();
    // index 17, response expect, response CRC, data expected, read
    // direction, wait for previous data
    assert_eq!(hw.word(), 0x11 | 0x40 | 0x100 | 0x200 | 0x400 | 0x2000);
}

#[test]
fn clock_update_word_carries_slot_and_no_command() {
    let w = clk_update_word(Slot::Slot1, false);
    assert!(w.update_clk_reg);
    assert!(w.wait_complete);
    assert!(!w.volt_switch);
    assert_eq!(w.card_num, 1);
    assert_eq!(w.word(), 0x200000 | 0x2000 | 0x10000);

    let v = clk_update_word(Slot::Slot0, true);
    assert!(v.volt_switch);
    assert_eq!(v.card_num, 0);
}

#[test]
fn builder_word_places_every_field() {
    let w = SdmmcHwCmd::new()
        .with_cmd_index(0x3f)
        .with_card_num(1)
        .with_start_command(true)
        .with_use_hold_reg(true)
        .word();
    assert_eq!(w, 0x3f | 0x10000 | 0x8000_0000 | 0x2000_0000);
}
