use sdmmc_host::bringup::acmd41_arg;
use sdmmc_host::bringup::all_send_cid_descriptor;
use sdmmc_host::bringup::app_cmd_descriptor;
use sdmmc_host::bringup::app_cmd_supported;
use sdmmc_host::bringup::card_width_bits;
use sdmmc_host::bringup::clamp_sdsc_capacity;
use sdmmc_host::bringup::go_idle_descriptor;
use sdmmc_host::bringup::host_ocr_after_if_cond;
use sdmmc_host::bringup::if_cond_arg;
use sdmmc_host::bringup::if_cond_check;
use sdmmc_host::bringup::if_cond_descriptor;
use sdmmc_host::bringup::masked_host_ocr;
use sdmmc_host::bringup::op_cond_descriptor;
use sdmmc_host::bringup::op_cond_on_error;
use sdmmc_host::bringup::op_cond_ready;
use sdmmc_host::bringup::rca_from_response;
use sdmmc_host::bringup::read_ocr_descriptor;
use sdmmc_host::bringup::relative_addr_descriptor;
use sdmmc_host::bringup::sampling_mode_allowed;
use sdmmc_host::bringup::slot_width_supported;
use sdmmc_host::bringup::wants_uhs1;
use sdmmc_host::intr::irq_snapshot;
use sdmmc_host::intr::sdio_mask_update;
use sdmmc_host::poll::poll_step;
use sdmmc_host::poll::PollDecision;
use sdmmc_host::BusSamplingMode;
use sdmmc_host::Error;
use sdmmc_host::Slot;
use sdmmc_host::Width;

const VOL_MASK: u32 = 0x00FF8000;
const SDHC: u32 = 0x40000000;
const S18_RA: u32 = 0x01000000;
const XPC: u32 = 0x10000000;

#[test]
fn slot_numbers_and_bits() {
    assert_eq!(Slot::Slot0.num(), 0);
    assert_eq!(Slot::Slot1.num(), 1);
    assert_eq!(Slot::Slot0.bit(), 1);
    assert_eq!(Slot::Slot1.bit(), 2);
}

#[test]
fn interface_condition_argument_advertises_the_window() {
    assert_eq!(if_cond_arg(VOL_MASK), 0x1AA);
    assert_eq!(if_cond_arg(0), 0xAA);
    let d = if_cond_descriptor(VOL_MASK);
    assert_eq!(d.opcode, 8);
    assert_eq!(d.arg, 0x1AA);
}

#[test]
fn interface_condition_checks_the_echo() {
    assert_eq!(if_cond_check(0x5AA), Ok(()));
    assert_eq!(if_cond_check(0x55), Err(Error::InvalidResponse));
}

#[test]
fn host_window_follows_the_probe_outcome() {
    assert_eq!(host_ocr_after_if_cond(&Ok(())), Ok(VOL_MASK | SDHC));
    assert_eq!(host_ocr_after_if_cond(&Err(Error::Timeout)), Ok(VOL_MASK));
    assert_eq!(host_ocr_after_if_cond(&Err(Error::NotSupported)), Ok(VOL_MASK));
    assert_eq!(host_ocr_after_if_cond(&Err(Error::Fail)), Err(Error::Fail));
}

#[test]
fn negotiation_argument_composition() {
    assert_eq!(acmd41_arg(0, false), VOL_MASK);
    assert_eq!(acmd41_arg(SDHC, false), VOL_MASK | SDHC);
    assert_eq!(acmd41_arg(SDHC, true), VOL_MASK | SDHC | S18_RA | XPC);
}

#[test]
fn uhs_requires_switch_acceptance_and_capacity() {
    assert!(wants_uhs1(S18_RA | SDHC));
    assert!(!wants_uhs1(S18_RA));
    assert!(!wants_uhs1(SDHC));
}

#[test]
fn host_window_is_masked_by_the_card() {
    assert_eq!(masked_host_ocr(0x00FF8000, 0x00010000), 0x00010000);
    assert_eq!(masked_host_ocr(SDHC | 0x8000, 0x8000), SDHC | 0x8000);
}

#[test]
fn application_command_prefix_addresses_the_card() {
    let d = app_cmd_descriptor(5);
    assert_eq!(d.opcode, 55);
    assert_eq!(d.arg, 5 << 16);
    assert!(app_cmd_supported(0x20));
    assert!(!app_cmd_supported(0x10));
}

#[test]
fn operating_condition_descriptors() {
    let sd = op_cond_descriptor(true, 0xdead);
    assert_eq!(sd.opcode, 41);
    assert_eq!(sd.arg, 0xdead);
    let mmc = op_cond_descriptor(false, 0x60FF8000);
    assert_eq!(mmc.opcode, 1);
    // the access-mode field is forced to sector addressing
    assert_eq!(mmc.arg, 0x40FF8000);
}

#[test]
fn operating_condition_loop_decisions() {
    assert!(op_cond_ready(0x8000_0000, VOL_MASK));
    assert!(op_cond_ready(0, 0));
    assert!(!op_cond_ready(0, VOL_MASK));
    assert_eq!(op_cond_on_error(3, Error::Timeout), Ok(2));
    assert_eq!(op_cond_on_error(1, Error::InvalidCRC), Err(Error::InvalidCRC));
}

#[test]
fn identification_descriptors() {
    assert_eq!(go_idle_descriptor().opcode, 0);
    assert_eq!(go_idle_descriptor().flags, 0x20);
    assert_eq!(read_ocr_descriptor().opcode, 58);
    assert_eq!(all_send_cid_descriptor().opcode, 2);
    assert_eq!(relative_addr_descriptor(true).arg, 0x10000);
    assert_eq!(relative_addr_descriptor(false).arg, 0);
}

#[test]
fn relative_address_is_the_upper_half_word() {
    assert_eq!(rca_from_response(0x1234_5678), 0x1234);
    assert_eq!(rca_from_response(0xFFFF), 0);
}

#[test]
fn standard_capacity_is_clamped() {
    let max = u32::MAX / 512 + 1;
    assert_eq!(clamp_sdsc_capacity(u32::MAX, 512, 0), max);
    assert_eq!(clamp_sdsc_capacity(u32::MAX, 512, SDHC), u32::MAX);
    assert_eq!(clamp_sdsc_capacity(1000, 512, 0), 1000);
}

#[test]
fn slot_width_and_sampling_restrictions() {
    assert!(slot_width_supported(Slot::Slot0, Width::Bit8));
    assert!(!slot_width_supported(Slot::Slot1, Width::Bit8));
    assert!(slot_width_supported(Slot::Slot1, Width::Bit4));
    assert!(sampling_mode_allowed(Width::Bit4, BusSamplingMode::DDR));
    assert!(!sampling_mode_allowed(Width::Bit8, BusSamplingMode::DDR));
}

#[test]
fn card_width_bits_per_slot() {
    assert_eq!(card_width_bits(0b11, 0b11, Slot::Slot1, Width::Bit1), (0b01, 0b01));
    assert_eq!(card_width_bits(0b00, 0b10, Slot::Slot1, Width::Bit4), (0b10, 0b00));
    assert_eq!(card_width_bits(0b01, 0b00, Slot::Slot0, Width::Bit8), (0b01, 0b01));
}

#[test]
fn interrupt_snapshot_masks_reserved_bits() {
    let o = irq_snapshot(0xABCD_0104, 0x2);
    assert_eq!(o.event.sdmmc_status, 0x0104);
    assert_eq!(o.event.dma_status, 0x2);
    assert_eq!(o.clear_status, 0x0104);
    assert_eq!(o.clear_dma, 0x2);
    assert!(o.publish);
}

#[test]
fn empty_interrupt_publishes_nothing() {
    let o = irq_snapshot(0xABCD_0000, 0);
    assert!(!o.publish);
    let dma_only = irq_snapshot(0, 0x100);
    assert!(dma_only.publish);
}

#[test]
fn card_interrupt_masks_itself_off() {
    assert_eq!(sdio_mask_update(0b11, 0b01), (0b10, true));
    assert_eq!(sdio_mask_update(0b11, 0b00), (0b11, false));
}

#[test]
fn poll_policy_steps() {
    assert_eq!(poll_step(50, 100, 1000), PollDecision::Continue);
    assert_eq!(poll_step(150, 100, 1000), PollDecision::Yield(200));
    assert_eq!(poll_step(250, 200, 1000), PollDecision::Yield(400));
    assert_eq!(poll_step(1001, 100, 1000), PollDecision::TimedOut);
    assert_eq!(poll_step(1000, 2000, 1000), PollDecision::Continue);
}
