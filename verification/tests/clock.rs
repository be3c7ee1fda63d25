use sdmmc_host::clock::calc_freq;
use sdmmc_host::clock::clock_reprogram_needed;
use sdmmc_host::clock::SlotContext;
use sdmmc_host::clock::clk_edge_params;
use sdmmc_host::clock::clksrc_bits;
use sdmmc_host::clock::data_timeout_cycles;
use sdmmc_host::clock::get_clk_divs;
use sdmmc_host::Slot;

#[test]
fn probing_band_round_trips_exactly() {
    let (h, c) = get_clk_divs(400);
    assert_eq!((h, c), (10, 20));
    assert_eq!(calc_freq(h, c), 400);
}

#[test]
fn default_band_round_trips_exactly() {
    let (h, c) = get_clk_divs(20000);
    assert_eq!((h, c), (8, 0));
    assert_eq!(calc_freq(h, c), 20000);
}

#[test]
fn high_speed_band_pins_forty_megahertz() {
    assert_eq!(get_clk_divs(40000), (4, 0));
    assert_eq!(get_clk_divs(80000), (4, 0));
    assert_eq!(calc_freq(4, 0), 40000);
}

#[test]
fn computed_band_rounds_host_divider_up() {
    // 160000 / 30000 rounds up to 6; one step tighter would overshoot
    let (h, c) = get_clk_divs(30000);
    assert_eq!((h, c), (6, 0));
    assert_eq!(calc_freq(6, 0), 26666);
    assert!(calc_freq(6, 0) <= 30000);
    assert!(calc_freq(5, 0) > 30000);
}

#[test]
fn fallback_band_uses_card_divider() {
    // the naive host divider 160000 / 5000 = 32 exceeds the hardware
    // maximum of 15, so the host divider falls back to 2
    let (h, c) = get_clk_divs(5000);
    assert_eq!((h, c), (2, 8));
    assert_eq!(calc_freq(2, 8), 5000);
}

#[test]
fn lowest_supported_frequency_fits_the_card_divider() {
    let (h, c) = get_clk_divs(157);
    assert_eq!((h, c), (2, 255));
    assert!(calc_freq(2, 255) <= 157);
}

#[test]
fn round_trip_never_exceeds_request_across_sweep() {
    let mut f: u32 = 157;
    while f < 90000 {
        let (h, c) = get_clk_divs(f);
        assert!(calc_freq(h, c) <= f, "request {} overshoots", f);
        f += 61;
    }
}

#[test]
fn data_timeout_scales_with_frequency() {
    assert_eq!(data_timeout_cycles(400), 40000);
    assert_eq!(data_timeout_cycles(20000), 2000000);
    assert_eq!(data_timeout_cycles(40000), 4000000);
}

#[test]
fn data_timeout_clamps_to_register_width() {
    assert_eq!(data_timeout_cycles(200000), 0xffffff);
    assert_eq!(data_timeout_cycles(u32::MAX), 0xffffff);
}

#[test]
fn edge_parameters_follow_the_divider() {
    assert_eq!(clk_edge_params(2), (1, 0));
    assert_eq!(clk_edge_params(8), (7, 3));
    assert_eq!(clk_edge_params(16), (15, 7));
}

#[test]
fn clock_source_routing_per_slot() {
    assert_eq!(clksrc_bits(0b1111, Slot::Slot0), 0b1100);
    assert_eq!(clksrc_bits(0b0011, Slot::Slot1), 0b0111);
    assert_eq!(clksrc_bits(0b0000, Slot::Slot1), 0b0100);
}

#[test]
fn clock_is_reprogrammed_only_on_a_configured_slot_change() {
    let cfg = SlotContext { configured: true, host_div: 8, card_div: 0, freq_khz: 20000 };
    let fresh = SlotContext::unconfigured();
    assert!(clock_reprogram_needed(Slot::Slot0, Slot::Slot1, &cfg));
    assert!(!clock_reprogram_needed(Slot::Slot1, Slot::Slot1, &cfg));
    assert!(!clock_reprogram_needed(Slot::Slot0, Slot::Slot1, &fresh));
}
