use big_button::clocks_config::{
    calculate_pll_config, clock_accuracy_percent, configure_all_clocks, AdcClkConfig, AdcClkSrc, ClockSettings,
    HalConfig, PeriClkSrc, PllConfig, RefClkConfig, RefClkSrc, SysClkConfig, SysClkSrc, UsbClkConfig, UsbClkSrc,
};

fn settings(peripheral_clock_divider: u8) -> ClockSettings {
    ClockSettings {
        xosc_crystal_hz: 12_000_000,
        system_frequency_mhz: 150,
        usb_frequency_mhz: 48,
        peripheral_clock_divider,
        adc_frequency_mhz: 48,
        reference_clock_divider: 1,
    }
}

#[test]
fn pll_for_system_clock() {
    let c = calculate_pll_config(150, 12_000_000, 6, 2);
    assert_eq!(c, PllConfig { refdiv: 1, fbdiv: 150, post_div1: 6, post_div2: 2 });
}

#[test]
fn pll_for_usb_clock() {
    let c = calculate_pll_config(48, 12_000_000, 6, 5);
    assert_eq!(c, PllConfig { refdiv: 1, fbdiv: 120, post_div1: 6, post_div2: 5 });
}

#[test]
fn pll_rounds_down() {
    // 133 * 12 / 12 = 133; 100 * 12 / 16 = 75 (16 MHz crystal); 7 * 3 * 1 / 4 = 5
    assert_eq!(calculate_pll_config(133, 12_000_000, 6, 2).fbdiv, 133);
    assert_eq!(calculate_pll_config(100, 16_500_000, 6, 2).fbdiv, 75);
    assert_eq!(calculate_pll_config(7, 4_999_999, 3, 1).fbdiv, 5);
}

#[test]
fn pll_keeps_low_16_bits() {
    // 70000 * 1 * 1 / 1 = 70000 = 0x11170 -> 0x1170
    assert_eq!(calculate_pll_config(70_000, 1_000_000, 1, 1).fbdiv, 0x1170);
}

#[test]
fn configure_all_clocks_plan() {
    let mut hal = HalConfig::default();
    assert!(hal.clocks.is_none());
    let r = configure_all_clocks(&mut hal, settings(1));
    let clocks = r.clocks.unwrap();
    let xosc = clocks.xosc.unwrap();
    assert_eq!(xosc.hz, 12_000_000);
    assert_eq!(xosc.sys_pll, Some(PllConfig { refdiv: 1, fbdiv: 150, post_div1: 6, post_div2: 2 }));
    assert_eq!(xosc.usb_pll, Some(PllConfig { refdiv: 1, fbdiv: 120, post_div1: 6, post_div2: 5 }));
    assert_eq!(xosc.delay_multiplier, 128);
    assert_eq!(clocks.sys_clk, SysClkConfig { src: SysClkSrc::PllSys, div_int: 1, div_frac: 0 });
    assert_eq!(clocks.usb_clk, Some(UsbClkConfig { src: UsbClkSrc::PllUsb, div: 1, phase: 0 }));
    assert_eq!(clocks.peri_clk_src, Some(PeriClkSrc::Sys));
    assert_eq!(clocks.adc_clk, Some(AdcClkConfig { src: AdcClkSrc::PllUsb, div: 1, phase: 0 }));
    assert_eq!(clocks.ref_clk, RefClkConfig { src: RefClkSrc::Xosc, div: 1 });
    assert_eq!(hal.clocks, Some(clocks));
}

#[test]
fn configure_all_clocks_dividers() {
    let mut s = settings(4);
    s.adc_frequency_mhz = 12;
    s.reference_clock_divider = 3;
    let mut hal = HalConfig::default();
    configure_all_clocks(&mut hal, s);
    let clocks = hal.clocks.unwrap();
    assert_eq!(clocks.peri_clk_src, Some(PeriClkSrc::Sys));
    assert_eq!(clocks.adc_clk.unwrap().div, 4);
    assert_eq!(clocks.ref_clk.div, 3);
}

#[test]
fn accuracy_exact() {
    assert_eq!(clock_accuracy_percent(500, 500_000), (0, 0));
}

#[test]
fn accuracy_slow_and_fast() {
    // 250 us off 500000 us: 0.05 %
    assert_eq!(clock_accuracy_percent(500, 500_250), (0, 5));
    assert_eq!(clock_accuracy_percent(500, 499_750), (0, 5));
    // 10 ms off 500 ms: 2.00 %
    assert_eq!(clock_accuracy_percent(500, 510_000), (2, 0));
    // 1 ms measured for 1 ms plus 1234 us: 123.40 %
    assert_eq!(clock_accuracy_percent(1, 2_234), (123, 40));
}
