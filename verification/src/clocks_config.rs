//! Raspberry Pi Pico 2 W RP2350 clock/PLL planning.
//!
//! These are the clock settings that the HAL is configured with, held as
//! plain values: the PLL dividers for the system and USB clocks, the clock
//! sources and dividers, and the accuracy figure printed after measuring
//! the system clock against a timer.

use vstd::prelude::*;

verus! {

/// Number of Hz in one MHz.
pub const HZ_PER_MHZ: u32 = 1_000_000;

/// Clock configuration structure to hold all clock settings for RP2350
#[derive(Debug, Clone, Copy, PartialEq, Eq, Structural)]
pub struct ClockSettings {
    pub xosc_crystal_hz: u32,
    pub system_frequency_mhz: u32,
    pub usb_frequency_mhz: u32,
    pub peripheral_clock_divider: u8,
    pub adc_frequency_mhz: u32,
    pub reference_clock_divider: u8,
}

/// PLL configuration.
#[derive(Debug, Clone, Copy, PartialEq, Eq, Structural)]
pub struct PllConfig {
    /// Reference divisor.
    pub refdiv: u8,
    /// Feedback divisor.
    pub fbdiv: u16,
    /// Output divisor 1.
    pub post_div1: u8,
    /// Output divisor 2.
    pub post_div2: u8,
}

/// Crystal oscillator configuration.
#[derive(Debug, Clone, Copy, PartialEq, Eq, Structural)]
pub struct XoscConfig {
    /// Final frequency of the oscillator.
    pub hz: u32,
    /// Configuring PLL for the system clock.
    pub sys_pll: Option<PllConfig>,
    /// Configuring PLL for the USB clock.
    pub usb_pll: Option<PllConfig>,
    /// Multiplier for the startup delay.
    pub delay_multiplier: u32,
}

/// SYS clock source.
#[derive(Debug, Clone, Copy, PartialEq, Eq, Structural)]
pub enum SysClkSrc {
    Ref,
    PllSys,
    PllUsb,
    Rosc,
    Xosc,
}

/// SYS clock config.
#[derive(Debug, Clone, Copy, PartialEq, Eq, Structural)]
pub struct SysClkConfig {
    /// SYS clock source.
    pub src: SysClkSrc,
    /// SYS clock divider.
    pub div_int: u16,
    /// SYS clock fraction.
    pub div_frac: u16,
}

/// USB clock source.
#[derive(Debug, Clone, Copy, PartialEq, Eq, Structural)]
pub enum UsbClkSrc {
    PllUsb,
    PllSys,
    Rosc,
    Xosc,
}

/// USB clock config.
#[derive(Debug, Clone, Copy, PartialEq, Eq, Structural)]
pub struct UsbClkConfig {
    /// USB clock source.
    pub src: UsbClkSrc,
    /// USB clock divider.
    pub div: u8,
    /// USB clock phase.
    pub phase: u8,
}

/// Peripheral clock sources.
#[derive(Debug, Clone, Copy, PartialEq, Eq, Structural)]
pub enum PeriClkSrc {
    Sys,
    PllSys,
    PllUsb,
    Rosc,
    Xosc,
}

/// ADC clock source.
#[derive(Debug, Clone, Copy, PartialEq, Eq, Structural)]
pub enum AdcClkSrc {
    PllUsb,
    PllSys,
    Rosc,
    Xosc,
}

/// ADC clock config.
#[derive(Debug, Clone, Copy, PartialEq, Eq, Structural)]
pub struct AdcClkConfig {
    /// ADC clock source.
    pub src: AdcClkSrc,
    /// ADC clock divider.
    pub div: u8,
    /// ADC clock phase.
    pub phase: u8,
}

/// Reference clock source.
#[derive(Debug, Clone, Copy, PartialEq, Eq, Structural)]
pub enum RefClkSrc {
    Xosc,
    Rosc,
    PllUsb,
}

/// Reference clock config.
#[derive(Debug, Clone, Copy, PartialEq, Eq, Structural)]
pub struct RefClkConfig {
    /// Reference clock source.
    pub src: RefClkSrc,
    /// Reference clock divider.
    pub div: u8,
}

/// The clock settings this firmware configures, on top of the HAL's
/// crystal-based defaults for the ring oscillator and core voltage.
#[derive(Debug, Clone, Copy, PartialEq, Eq, Structural)]
pub struct ClockConfig {
    /// External oscillator configuration.
    pub xosc: Option<XoscConfig>,
    /// Reference clock configuration.
    pub ref_clk: RefClkConfig,
    /// System clock configuration.
    pub sys_clk: SysClkConfig,
    /// Peripheral clock source configuration.
    pub peri_clk_src: Option<PeriClkSrc>,
    /// USB clock configuration.
    pub usb_clk: Option<UsbClkConfig>,
    /// ADC clock configuration.
    pub adc_clk: Option<AdcClkConfig>,
}

/// HAL configuration: the clock configuration to apply when the HAL is
/// initialised (`None` keeps the HAL's default clocks).
#[derive(Debug, Clone, Copy, PartialEq, Eq, Structural)]
pub struct HalConfig {
    pub clocks: Option<ClockConfig>,
}

impl Default for HalConfig {
    fn default() -> (config: Self)
        ensures
            config.clocks is None,
    {
        HalConfig { clocks: None }
    }
}

/// Crystal frequency in whole MHz.
pub open spec fn xosc_mhz(xosc_freq_hz: u32) -> int {
    xosc_freq_hz as int / 1_000_000
}

/// VCO target frequency in MHz: the desired output times both post dividers.
pub open spec fn vco_target_mhz(desired_freq_mhz: u32, post_div1: u8, post_div2: u8) -> int {
    desired_freq_mhz as int * post_div1 as int * post_div2 as int
}

/// The PLL configuration that reaches `desired_freq_mhz` from a crystal of
/// `xosc_freq_hz` through the given post dividers:
/// `fbdiv = (desired_freq_mhz * post_div1 * post_div2) / xosc_freq_mhz`,
/// kept to its low 16 bits, with a reference divider of 1.
pub open spec fn pll_config_for(desired_freq_mhz: u32, xosc_freq_hz: u32, post_div1: u8, post_div2: u8) -> PllConfig {
    PllConfig {
        refdiv: 1,
        fbdiv: (vco_target_mhz(desired_freq_mhz, post_div1, post_div2) / xosc_mhz(xosc_freq_hz)) as u16,
        post_div1,
        post_div2,
    }
}

/// Whether `calculate_pll_config` can compute with these inputs: the
/// crystal runs at 1 MHz or more, and the VCO target, and its partial
/// product with the first post divider, fit in a `u32`.
pub open spec fn pll_inputs_ok(desired_freq_mhz: u32, xosc_freq_hz: u32, post_div1: u8, post_div2: u8) -> bool {
    &&& xosc_freq_hz >= 1_000_000
    &&& desired_freq_mhz as int * post_div1 as int <= u32::MAX
    &&& vco_target_mhz(desired_freq_mhz, post_div1, post_div2) <= u32::MAX
}

/// Whether `configure_all_clocks` can compute with these settings.
pub open spec fn clock_settings_ok(settings: ClockSettings) -> bool {
    &&& pll_inputs_ok(settings.system_frequency_mhz, settings.xosc_crystal_hz, 6, 2)
    &&& pll_inputs_ok(settings.usb_frequency_mhz, settings.xosc_crystal_hz, 6, 5)
    &&& settings.adc_frequency_mhz != 0
}

/// The clock configuration that `settings` call for.
pub open spec fn planned_clocks(settings: ClockSettings) -> ClockConfig {
    ClockConfig {
        xosc: Some(
            XoscConfig {
                hz: settings.xosc_crystal_hz,
                sys_pll: Some(pll_config_for(settings.system_frequency_mhz, settings.xosc_crystal_hz, 6, 2)),
                usb_pll: Some(pll_config_for(settings.usb_frequency_mhz, settings.xosc_crystal_hz, 6, 5)),
                delay_multiplier: 128,
            },
        ),
        sys_clk: SysClkConfig { src: SysClkSrc::PllSys, div_int: 1, div_frac: 0 },
        usb_clk: Some(UsbClkConfig { src: UsbClkSrc::PllUsb, div: 1, phase: 0 }),
        peri_clk_src: Some(PeriClkSrc::Sys),
        adc_clk: Some(
            AdcClkConfig {
                src: AdcClkSrc::PllUsb,
                div: (settings.usb_frequency_mhz / settings.adc_frequency_mhz) as u8,
                phase: 0,
            },
        ),
        ref_clk: RefClkConfig { src: RefClkSrc::Xosc, div: settings.reference_clock_divider },
    }
}

/// Calculate the PLL (Phase-Locked Loop) configuration for the system clock and USB clock
///
/// * `desired_freq_mhz` - Desired frequency in MHz
/// * `xosc_freq_hz` - Crystal oscillator frequency in Hz
/// * `post_div1` - Post divider 1 value
/// * `post_div2` - Post divider 2 value
///
/// The formula for calculating the PLL configuration is:
///    `fbdiv = (desired_freq_mhz * post_div1 * post_div2) / xosc_freq_mhz`
pub fn calculate_pll_config(desired_freq_mhz: u32, xosc_freq_hz: u32, post_div1: u8, post_div2: u8) -> (config: PllConfig)
    requires
        pll_inputs_ok(desired_freq_mhz, xosc_freq_hz, post_div1, post_div2),
    ensures
        config == pll_config_for(desired_freq_mhz, xosc_freq_hz, post_div1, post_div2),
{
    let refdiv = 1u8;
    let xosc_freq_mhz = xosc_freq_hz / HZ_PER_MHZ;
    let vco_target_mhz = desired_freq_mhz * post_div1 as u32 * post_div2 as u32;
    let fbdiv = vco_target_mhz / xosc_freq_mhz;
    PllConfig { refdiv, fbdiv: #[verifier::truncate] (fbdiv as u16), post_div1, post_div2 }
}

/// Configure all system clocks for RP2350
///
/// This function configures:
///   - System PLL and clock
///   - USB PLL and clock
///   - Peripheral clock source
///   - ADC clock
///   - Reference clock
pub fn configure_all_clocks(hal_configuration: &mut HalConfig, settings: ClockSettings) -> (r: &mut HalConfig)
    requires
        clock_settings_ok(settings),
    ensures
        r.clocks == Some(planned_clocks(settings)),
        *final(hal_configuration) == *final(r),
{
    let sys_pll_config = calculate_pll_config(settings.system_frequency_mhz, settings.xosc_crystal_hz, 6, 2);
    let usb_pll_config = calculate_pll_config(settings.usb_frequency_mhz, settings.xosc_crystal_hz, 6, 5);

    let xosc = Some(
        XoscConfig {
            hz: settings.xosc_crystal_hz,
            sys_pll: Some(sys_pll_config),
            usb_pll: Some(usb_pll_config),
            delay_multiplier: 128,
        },
    );
    let sys_clk = SysClkConfig { src: SysClkSrc::PllSys, div_int: 1, div_frac: 0 };
    let usb_clk = Some(UsbClkConfig { src: UsbClkSrc::PllUsb, div: 1, phase: 0 });

    // The peripheral clock always runs from the system clock; a divider
    // other than 1 is applied at runtime, not in the clock configuration.
    let peri_clk_src = Some(
        match settings.peripheral_clock_divider {
            1 => PeriClkSrc::Sys,
            _ => PeriClkSrc::Sys,
        },
    );

    let adc_clk = Some(
        AdcClkConfig {
            src: AdcClkSrc::PllUsb,
            div: #[verifier::truncate] ((settings.usb_frequency_mhz / settings.adc_frequency_mhz) as u8),
            phase: 0,
        },
    );
    let ref_clk = RefClkConfig { src: RefClkSrc::Xosc, div: settings.reference_clock_divider };

    hal_configuration.clocks = Some(
        ClockConfig { xosc, ref_clk, sys_clk, peri_clk_src, usb_clk, adc_clk },
    );
    hal_configuration
}

/// The absolute difference between two tick counts.
pub open spec fn abs_diff(a: u64, b: u64) -> int {
    if a >= b {
        a - b
    } else {
        b - a
    }
}

/// Whether `clock_accuracy_percent` can compute with these inputs.
pub open spec fn accuracy_inputs_ok(milliseconds: u64, measured_elapsed_us: u64) -> bool {
    &&& milliseconds >= 1
    &&& milliseconds * 1000 <= i64::MAX
    &&& measured_elapsed_us <= i64::MAX
    &&& abs_diff(measured_elapsed_us, (milliseconds * 1000) as u64) * 10000 <= u64::MAX
}

/// How far, in percent, a measured duration is off the expected one: the
/// whole percent and the hundredths of a percent, each kept to 32 bits.
pub open spec fn accuracy_percent(milliseconds: u64, measured_elapsed_us: u64) -> (u32, u32) {
    let expected = milliseconds * 1000;
    let diff = abs_diff(measured_elapsed_us, expected as u64);
    (((diff * 100) / expected) as u32, (((diff * 10000) / expected) % 100) as u32)
}

/// Clock accuracy: after waiting `milliseconds` on the timer and measuring
/// `measured_elapsed_us` microseconds on the system clock, how far off the
/// measurement is, as (whole percent, hundredths of a percent).
pub fn clock_accuracy_percent(milliseconds: u64, measured_elapsed_us: u64) -> (accuracy: (u32, u32))
    requires
        accuracy_inputs_ok(milliseconds, measured_elapsed_us),
    ensures
        accuracy == accuracy_percent(milliseconds, measured_elapsed_us),
{
    let expected_elapsed = milliseconds * 1000;
    let measured_diff: u64 = if measured_elapsed_us >= expected_elapsed {
        measured_elapsed_us - expected_elapsed
    } else {
        expected_elapsed - measured_elapsed_us
    };
    let accuracy_percent_int = #[verifier::truncate] (((measured_diff * 100) / expected_elapsed) as u32);
    let accuracy_percent_frac = #[verifier::truncate] (((measured_diff * 10000) / expected_elapsed % 100) as u32);
    (accuracy_percent_int, accuracy_percent_frac)
}

/// The printed accuracy is the deviation in percent truncated to two
/// decimals: the hundredths are below 100, and whole percent and hundredths
/// together make up `diff * 10000 / expected` whenever the whole percent
/// fits in 32 bits.
pub proof fn lemma_accuracy_two_decimals(milliseconds: u64, measured_elapsed_us: u64)
    requires
        accuracy_inputs_ok(milliseconds, measured_elapsed_us),
    ensures
        accuracy_percent(milliseconds, measured_elapsed_us).1 < 100,
        ({
            let expected = milliseconds * 1000;
            let diff = abs_diff(measured_elapsed_us, expected as u64);
            (diff * 100) / expected <= u32::MAX ==> accuracy_percent(milliseconds, measured_elapsed_us).0
                * 100 + accuracy_percent(milliseconds, measured_elapsed_us).1 == (diff * 10000)
                / expected
        }),
{
    let e = (milliseconds * 1000) as int;
    let diff = abs_diff(measured_elapsed_us, (milliseconds * 1000) as u64);
    let a = diff * 100;
    let q = (diff * 10000) / e;
    assert(diff * 10000 == 100 * a);
    vstd::arithmetic::div_mod::lemma_div_denominator(100 * a, e, 100);
    vstd::arithmetic::div_mod::lemma_div_multiples_vanish_quotient(100, a, e);
    assert(e * 100 == 100 * e);
    assert(q / 100 == a / e);
    vstd::arithmetic::div_mod::lemma_fundamental_div_mod(q, 100);
    vstd::arithmetic::div_mod::lemma_mod_bound(q, 100);
}

/// The system PLL runs at the requested frequency whenever the crystal is a
/// whole number of MHz that divides the VCO target and the feedback divider
/// fits in 16 bits: crystal MHz times `fbdiv`, over both post dividers,
/// gives back `desired_freq_mhz`.
pub proof fn lemma_pll_reaches_target(desired_freq_mhz: u32, xosc_freq_hz: u32, post_div1: u8, post_div2: u8)
    requires
        pll_inputs_ok(desired_freq_mhz, xosc_freq_hz, post_div1, post_div2),
        post_div1 >= 1,
        post_div2 >= 1,
        vco_target_mhz(desired_freq_mhz, post_div1, post_div2) % xosc_mhz(xosc_freq_hz) == 0,
        vco_target_mhz(desired_freq_mhz, post_div1, post_div2) / xosc_mhz(xosc_freq_hz) <= u16::MAX,
    ensures
        ({
            let c = pll_config_for(desired_freq_mhz, xosc_freq_hz, post_div1, post_div2);
            xosc_mhz(xosc_freq_hz) * c.fbdiv / (c.post_div1 * c.post_div2) == desired_freq_mhz
        }),
{
    let x = xosc_mhz(xosc_freq_hz);
    let v = vco_target_mhz(desired_freq_mhz, post_div1, post_div2);
    let f = v / x;
    assert(x * f == v) by (nonlinear_arith)
        requires
            x > 0,
            v % x == 0,
            f == v / x,
    {
        vstd::arithmetic::div_mod::lemma_fundamental_div_mod(v, x);
    }
    let d = post_div1 * post_div2;
    assert(d >= 1) by (nonlinear_arith)
        requires
            post_div1 >= 1,
            post_div2 >= 1,
            d == post_div1 * post_div2,
    ;
    assert(v == desired_freq_mhz * d) by (nonlinear_arith)
        requires
            v == desired_freq_mhz * post_div1 * post_div2,
            d == post_div1 * post_div2,
    ;
    assert((desired_freq_mhz * d) / d == desired_freq_mhz) by (nonlinear_arith)
        requires
            d >= 1,
    ;
}

/// The peripheral clock is sourced from the system clock whatever divider
/// the settings give.
pub proof fn lemma_peripheral_clock_from_system(settings: ClockSettings)
    ensures
        planned_clocks(settings).peri_clk_src == Some(PeriClkSrc::Sys),
{
}

/// The planned clocks, field by field, in terms of the settings: a crystal
/// oscillator at the crystal's frequency with a delay multiplier of 128;
/// a system PLL with post dividers 6 and 2 whose feedback divider is
/// `system MHz * 12 / crystal MHz` and a USB PLL with post dividers 6 and 5
/// whose feedback divider is `usb MHz * 30 / crystal MHz` (each kept to 16
/// bits, reference divider 1); the system clock from the system PLL
/// undivided; USB and ADC clocks from the USB PLL, the ADC divided by
/// `usb MHz / adc MHz` (kept to 8 bits); the peripheral clock from the
/// system clock; and the reference clock from the crystal with the
/// configured divider.
pub proof fn lemma_planned_clocks_fields(settings: ClockSettings)
    ensures
        ({
            let c = planned_clocks(settings);
            let crystal_mhz = settings.xosc_crystal_hz as int / 1_000_000;
            &&& c.xosc matches Some(x) && {
                &&& x.hz == settings.xosc_crystal_hz
                &&& x.delay_multiplier == 128
                &&& x.sys_pll matches Some(p) && {
                    &&& p.refdiv == 1
                    &&& p.post_div1 == 6
                    &&& p.post_div2 == 2
                    &&& p.fbdiv == ((settings.system_frequency_mhz as int * 12) / crystal_mhz) as u16
                }
                &&& x.usb_pll matches Some(p) && {
                    &&& p.refdiv == 1
                    &&& p.post_div1 == 6
                    &&& p.post_div2 == 5
                    &&& p.fbdiv == ((settings.usb_frequency_mhz as int * 30) / crystal_mhz) as u16
                }
            }
            &&& c.sys_clk.src == SysClkSrc::PllSys
            &&& c.sys_clk.div_int == 1
            &&& c.sys_clk.div_frac == 0
            &&& c.usb_clk == Some(UsbClkConfig { src: UsbClkSrc::PllUsb, div: 1, phase: 0 })
            &&& c.peri_clk_src == Some(PeriClkSrc::Sys)
            &&& c.adc_clk matches Some(a) && {
                &&& a.src == AdcClkSrc::PllUsb
                &&& a.div == (settings.usb_frequency_mhz / settings.adc_frequency_mhz) as u8
                &&& a.phase == 0
            }
            &&& c.ref_clk.src == RefClkSrc::Xosc
            &&& c.ref_clk.div == settings.reference_clock_divider
        }),
{
    let d = settings.system_frequency_mhz as int;
    let u = settings.usb_frequency_mhz as int;
    assert(d * 6 * 2 == d * 12);
    assert(u * 6 * 5 == u * 30);
}

/// The planned PLLs run at the configured frequencies: whenever the crystal
/// runs at a whole number of MHz that divides `system MHz * 12` (resp.
/// `usb MHz * 30`) and the quotient fits in 16 bits, crystal MHz times the
/// feedback divider over both post dividers is the configured system
/// (resp. USB) frequency.
pub proof fn lemma_planned_plls_reach_settings(settings: ClockSettings)
    requires
        clock_settings_ok(settings),
    ensures
        ({
            let crystal_mhz = settings.xosc_crystal_hz as int / 1_000_000;
            let x = planned_clocks(settings).xosc->Some_0;
            &&& (settings.system_frequency_mhz as int * 12) % crystal_mhz == 0
                && (settings.system_frequency_mhz as int * 12) / crystal_mhz <= u16::MAX ==> {
                let p = x.sys_pll->Some_0;
                crystal_mhz * p.fbdiv / (p.post_div1 * p.post_div2) == settings.system_frequency_mhz
            }
            &&& (settings.usb_frequency_mhz as int * 30) % crystal_mhz == 0
                && (settings.usb_frequency_mhz as int * 30) / crystal_mhz <= u16::MAX ==> {
                let p = x.usb_pll->Some_0;
                crystal_mhz * p.fbdiv / (p.post_div1 * p.post_div2) == settings.usb_frequency_mhz
            }
        }),
{
    let d = settings.system_frequency_mhz as int;
    let u = settings.usb_frequency_mhz as int;
    assert(d * 6 * 2 == d * 12);
    assert(u * 6 * 5 == u * 30);
    if (d * 12) % xosc_mhz(settings.xosc_crystal_hz) == 0 && (d * 12) / xosc_mhz(settings.xosc_crystal_hz) <= u16::MAX {
        lemma_pll_reaches_target(settings.system_frequency_mhz, settings.xosc_crystal_hz, 6, 2);
    }
    if (u * 30) % xosc_mhz(settings.xosc_crystal_hz) == 0 && (u * 30) / xosc_mhz(settings.xosc_crystal_hz) <= u16::MAX {
        lemma_pll_reaches_target(settings.usb_frequency_mhz, settings.xosc_crystal_hz, 6, 5);
    }
}

/// What `calculate_pll_config` gives, in terms of its inputs: reference
/// divider 1, the post dividers as given, and the feedback divider
/// `desired * post_div1 * post_div2 / crystal MHz` kept to 16 bits.
pub proof fn lemma_pll_config_fields(desired_freq_mhz: u32, xosc_freq_hz: u32, post_div1: u8, post_div2: u8)
    ensures
        ({
            let c = pll_config_for(desired_freq_mhz, xosc_freq_hz, post_div1, post_div2);
            &&& c.refdiv == 1
            &&& c.post_div1 == post_div1
            &&& c.post_div2 == post_div2
            &&& c.fbdiv == ((desired_freq_mhz as int * post_div1 as int * post_div2 as int) / (
            xosc_freq_hz as int / 1_000_000)) as u16
        }),
{
}

/// The accuracy figure, in terms of the inputs: with `expected = 1000 *
/// milliseconds` microseconds and `d` the distance between the measured and
/// the expected duration (`d + min == max` of the two), the whole percent is
/// `d * 100 / expected` and the hundredths are `d * 10000 / expected` modulo
/// 100, each kept to 32 bits. A clock measured fast or slow by the same
/// amount is equally far off.
pub proof fn lemma_accuracy_from_difference(milliseconds: u64, measured_elapsed_us: u64)
    requires
        accuracy_inputs_ok(milliseconds, measured_elapsed_us),
    ensures
        ({
            let expected = milliseconds as int * 1000;
            let measured = measured_elapsed_us as int;
            let a = accuracy_percent(milliseconds, measured_elapsed_us);
            &&& measured < expected ==> a == (
                (((expected - measured) * 100) / expected) as u32,
                ((((expected - measured) * 10000) / expected) % 100) as u32,
            )
            &&& measured >= expected ==> a == (
                (((measured - expected) * 100) / expected) as u32,
                ((((measured - expected) * 10000) / expected) % 100) as u32,
            )
        }),
{
}

/// Measuring fast or slow by the same number of microseconds gives the same
/// accuracy figure.
pub proof fn lemma_accuracy_symmetric(milliseconds: u64, offset: u64)
    requires
        accuracy_inputs_ok(milliseconds, (milliseconds * 1000 + offset) as u64),
        offset <= milliseconds * 1000,
    ensures
        accuracy_percent(milliseconds, (milliseconds * 1000 + offset) as u64) == accuracy_percent(
            milliseconds,
            (milliseconds * 1000 - offset) as u64,
        ),
{
}

} // verus!
