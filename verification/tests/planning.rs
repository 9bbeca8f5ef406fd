use clocktree::config::{ChipLimits, Config, Hertz};
use clocktree::plan::{PlanError, SystemClockSwitch};
use clocktree::planner::plan;

fn standard() -> ChipLimits {
    ChipLimits::standard()
}

#[test]
fn internal_oscillator_defaults() {
    let config = Config::default();
    let p = plan(&config, &standard()).expect("default config must plan");
    assert!(!p.pll.use_pll);
    assert_eq!(p.sw, SystemClockSwitch::Internal);
    assert_eq!(p.flash_latency, 0);
    let c = p.clocks();
    assert_eq!(c.sys, Hertz(16_000_000));
    assert_eq!(c.ahb1, Hertz(16_000_000));
    assert_eq!(c.apb1, Hertz(16_000_000));
    assert_eq!(c.apb2, Hertz(16_000_000));
    assert_eq!(c.apb1_tim, Hertz(16_000_000));
    assert_eq!(c.apb2_tim, Hertz(16_000_000));
    assert_eq!(c.pll48, None);
}

#[test]
fn external_pll_168mhz() {
    let mut config = Config::default();
    config.hse = Some(Hertz(8_000_000));
    config.sys_ck = Some(Hertz(168_000_000));
    config.pclk1 = Some(Hertz(42_000_000));
    config.pclk2 = Some(Hertz(84_000_000));
    let p = plan(&config, &standard()).expect("168 MHz config must plan");
    assert!(p.pll.use_pll);
    // Input divisor 4 puts the VCO input at 2 MHz, the top of the band.
    assert_eq!(p.pll.pllm, 4);
    assert_eq!(p.pll.plln, 168);
    assert_eq!(p.pll.pllp_code, 0);
    assert_eq!(p.pll.pllq, 7);
    assert_eq!(p.sw, SystemClockSwitch::Pll);
    assert_eq!(p.flash_latency, 5);
    assert_eq!(p.prescalers.ppre1_div, 4);
    assert_eq!(p.prescalers.ppre2_div, 2);
    assert_eq!(p.prescalers.timer_mul1, 2);
    assert_eq!(p.prescalers.timer_mul2, 2);
    let c = p.clocks();
    assert_eq!(c.sys, Hertz(168_000_000));
    assert_eq!(c.ahb1, Hertz(168_000_000));
    assert_eq!(c.apb1, Hertz(42_000_000));
    assert_eq!(c.apb2, Hertz(84_000_000));
    assert_eq!(c.apb1_tim, Hertz(84_000_000));
    assert_eq!(c.apb2_tim, Hertz(168_000_000));
}

#[test]
fn precise_usb_tap_from_25mhz() {
    let mut config = Config::default();
    config.hse = Some(Hertz(25_000_000));
    config.pll48 = true;
    let p = plan(&config, &standard()).expect("25 MHz tap config must plan");
    assert!(p.pll.use_pll);
    let tap = p.pll.pll48clk.expect("a tap must be planned");
    assert!((48_000_000i64 - tap as i64).abs() <= 120_000);
    assert_eq!(tap, 48_000_000);
    // The system itself still runs straight from the oscillator.
    let c = p.clocks();
    assert_eq!(c.sys, Hertz(25_000_000));
    assert_eq!(c.pll48, Some(Hertz(48_000_000)));
    assert_eq!(p.sw, SystemClockSwitch::External);
}

#[test]
fn usb_tap_infeasible_fails() {
    // One input divisor only (the source is just under 2 MHz), and every
    // USB output divisor lands 199176 Hz short of 48 MHz.
    let mut config = Config::default();
    config.hse = Some(Hertz(1_991_701));
    config.pll48 = true;
    assert_eq!(plan(&config, &standard()), Err(PlanError::UsbTapOutOfTolerance));
}

#[test]
fn planning_is_deterministic() {
    let mut config = Config::default();
    config.hse = Some(Hertz(8_000_000));
    config.sys_ck = Some(Hertz(168_000_000));
    config.pclk1 = Some(Hertz(42_000_000));
    config.pclk2 = Some(Hertz(84_000_000));
    let first = plan(&config, &standard());
    let second = plan(&config, &standard());
    assert_eq!(first, second);
    let bad = {
        let mut c = Config::default();
        c.sys_ck = Some(Hertz(300_000_000));
        c
    };
    assert_eq!(plan(&bad, &standard()), plan(&bad, &standard()));
}

#[test]
fn flash_code_monotone_scenario() {
    let mut low = Config::default();
    low.hse = Some(Hertz(8_000_000));
    low.sys_ck = Some(Hertz(120_000_000));
    let mut high = low;
    high.sys_ck = Some(Hertz(168_000_000));
    let p_low = plan(&low, &standard()).expect("120 MHz must plan");
    let p_high = plan(&high, &standard()).expect("168 MHz must plan");
    assert_eq!(p_low.flash_latency, 3);
    assert_eq!(p_high.flash_latency, 5);
    assert!(p_low.flash_latency <= p_high.flash_latency);
}

#[test]
fn system_target_above_reach() {
    let mut config = Config::default();
    config.sys_ck = Some(Hertz(300_000_000));
    assert_eq!(plan(&config, &standard()), Err(PlanError::SystemTargetOutOfRange));
}

#[test]
fn slow_source_cannot_feed_pll() {
    let mut config = Config::default();
    config.hse = Some(Hertz(500_000));
    config.sys_ck = Some(Hertz(100_000_000));
    assert_eq!(plan(&config, &standard()), Err(PlanError::PllSourceOutOfRange));
}

#[test]
fn apb1_target_unreachable() {
    let mut config = Config::default();
    config.hse = Some(Hertz(8_000_000));
    config.sys_ck = Some(Hertz(168_000_000));
    config.pclk1 = Some(Hertz(100_000_000));
    config.pclk2 = Some(Hertz(84_000_000));
    assert_eq!(plan(&config, &standard()), Err(PlanError::Apb1OutOfRange));
}

#[test]
fn apb2_target_unreachable() {
    let mut config = Config::default();
    config.hse = Some(Hertz(8_000_000));
    config.sys_ck = Some(Hertz(168_000_000));
    config.pclk1 = Some(Hertz(42_000_000));
    config.pclk2 = Some(Hertz(168_000_000));
    assert_eq!(plan(&config, &standard()), Err(PlanError::Apb2OutOfRange));
}

#[test]
fn zero_oscillator_rejected() {
    let mut config = Config::default();
    config.hse = Some(Hertz(0));
    assert_eq!(plan(&config, &standard()), Err(PlanError::ZeroSystemClock));
}

#[test]
fn zero_ahb_target_rejected() {
    let mut config = Config::default();
    config.hclk = Some(Hertz(0));
    assert_eq!(plan(&config, &standard()), Err(PlanError::ZeroAhbTarget));
}

#[test]
fn ahb_divided_to_nothing() {
    let mut config = Config::default();
    config.hse = Some(Hertz(500));
    config.hclk = Some(Hertz(1));
    assert_eq!(plan(&config, &standard()), Err(PlanError::AhbTooLow));
}

#[test]
fn zero_apb1_target_rejected() {
    let mut config = Config::default();
    config.pclk1 = Some(Hertz(0));
    assert_eq!(plan(&config, &standard()), Err(PlanError::ZeroApb1Target));
}

#[test]
fn zero_apb2_target_rejected() {
    let mut config = Config::default();
    config.pclk2 = Some(Hertz(0));
    assert_eq!(plan(&config, &standard()), Err(PlanError::ZeroApb2Target));
}

#[test]
fn bus_limits_hold_on_success() {
    let limits = standard();
    let mut config = Config::default();
    config.hse = Some(Hertz(8_000_000));
    config.sys_ck = Some(Hertz(168_000_000));
    config.pclk1 = Some(Hertz(42_000_000));
    config.pclk2 = Some(Hertz(84_000_000));
    let c = plan(&config, &limits).expect("must plan").clocks();
    assert!(c.apb1.0 <= limits.pclk1_max);
    assert!(c.apb2.0 <= limits.pclk2_max);
    assert!(c.ahb1.0 <= c.sys.0);
}

#[test]
fn custom_limits_are_enforced() {
    let tight = ChipLimits::new(10_000_000, 20_000_000);
    let mut config = Config::default();
    // 16 MHz internal source with a 16 MHz APB1 exceeds a 10 MHz cap.
    config.pclk1 = Some(Hertz(16_000_000));
    assert_eq!(plan(&config, &tight), Err(PlanError::Apb1OutOfRange));
}
