use clocktree::config::{Config, Hertz};
use clocktree::plan::{PlanError, SystemClockSwitch};
use clocktree::rcc::Rcc;
use clocktree::sequencer::Action;

fn drain(rcc: Rcc) -> (Vec<Action>, clocktree::plan::Clocks) {
    let mut seq = rcc.freeze().expect("configuration must plan");
    let mut actions = Vec::new();
    assert_eq!(seq.clocks(), None);
    assert!(!seq.is_complete());
    while let Some(a) = seq.next_action() {
        actions.push(a);
    }
    assert!(seq.is_complete());
    let clocks = seq.clocks().expect("snapshot must exist after completion");
    (actions, clocks)
}

#[test]
fn sequence_without_pll() {
    let (actions, clocks) = drain(Rcc::new(Config::default()));
    assert_eq!(
        actions,
        vec![
            Action::SetPllSource { source_external: false },
            Action::SetFlashLatency { code: 0 },
            Action::SetPrescalers { hpre_code: 0, ppre1_code: 0, ppre2_code: 0 },
            Action::WaitPrescalerSettle { ahb_cycles: 16 },
            Action::SwitchSystemClock { source: SystemClockSwitch::Internal },
        ]
    );
    assert_eq!(clocks.sys, Hertz(16_000_000));
}

#[test]
fn sequence_for_pll_config() {
    let mut config = Config::default();
    config.hse = Some(Hertz(8_000_000));
    config.sys_ck = Some(Hertz(168_000_000));
    config.pclk1 = Some(Hertz(42_000_000));
    config.pclk2 = Some(Hertz(84_000_000));
    let (actions, clocks) = drain(Rcc::new(config));
    assert_eq!(
        actions,
        vec![
            Action::ConfigurePll {
                pllm: 4,
                plln: 168,
                pllp_code: 0,
                pllq: 7,
                source_external: true,
            },
            Action::SetFlashLatency { code: 5 },
            Action::EnableExternalOscillator { bypass: false },
            Action::WaitExternalOscillatorReady,
            Action::EnablePll,
            Action::WaitPllReady,
            Action::SetPrescalers { hpre_code: 0, ppre1_code: 5, ppre2_code: 4 },
            Action::WaitPrescalerSettle { ahb_cycles: 16 },
            Action::SwitchSystemClock { source: SystemClockSwitch::Pll },
        ]
    );
    assert_eq!(clocks.sys, Hertz(168_000_000));
    assert_eq!(clocks.apb1, Hertz(42_000_000));
    assert_eq!(clocks.apb2, Hertz(84_000_000));
}

#[test]
fn sequence_with_overdrive() {
    let mut config = Config::default();
    config.hse = Some(Hertz(8_000_000));
    config.sys_ck = Some(Hertz(180_000_000));
    config.pclk1 = Some(Hertz(22_500_000));
    let (actions, clocks) = drain(Rcc::new(config));
    assert_eq!(
        actions,
        vec![
            Action::ConfigurePll {
                pllm: 4,
                plln: 180,
                pllp_code: 0,
                pllq: 8,
                source_external: true,
            },
            Action::SetFlashLatency { code: 5 },
            Action::EnableExternalOscillator { bypass: false },
            Action::WaitExternalOscillatorReady,
            Action::EnablePll,
            Action::EnablePowerController,
            Action::EnableOverdrive,
            Action::WaitOverdriveReady,
            Action::EnableOverdriveSwitch,
            Action::WaitOverdriveSwitchReady,
            Action::WaitPllReady,
            Action::SetPrescalers { hpre_code: 0, ppre1_code: 6, ppre2_code: 5 },
            Action::WaitPrescalerSettle { ahb_cycles: 16 },
            Action::SwitchSystemClock { source: SystemClockSwitch::Pll },
        ]
    );
    assert_eq!(clocks.sys, Hertz(180_000_000));
    assert_eq!(clocks.apb1, Hertz(22_500_000));
    assert_eq!(clocks.apb2, Hertz(45_000_000));
    assert_eq!(clocks.apb1_tim, Hertz(45_000_000));
    assert_eq!(clocks.apb2_tim, Hertz(90_000_000));
}

#[test]
fn sequence_with_debug_and_bypass() {
    let mut config = Config::default();
    config.hse = Some(Hertz(25_000_000));
    config.bypass_hse = true;
    config.enable_debug_wfe = true;
    let (actions, _clocks) = drain(Rcc::new(config));
    assert_eq!(actions.first(), Some(&Action::SetPllSource { source_external: true }));
    assert_eq!(actions[2], Action::EnableExternalOscillator { bypass: true });
    assert_eq!(actions.last(), Some(&Action::EnableDebug));
}

#[test]
fn freeze_rejects_infeasible_config() {
    let mut config = Config::default();
    config.sys_ck = Some(Hertz(300_000_000));
    match Rcc::new(config).freeze() {
        Ok(_) => panic!("an out-of-range target must not sequence"),
        Err(e) => assert_eq!(e, PlanError::SystemTargetOutOfRange),
    }
}
