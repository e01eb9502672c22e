use robot_lab::clocks::{
    init_clocks, init_generators, init_pll, init_pll_sys, init_pll_usb, init_watchdog, init_xosc, pll_sys_config,
    pll_usb_config, ref_xosc_selected, sys_aux_selected, watchdog_tick_cycles, ClockStep, Pll,
    PllConfig, XTAL_FREQ_HZ,
};

#[test]
fn pll_settings_give_125_mhz() {
    let c = pll_sys_config();
    assert_eq!(c, PllConfig { refdiv: 1, fbdiv: 125, postdiv1: 6, postdiv2: 2 });
    let vco = XTAL_FREQ_HZ as u64 / c.refdiv as u64 * c.fbdiv as u64;
    assert_eq!(vco, 1_500_000_000);
    assert_eq!(vco / (c.postdiv1 as u64 * c.postdiv2 as u64), 125_000_000);
}

#[test]
fn usb_pll_settings_give_48_mhz() {
    let u = pll_usb_config();
    assert_eq!(u, PllConfig { refdiv: 1, fbdiv: 100, postdiv1: 5, postdiv2: 5 });
    let vco = XTAL_FREQ_HZ as u64 / u.refdiv as u64 * u.fbdiv as u64;
    assert_eq!(vco, 1_200_000_000);
    assert_eq!(vco / (u.postdiv1 as u64 * u.postdiv2 as u64), 48_000_000);
}

#[test]
fn watchdog_ticks_every_microsecond() {
    assert_eq!(watchdog_tick_cycles(), 12);
    assert_eq!(init_watchdog(), vec![ClockStep::WatchdogEnable, ClockStep::WatchdogTick(12)]);
}

#[test]
fn selection_masks_come_from_source_indexes() {
    assert_eq!(ref_xosc_selected(), 4);
    assert_eq!(sys_aux_selected(), 2);
}

#[test]
fn xosc_steps() {
    assert_eq!(
        init_xosc(),
        vec![
            ClockStep::XoscConfigure,
            ClockStep::XoscStartupDelay(2944),
            ClockStep::XoscEnable,
            ClockStep::XoscWaitStable
        ]
    );
}

#[test]
fn pll_steps_move_sys_to_ref_first() {
    let c = PllConfig { refdiv: 2, fbdiv: 100, postdiv1: 5, postdiv2: 1 };
    let v = init_pll(Pll::Usb, c);
    assert_eq!(v.len(), 10);
    assert_eq!(v[0], ClockStep::SysSelectRef);
    assert_eq!(v[1], ClockStep::WaitSysSelected(1));
    assert_eq!(v[2], ClockStep::PllReleaseReset(Pll::Usb));
    assert_eq!(v[4], ClockStep::PllRefdiv(Pll::Usb, 2));
    assert_eq!(v[5], ClockStep::PllFbdiv(Pll::Usb, 100));
    assert_eq!(v[7], ClockStep::PllWaitLock(Pll::Usb));
    assert_eq!(v[8], ClockStep::PllPostdiv(Pll::Usb, 5, 1));
    assert_eq!(v[9], ClockStep::PllPostdivPowerUp(Pll::Usb));
    assert_eq!(init_pll_sys()[4], ClockStep::PllRefdiv(Pll::Sys, 1));
    assert_eq!(init_pll_usb()[5], ClockStep::PllFbdiv(Pll::Usb, 100));
    assert_eq!(init_pll_usb()[8], ClockStep::PllPostdiv(Pll::Usb, 5, 5));
    assert_eq!(init_pll_sys()[8], ClockStep::PllPostdiv(Pll::Sys, 6, 2));
}

#[test]
fn generator_steps_disable_before_aux_change() {
    let g = init_generators();
    assert_eq!(g.len(), 18);
    assert_eq!(g[2], ClockStep::WaitRefSelected(4));
    assert_eq!(g[9], ClockStep::WaitSysSelected(2));
    let adc = g.iter().position(|s| *s == ClockStep::AdcAuxPllUsb).unwrap();
    assert_eq!(g[adc - 1], ClockStep::AdcEnable(false));
    assert_eq!(g[adc + 1], ClockStep::AdcEnable(true));
    let peri = g.iter().position(|s| *s == ClockStep::PeriAuxClkSys).unwrap();
    assert_eq!(g[peri - 1], ClockStep::PeriEnable(false));
    assert_eq!(g[peri + 1], ClockStep::PeriEnable(true));
}

#[test]
fn whole_bring_up_order() {
    let v = init_clocks();
    assert_eq!(v.len(), 4 + 2 + 10 + 10 + 18);
    assert_eq!(v[0], ClockStep::XoscConfigure);
    assert_eq!(v[6], ClockStep::SysSelectRef);
    assert_eq!(v[8], ClockStep::PllReleaseReset(Pll::Sys));
    assert_eq!(v[18], ClockStep::PllReleaseReset(Pll::Usb));
    assert_eq!(v[43], ClockStep::PeriEnable(true));
}
