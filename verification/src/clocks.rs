use vstd::prelude::*;

verus! {

/// Frequency of the crystal oscillator.
pub const XTAL_FREQ_HZ: u32 = 12_000_000u32;

/// Start-up delay programmed into the crystal oscillator.
pub const XOSC_STARTUP_DELAY: u16 = 2944;

/// Integer divider of the reference clock generator.
pub const REF_DIV: u8 = 1;

/// Integer divider of the system clock generator.
pub const SYS_DIV: u32 = 1;

/// Integer divider of the ADC clock generator.
pub const ADC_DIV: u8 = 1;

/// Value of CLK_SYS_SELECTED while the system clock runs from clk_ref.
pub const CLK_SYS_REF_SELECTED: u32 = 1;

/// Settings of one PLL.
#[derive(Clone, Copy, Debug, PartialEq, Eq, Structural)]
pub struct PllConfig {
    pub refdiv: u8,
    pub fbdiv: u16,
    pub postdiv1: u8,
    pub postdiv2: u8,
}

/// VCO frequency of a PLL fed with `xtal_hz`.
pub open spec fn pll_vco_hz(xtal_hz: int, c: PllConfig) -> int {
    xtal_hz / (c.refdiv as int) * (c.fbdiv as int)
}

/// Output frequency of a PLL fed with `xtal_hz`.
pub open spec fn pll_output_hz(xtal_hz: int, c: PllConfig) -> int {
    pll_vco_hz(xtal_hz, c) / ((c.postdiv1 as int) * (c.postdiv2 as int))
}

/// The ranges the RP2040 datasheet allows: reference divider 1..=63,
/// feedback divider 16..=320, post dividers 1..=7 with the first not below
/// the second, and a VCO between 750 MHz and 1600 MHz.
pub open spec fn pll_config_valid(xtal_hz: int, c: PllConfig) -> bool {
    &&& 1 <= c.refdiv <= 63
    &&& 16 <= c.fbdiv <= 320
    &&& 1 <= c.postdiv2 <= c.postdiv1 <= 7
    &&& 750_000_000 <= pll_vco_hz(xtal_hz, c) <= 1_600_000_000
}

/// Settings of the system PLL: 12 MHz / 1 * 125 = 1500 MHz VCO, divided by
/// 6 and by 2.
pub open spec fn spec_pll_sys_config() -> PllConfig {
    PllConfig { refdiv: 1, fbdiv: 125, postdiv1: 6, postdiv2: 2 }
}

/// Settings of the USB PLL: 12 MHz / 1 * 100 = 1200 MHz VCO, divided by 5
/// and by 5.
pub open spec fn spec_pll_usb_config() -> PllConfig {
    PllConfig { refdiv: 1, fbdiv: 100, postdiv1: 5, postdiv2: 5 }
}

pub(crate) proof fn lemma_pll_frequencies()
    ensures
        pll_vco_hz(XTAL_FREQ_HZ as int, spec_pll_sys_config()) == 1_500_000_000,
        pll_output_hz(XTAL_FREQ_HZ as int, spec_pll_sys_config()) == 125_000_000,
        pll_vco_hz(XTAL_FREQ_HZ as int, spec_pll_usb_config()) == 1_200_000_000,
        pll_output_hz(XTAL_FREQ_HZ as int, spec_pll_usb_config()) == 48_000_000,
{
    let c = spec_pll_sys_config();
    assert(pll_vco_hz(XTAL_FREQ_HZ as int, c) == 12_000_000 * 125) by (nonlinear_arith)
        requires
            c.refdiv == 1,
            c.fbdiv == 125,
    ;
    assert(1_500_000_000int / 12 == 125_000_000) by (nonlinear_arith);
    let u = spec_pll_usb_config();
    assert(pll_vco_hz(XTAL_FREQ_HZ as int, u) == 12_000_000 * 100) by (nonlinear_arith)
        requires
            u.refdiv == 1,
            u.fbdiv == 100,
    ;
    assert(1_200_000_000int / 25 == 48_000_000) by (nonlinear_arith);
}

/// Settings of the system PLL: a 125 MHz system clock from the 12 MHz
/// crystal, within the datasheet's limits.
pub fn pll_sys_config() -> (c: PllConfig)
    ensures
        c == spec_pll_sys_config(),
        pll_config_valid(XTAL_FREQ_HZ as int, c),
        pll_vco_hz(XTAL_FREQ_HZ as int, c) == 1_500_000_000,
        pll_output_hz(XTAL_FREQ_HZ as int, c) == 125_000_000,
{
    proof {
        lemma_pll_frequencies();
    }
    PllConfig { refdiv: 1, fbdiv: 125, postdiv1: 6, postdiv2: 2 }
}

/// Settings of the USB PLL: the datasheet's 48 MHz for the USB and ADC
/// clocks from the 12 MHz crystal, within the datasheet's limits.
pub fn pll_usb_config() -> (c: PllConfig)
    ensures
        c == spec_pll_usb_config(),
        pll_config_valid(XTAL_FREQ_HZ as int, c),
        pll_vco_hz(XTAL_FREQ_HZ as int, c) == 1_200_000_000,
        pll_output_hz(XTAL_FREQ_HZ as int, c) == 48_000_000,
{
    proof {
        lemma_pll_frequencies();
    }
    PllConfig { refdiv: 1, fbdiv: 100, postdiv1: 5, postdiv2: 5 }
}

/// Cycles of the crystal per watchdog tick: one tick per microsecond.
pub fn watchdog_tick_cycles() -> (c: u16)
    ensures
        c == XTAL_FREQ_HZ / 1_000_000,
        c == 12,
{
    (XTAL_FREQ_HZ / 1_000_000) as u16
}

/// Index of the crystal oscillator among the sources of clk_ref. Calls
/// rp2040-pac's `From<clocks::clk_ref_ctrl::SRC_A> for u8` on `XOSC_CLKSRC`;
/// the contract claims the result is 2, the discriminant that crate declares
/// for that variant (`XOSC_CLKSRC = 2`, converted by `variant as _`).
#[verifier::external_body]
fn ref_src_xosc_index() -> (i: u8)
    ensures
        i == 2,
{
    u8::from(rp2040_pac::clocks::clk_ref_ctrl::SRC_A::XOSC_CLKSRC)
}

/// Index of the auxiliary mux among the sources of clk_sys. Casts
/// rp2040-pac's `clocks::clk_sys_ctrl::SRC_A::CLKSRC_CLK_SYS_AUX` to `u8`;
/// the contract claims the result is 1, the discriminant that crate declares
/// for that variant.
#[verifier::external_body]
fn sys_src_aux_index() -> (i: u8)
    ensures
        i == 1,
{
    rp2040_pac::clocks::clk_sys_ctrl::SRC_A::CLKSRC_CLK_SYS_AUX as u8
}

/// CLK_REF_SELECTED once clk_ref runs from the crystal oscillator: the
/// register is one-hot in the source index.
pub fn ref_xosc_selected() -> (m: u32)
    ensures
        m == 1u32 << 2u8,
        m == 4,
{
    let i = ref_src_xosc_index();
    assert(1u32 << 2u8 == 4) by (bit_vector);
    1u32 << i
}

/// CLK_SYS_SELECTED once clk_sys runs from its auxiliary mux: the register
/// is one-hot in the source index.
pub fn sys_aux_selected() -> (m: u32)
    ensures
        m == 1u32 << 1u8,
        m == 2,
{
    let i = sys_src_aux_index();
    assert(1u32 << 1u8 == 2) by (bit_vector);
    1u32 << i
}


/// One of the two PLLs.
#[derive(Clone, Copy, Debug, PartialEq, Eq, Structural)]
pub enum Pll {
    Sys,
    Usb,
}

/// One register operation of the clock bring-up, in the order performed.
#[derive(Clone, Copy, Debug, PartialEq, Eq, Structural)]
pub enum ClockStep {
    /// XOSC_CTRL: frequency range 1-15 MHz, enable.
    XoscConfigure,
    /// XOSC_STARTUP: start-up delay.
    XoscStartupDelay(u16),
    /// XOSC_CTRL: enable.
    XoscEnable,
    /// Wait until XOSC_STATUS reports the oscillator stable.
    XoscWaitStable,
    /// WATCHDOG_CTRL: enable.
    WatchdogEnable,
    /// WATCHDOG_TICK: cycles per tick.
    WatchdogTick(u16),
    /// CLK_SYS_CTRL.SRC: clk_ref.
    SysSelectRef,
    /// CLK_SYS_CTRL.SRC: the auxiliary mux.
    SysSelectAux,
    /// CLK_SYS_CTRL.AUXSRC: the system PLL.
    SysAuxPllSys,
    /// Wait until CLK_SYS_SELECTED reads this value.
    WaitSysSelected(u32),
    /// Take the PLL out of reset and wait until the reset is done.
    PllReleaseReset(Pll),
    /// PWR: back to its reset value, everything powered down.
    PllPowerDefaults(Pll),
    /// CS.REFDIV.
    PllRefdiv(Pll, u8),
    /// FBDIV_INT.
    PllFbdiv(Pll, u16),
    /// PWR: power up the PLL and its VCO.
    PllPowerUp(Pll),
    /// Wait until CS.LOCK is set.
    PllWaitLock(Pll),
    /// PRIM: post dividers 1 and 2.
    PllPostdiv(Pll, u8, u8),
    /// PWR: power up the post dividers.
    PllPostdivPowerUp(Pll),
    /// CLK_REF_DIV.INT.
    RefDiv(u8),
    /// CLK_REF_CTRL.SRC: the crystal oscillator.
    RefSelectXosc,
    /// Wait until CLK_REF_SELECTED reads this value.
    WaitRefSelected(u32),
    /// CLK_SYS_DIV.INT.
    SysDiv(u32),
    /// CLK_ADC_DIV.INT.
    AdcDiv(u8),
    /// CLK_ADC_CTRL.ENABLE.
    AdcEnable(bool),
    /// CLK_ADC_CTRL.AUXSRC: the USB PLL.
    AdcAuxPllUsb,
    /// CLK_PERI_CTRL.ENABLE.
    PeriEnable(bool),
    /// CLK_PERI_CTRL.AUXSRC: clk_sys.
    PeriAuxClkSys,
}

/// Start-up of the crystal oscillator.
pub open spec fn spec_xosc_init_steps() -> Seq<ClockStep> {
    seq![
        ClockStep::XoscConfigure,
        ClockStep::XoscStartupDelay(XOSC_STARTUP_DELAY),
        ClockStep::XoscEnable,
        ClockStep::XoscWaitStable,
    ]
}

/// Start-up of the crystal oscillator.
pub fn init_xosc() -> (steps: Vec<ClockStep>)
    ensures
        steps@ == spec_xosc_init_steps(),
{
    let mut v: Vec<ClockStep> = Vec::new();
    v.push(ClockStep::XoscConfigure);
    v.push(ClockStep::XoscStartupDelay(XOSC_STARTUP_DELAY));
    v.push(ClockStep::XoscEnable);
    v.push(ClockStep::XoscWaitStable);
    v
}

/// Start-up of the watchdog tick generator.
pub open spec fn spec_watchdog_init_steps() -> Seq<ClockStep> {
    seq![ClockStep::WatchdogEnable, ClockStep::WatchdogTick(12)]
}

/// Start-up of the watchdog tick generator: one tick per microsecond.
pub fn init_watchdog() -> (steps: Vec<ClockStep>)
    ensures
        steps@ == spec_watchdog_init_steps(),
{
    let mut v: Vec<ClockStep> = Vec::new();
    v.push(ClockStep::WatchdogEnable);
    v.push(ClockStep::WatchdogTick(watchdog_tick_cycles()));
    v
}

/// Bring-up of PLL `pll` with settings `c`: clk_sys is first moved to
/// clk_ref, then the PLL leaves reset, is programmed, powered, locked, and
/// its post dividers are set and powered.
pub open spec fn spec_pll_init_steps(pll: Pll, c: PllConfig) -> Seq<ClockStep> {
    seq![
        ClockStep::SysSelectRef,
        ClockStep::WaitSysSelected(CLK_SYS_REF_SELECTED),
        ClockStep::PllReleaseReset(pll),
        ClockStep::PllPowerDefaults(pll),
        ClockStep::PllRefdiv(pll, c.refdiv),
        ClockStep::PllFbdiv(pll, c.fbdiv),
        ClockStep::PllPowerUp(pll),
        ClockStep::PllWaitLock(pll),
        ClockStep::PllPostdiv(pll, c.postdiv1, c.postdiv2),
        ClockStep::PllPostdivPowerUp(pll),
    ]
}

/// Bring-up of PLL `pll` with settings `c`.
pub fn init_pll(pll: Pll, c: PllConfig) -> (steps: Vec<ClockStep>)
    ensures
        steps@ == spec_pll_init_steps(pll, c),
{
    let mut v: Vec<ClockStep> = Vec::new();
    v.push(ClockStep::SysSelectRef);
    v.push(ClockStep::WaitSysSelected(CLK_SYS_REF_SELECTED));
    v.push(ClockStep::PllReleaseReset(pll));
    v.push(ClockStep::PllPowerDefaults(pll));
    v.push(ClockStep::PllRefdiv(pll, c.refdiv));
    v.push(ClockStep::PllFbdiv(pll, c.fbdiv));
    v.push(ClockStep::PllPowerUp(pll));
    v.push(ClockStep::PllWaitLock(pll));
    v.push(ClockStep::PllPostdiv(pll, c.postdiv1, c.postdiv2));
    v.push(ClockStep::PllPostdivPowerUp(pll));
    v
}

/// Bring-up of the system PLL with its 125 MHz settings.
pub fn init_pll_sys() -> (steps: Vec<ClockStep>)
    ensures
        steps@ == spec_pll_init_steps(Pll::Sys, spec_pll_sys_config()),
{
    init_pll(Pll::Sys, pll_sys_config())
}

/// Bring-up of the USB PLL with its 48 MHz settings.
pub fn init_pll_usb() -> (steps: Vec<ClockStep>)
    ensures
        steps@ == spec_pll_init_steps(Pll::Usb, spec_pll_usb_config()),
{
    init_pll(Pll::Usb, pll_usb_config())
}

/// Set-up of clk_ref: divider 1, source the crystal, confirmed.
pub open spec fn spec_ref_generator_steps() -> Seq<ClockStep> {
    seq![
        ClockStep::RefDiv(REF_DIV),
        ClockStep::RefSelectXosc,
        ClockStep::WaitRefSelected(4),
        ClockStep::RefDiv(REF_DIV),
    ]
}

/// Set-up of clk_sys: over to clk_ref, auxiliary mux to the system PLL,
/// over to the auxiliary mux, each move confirmed; divider 1.
pub open spec fn spec_sys_generator_steps() -> Seq<ClockStep> {
    seq![
        ClockStep::SysDiv(SYS_DIV),
        ClockStep::SysSelectRef,
        ClockStep::WaitSysSelected(CLK_SYS_REF_SELECTED),
        ClockStep::SysAuxPllSys,
        ClockStep::SysSelectAux,
        ClockStep::WaitSysSelected(2),
        ClockStep::SysDiv(SYS_DIV),
    ]
}

/// Set-up of clk_adc (divider 1, from the USB PLL) and clk_peri (from
/// clk_sys), each disabled while its source changes.
pub open spec fn spec_adc_peri_generator_steps() -> Seq<ClockStep> {
    seq![
        ClockStep::AdcDiv(ADC_DIV),
        ClockStep::AdcEnable(false),
        ClockStep::AdcAuxPllUsb,
        ClockStep::AdcEnable(true),
        ClockStep::PeriEnable(false),
        ClockStep::PeriAuxClkSys,
        ClockStep::PeriEnable(true),
    ]
}

/// Set-up of the clock generators once the oscillator and the PLLs run:
/// clk_ref from the crystal, clk_sys from the system PLL, clk_adc from the
/// USB PLL and clk_peri from clk_sys.
pub open spec fn spec_generator_steps() -> Seq<ClockStep> {
    spec_ref_generator_steps() + spec_sys_generator_steps() + spec_adc_peri_generator_steps()
}

/// Set-up of the clock generators.
pub fn init_generators() -> (steps: Vec<ClockStep>)
    ensures
        steps@ == spec_generator_steps(),
{
    let mut v: Vec<ClockStep> = Vec::new();
    v.push(ClockStep::RefDiv(REF_DIV));
    v.push(ClockStep::RefSelectXosc);
    v.push(ClockStep::WaitRefSelected(ref_xosc_selected()));
    v.push(ClockStep::RefDiv(REF_DIV));
    v.push(ClockStep::SysDiv(SYS_DIV));
    v.push(ClockStep::SysSelectRef);
    v.push(ClockStep::WaitSysSelected(CLK_SYS_REF_SELECTED));
    v.push(ClockStep::SysAuxPllSys);
    v.push(ClockStep::SysSelectAux);
    v.push(ClockStep::WaitSysSelected(sys_aux_selected()));
    v.push(ClockStep::SysDiv(SYS_DIV));
    v.push(ClockStep::AdcDiv(ADC_DIV));
    v.push(ClockStep::AdcEnable(false));
    v.push(ClockStep::AdcAuxPllUsb);
    v.push(ClockStep::AdcEnable(true));
    v.push(ClockStep::PeriEnable(false));
    v.push(ClockStep::PeriAuxClkSys);
    v.push(ClockStep::PeriEnable(true));
    assert(v@ =~= spec_generator_steps());
    v
}

/// The whole clock bring-up.
pub open spec fn spec_init_clocks_steps() -> Seq<ClockStep> {
    spec_xosc_init_steps() + spec_watchdog_init_steps() + spec_pll_init_steps(Pll::Sys, spec_pll_sys_config())
        + spec_pll_init_steps(Pll::Usb, spec_pll_usb_config()) + spec_generator_steps()
}

/// The whole clock bring-up: crystal oscillator, watchdog tick, system
/// PLL, USB PLL, then the clock generators.
pub fn init_clocks() -> (steps: Vec<ClockStep>)
    ensures
        steps@ == spec_init_clocks_steps(),
{
    let mut v = init_xosc();
    let mut w = init_watchdog();
    v.append(&mut w);
    let mut p = init_pll_sys();
    v.append(&mut p);
    let mut u = init_pll_usb();
    v.append(&mut u);
    let mut g = init_generators();
    v.append(&mut g);
    v
}

} // verus!
