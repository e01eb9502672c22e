use vstd::prelude::*;
use crate::clocks::{ClockStep, Pll, PllConfig, spec_pll_sys_config, spec_pll_usb_config, spec_init_clocks_steps,
    spec_xosc_init_steps, spec_watchdog_init_steps, spec_pll_init_steps, spec_generator_steps,
    spec_ref_generator_steps, spec_sys_generator_steps, spec_adc_peri_generator_steps, pll_output_hz, XTAL_FREQ_HZ};

verus! {

/// What the bring-up depends on of one PLL.
pub struct PllModel {
    pub out_of_reset: bool,
    pub vco_on: bool,
    pub locked: bool,
    pub post_on: bool,
    pub config: PllConfig,
}

/// What the bring-up depends on of the clock hardware.
pub struct ClockModel {
    pub xosc_on: bool,
    pub xosc_stable: bool,
    pub watchdog_on: bool,
    pub watchdog_tick: u16,
    /// CLK_REF_DIV.INT.
    pub ref_div: u8,
    /// CLK_SYS_DIV.INT.
    pub sys_div: u32,
    /// CLK_SYS_DIV.FRAC, which the bring-up leaves as it finds it.
    pub sys_div_frac: u8,
    /// CLK_ADC_DIV.INT.
    pub adc_div: u8,
    /// Source index written into CLK_REF_CTRL.SRC.
    pub ref_src: u8,
    /// CLK_REF_SELECTED has been seen to show `ref_src`.
    pub ref_confirmed: bool,
    /// Source index written into CLK_SYS_CTRL.SRC (0: clk_ref, 1: aux).
    pub sys_src: u8,
    /// CLK_SYS_SELECTED has been seen to show `sys_src`.
    pub sys_confirmed: bool,
    pub sys_aux_pll_sys: bool,
    pub pll_sys: PllModel,
    pub pll_usb: PllModel,
    pub adc_on: bool,
    pub adc_aux_pll_usb: bool,
    pub peri_on: bool,
    pub peri_aux_clk_sys: bool,
}

/// A PLL that delivers its output: out of reset, powered, locked, with
/// its post dividers powered.
pub open spec fn pll_ready(p: PllModel) -> bool {
    p.out_of_reset && p.vco_on && p.locked && p.post_on
}

pub open spec fn pll_of(m: ClockModel, pll: Pll) -> PllModel {
    match pll {
        Pll::Sys => m.pll_sys,
        Pll::Usb => m.pll_usb,
    }
}

pub open spec fn with_pll(m: ClockModel, pll: Pll, p: PllModel) -> ClockModel {
    match pll {
        Pll::Sys => ClockModel { pll_sys: p, ..m },
        Pll::Usb => ClockModel { pll_usb: p, ..m },
    }
}

/// clk_sys is known to run from clk_ref.
pub open spec fn sys_on_ref(m: ClockModel) -> bool {
    m.sys_src == 0 && m.sys_confirmed
}

/// Whether `step` is safe, and comes to an end, in state `m`:
/// - clk_ref is moved to the crystal only once the crystal is stable;
/// - the system PLL is reset or reprogrammed only while clk_sys is known
///   to run from clk_ref;
/// - a PLL's dividers are written only while its VCO is off;
/// - clk_sys's auxiliary mux is changed only while clk_sys is known to run
///   from clk_ref, and clk_sys moves to the auxiliary mux only when that
///   mux selects a ready system PLL;
/// - the ADC and peripheral clocks change source only while disabled, and
///   the ADC clock is enabled only on a ready USB PLL;
/// - every wait waits for something that comes: a selection register for
///   the source just selected, a lock of a powered PLL, the stability of an
///   enabled oscillator.
pub open spec fn step_allowed(m: ClockModel, step: ClockStep) -> bool {
    match step {
        ClockStep::XoscWaitStable => m.xosc_on,
        ClockStep::SysSelectAux => m.sys_aux_pll_sys && pll_ready(m.pll_sys),
        ClockStep::SysAuxPllSys => sys_on_ref(m),
        ClockStep::WaitSysSelected(mask) => m.sys_src < 32 && mask == 1u32 << m.sys_src,
        ClockStep::PllReleaseReset(pll) => pll == Pll::Usb || sys_on_ref(m),
        ClockStep::PllPowerDefaults(pll) => pll == Pll::Usb || sys_on_ref(m),
        ClockStep::PllRefdiv(pll, _) => !pll_of(m, pll).vco_on && (pll == Pll::Usb || sys_on_ref(m)),
        ClockStep::PllFbdiv(pll, _) => !pll_of(m, pll).vco_on && (pll == Pll::Usb || sys_on_ref(m)),
        ClockStep::PllPowerUp(pll) => pll_of(m, pll).out_of_reset && (pll == Pll::Usb || sys_on_ref(m)),
        ClockStep::PllWaitLock(pll) => pll_of(m, pll).out_of_reset && pll_of(m, pll).vco_on,
        ClockStep::PllPostdiv(pll, _, _) => pll == Pll::Usb || sys_on_ref(m),
        ClockStep::PllPostdivPowerUp(pll) => pll_of(m, pll).locked,
        ClockStep::RefSelectXosc => m.xosc_stable,
        ClockStep::WaitRefSelected(mask) => m.ref_src < 32 && mask == 1u32 << m.ref_src,
        ClockStep::AdcEnable(on) => on ==> (m.adc_aux_pll_usb && pll_ready(m.pll_usb)),
        ClockStep::AdcAuxPllUsb => !m.adc_on,
        ClockStep::PeriAuxClkSys => !m.peri_on,
        _ => true,
    }
}

/// The state after `step`.
pub open spec fn step_apply(m: ClockModel, step: ClockStep) -> ClockModel {
    match step {
        ClockStep::XoscConfigure => ClockModel { xosc_on: true, ..m },
        ClockStep::XoscStartupDelay(_) => m,
        ClockStep::XoscEnable => ClockModel { xosc_on: true, ..m },
        ClockStep::XoscWaitStable => ClockModel { xosc_stable: true, ..m },
        ClockStep::WatchdogEnable => ClockModel { watchdog_on: true, ..m },
        ClockStep::WatchdogTick(c) => ClockModel { watchdog_tick: c, ..m },
        ClockStep::SysSelectRef => ClockModel { sys_src: 0, sys_confirmed: false, ..m },
        ClockStep::SysSelectAux => ClockModel { sys_src: 1, sys_confirmed: false, ..m },
        ClockStep::SysAuxPllSys => ClockModel { sys_aux_pll_sys: true, ..m },
        ClockStep::WaitSysSelected(_) => ClockModel { sys_confirmed: true, ..m },
        ClockStep::PllReleaseReset(pll) => with_pll(m, pll, PllModel { out_of_reset: true, ..pll_of(m, pll) }),
        ClockStep::PllPowerDefaults(pll) => with_pll(
            m,
            pll,
            PllModel { vco_on: false, locked: false, post_on: false, ..pll_of(m, pll) },
        ),
        ClockStep::PllRefdiv(pll, r) => with_pll(
            m,
            pll,
            PllModel {
                locked: false,
                config: PllConfig { refdiv: r, ..pll_of(m, pll).config },
                ..pll_of(m, pll)
            },
        ),
        ClockStep::PllFbdiv(pll, f) => with_pll(
            m,
            pll,
            PllModel {
                locked: false,
                config: PllConfig { fbdiv: f, ..pll_of(m, pll).config },
                ..pll_of(m, pll)
            },
        ),
        ClockStep::PllPowerUp(pll) => with_pll(m, pll, PllModel { vco_on: true, ..pll_of(m, pll) }),
        ClockStep::PllWaitLock(pll) => with_pll(m, pll, PllModel { locked: true, ..pll_of(m, pll) }),
        ClockStep::PllPostdiv(pll, a, b) => with_pll(
            m,
            pll,
            PllModel { config: PllConfig { postdiv1: a, postdiv2: b, ..pll_of(m, pll).config }, ..pll_of(m, pll) },
        ),
        ClockStep::PllPostdivPowerUp(pll) => with_pll(m, pll, PllModel { post_on: true, ..pll_of(m, pll) }),
        ClockStep::RefDiv(d) => ClockModel { ref_div: d, ..m },
        ClockStep::RefSelectXosc => ClockModel { ref_src: 2, ref_confirmed: false, ..m },
        ClockStep::WaitRefSelected(_) => ClockModel { ref_confirmed: true, ..m },
        ClockStep::SysDiv(d) => ClockModel { sys_div: d, ..m },
        ClockStep::AdcDiv(d) => ClockModel { adc_div: d, ..m },
        ClockStep::AdcEnable(on) => ClockModel { adc_on: on, ..m },
        ClockStep::AdcAuxPllUsb => ClockModel { adc_aux_pll_usb: true, ..m },
        ClockStep::PeriEnable(on) => ClockModel { peri_on: on, ..m },
        ClockStep::PeriAuxClkSys => ClockModel { peri_aux_clk_sys: true, ..m },
    }
}

/// The state after the first `n` steps of `steps` from `m`, or `None` if
/// one of them is not allowed where it comes.
pub open spec fn run(m: ClockModel, steps: Seq<ClockStep>, n: nat) -> Option<ClockModel>
    decreases n,
{
    if n == 0 {
        Some(m)
    } else {
        match run(m, steps, (n - 1) as nat) {
            Some(x) => if step_allowed(x, steps[n - 1]) {
                Some(step_apply(x, steps[n - 1]))
            } else {
                None
            },
            None => None,
        }
    }
}

proof fn lemma_run_prefix(m: ClockModel, a: Seq<ClockStep>, b: Seq<ClockStep>, n: nat)
    requires
        n <= a.len(),
    ensures
        run(m, a + b, n) == run(m, a, n),
    decreases n,
{
    if n > 0 {
        lemma_run_prefix(m, a, b, (n - 1) as nat);
        assert((a + b)[n - 1] == a[n - 1]);
    }
}

proof fn lemma_run_suffix(m: ClockModel, a: Seq<ClockStep>, b: Seq<ClockStep>, k: nat)
    requires
        k <= b.len(),
        run(m, a, a.len()) is Some,
    ensures
        run(m, a + b, a.len() + k) == run(run(m, a, a.len())->0, b, k),
    decreases k,
{
    if k == 0 {
        lemma_run_prefix(m, a, b, a.len());
    } else {
        lemma_run_suffix(m, a, b, (k - 1) as nat);
        assert((a + b)[a.len() + k - 1] == b[k - 1]);
    }
}

/// Running `a + b` is running `a`, then `b` from where `a` ended.
proof fn lemma_run_concat(m: ClockModel, a: Seq<ClockStep>, b: Seq<ClockStep>)
    requires
        run(m, a, a.len()) is Some,
    ensures
        run(m, a + b, (a + b).len()) == run(run(m, a, a.len())->0, b, b.len()),
{
    lemma_run_suffix(m, a, b, b.len());
}


/// One more step: the state after `n + 1` steps, when step `n` is allowed in
/// the state `x` after `n` steps.
proof fn lemma_step(m: ClockModel, steps: Seq<ClockStep>, n: nat, x: ClockModel) -> (y: ClockModel)
    requires
        run(m, steps, n) == Some(x),
        n < steps.len(),
        step_allowed(x, steps[n as int]),
    ensures
        y == step_apply(x, steps[n as int]),
        run(m, steps, n + 1) == Some(y),
{
    step_apply(x, steps[n as int])
}

proof fn lemma_xosc_segment(m: ClockModel)
    ensures
        run(m, spec_xosc_init_steps(), 4) == Some(ClockModel { xosc_on: true, xosc_stable: true, ..m }),
{
    let s = spec_xosc_init_steps();
    assert(run(m, s, 0) == Some(m));
    let x1 = lemma_step(m, s, 0, m);
    let x2 = lemma_step(m, s, 1, x1);
    let x3 = lemma_step(m, s, 2, x2);
    let x4 = lemma_step(m, s, 3, x3);
    assert(x4 == ClockModel { xosc_on: true, xosc_stable: true, ..m });
}

proof fn lemma_watchdog_segment(m: ClockModel)
    ensures
        run(m, spec_watchdog_init_steps(), 2) == Some(ClockModel { watchdog_on: true, watchdog_tick: 12, ..m }),
{
    let s = spec_watchdog_init_steps();
    assert(run(m, s, 0) == Some(m));
    let x1 = lemma_step(m, s, 0, m);
    let x2 = lemma_step(m, s, 1, x1);
    assert(x2 == ClockModel { watchdog_on: true, watchdog_tick: 12, ..m });
}

/// The state a PLL bring-up leaves: clk_sys known on clk_ref and the PLL
/// ready with exactly the given settings.
pub open spec fn after_pll_init(m: ClockModel, pll: Pll, c: PllConfig) -> ClockModel {
    with_pll(
        ClockModel { sys_src: 0, sys_confirmed: true, ..m },
        pll,
        PllModel { out_of_reset: true, vco_on: true, locked: true, post_on: true, config: c },
    )
}

proof fn lemma_pll_segment(m: ClockModel, pll: Pll, c: PllConfig)
    ensures
        run(m, spec_pll_init_steps(pll, c), 10) == Some(after_pll_init(m, pll, c)),
{
    assert(1u32 << 0u8 == 1) by (bit_vector);
    let s = spec_pll_init_steps(pll, c);
    assert(run(m, s, 0) == Some(m));
    let x1 = lemma_step(m, s, 0, m);
    let x2 = lemma_step(m, s, 1, x1);
    let x3 = lemma_step(m, s, 2, x2);
    let x4 = lemma_step(m, s, 3, x3);
    let x5 = lemma_step(m, s, 4, x4);
    let x6 = lemma_step(m, s, 5, x5);
    let x7 = lemma_step(m, s, 6, x6);
    let x8 = lemma_step(m, s, 7, x7);
    let x9 = lemma_step(m, s, 8, x8);
    let x10 = lemma_step(m, s, 9, x9);
    assert(x10 == after_pll_init(m, pll, c));
}

proof fn lemma_ref_generator_segment(m: ClockModel)
    requires
        m.xosc_stable,
    ensures
        run(m, spec_ref_generator_steps(), 4) == Some(ClockModel { ref_div: 1, ref_src: 2, ref_confirmed: true, ..m }),
{
    assert(1u32 << 2u8 == 4) by (bit_vector);
    let s = spec_ref_generator_steps();
    assert(run(m, s, 0) == Some(m));
    let x1 = lemma_step(m, s, 0, m);
    let x2 = lemma_step(m, s, 1, x1);
    let x3 = lemma_step(m, s, 2, x2);
    let x4 = lemma_step(m, s, 3, x3);
    assert(x4 == ClockModel { ref_div: 1, ref_src: 2, ref_confirmed: true, ..m });
}

proof fn lemma_sys_generator_segment(m: ClockModel)
    requires
        pll_ready(m.pll_sys),
    ensures
        run(m, spec_sys_generator_steps(), 7) == Some(
            ClockModel { sys_div: 1, sys_src: 1, sys_confirmed: true, sys_aux_pll_sys: true, ..m },
        ),
{
    assert(1u32 << 0u8 == 1) by (bit_vector);
    assert(1u32 << 1u8 == 2) by (bit_vector);
    let s = spec_sys_generator_steps();
    assert(run(m, s, 0) == Some(m));
    let x1 = lemma_step(m, s, 0, m);
    let x2 = lemma_step(m, s, 1, x1);
    let x3 = lemma_step(m, s, 2, x2);
    let x4 = lemma_step(m, s, 3, x3);
    let x5 = lemma_step(m, s, 4, x4);
    let x6 = lemma_step(m, s, 5, x5);
    let x7 = lemma_step(m, s, 6, x6);
    assert(x7 == ClockModel { sys_div: 1, sys_src: 1, sys_confirmed: true, sys_aux_pll_sys: true, ..m });
}

proof fn lemma_adc_peri_generator_segment(m: ClockModel)
    requires
        pll_ready(m.pll_usb),
    ensures
        run(m, spec_adc_peri_generator_steps(), 7) == Some(
            ClockModel {
                adc_div: 1,
                adc_on: true,
                adc_aux_pll_usb: true,
                peri_on: true,
                peri_aux_clk_sys: true,
                ..m
            },
        ),
{
    let s = spec_adc_peri_generator_steps();
    assert(run(m, s, 0) == Some(m));
    let x1 = lemma_step(m, s, 0, m);
    let x2 = lemma_step(m, s, 1, x1);
    let x3 = lemma_step(m, s, 2, x2);
    let x4 = lemma_step(m, s, 3, x3);
    let x5 = lemma_step(m, s, 4, x4);
    let x6 = lemma_step(m, s, 5, x5);
    let x7 = lemma_step(m, s, 6, x6);
    assert(x7 == ClockModel {
        adc_div: 1,
        adc_on: true,
        adc_aux_pll_usb: true,
        peri_on: true,
        peri_aux_clk_sys: true,
        ..m
    });
}

/// Frequency of clk_ref, when it runs from the crystal.
pub open spec fn clk_ref_hz(m: ClockModel) -> Option<int> {
    if m.ref_src == 2 && m.ref_confirmed && m.ref_div > 0 {
        Some(XTAL_FREQ_HZ as int / (m.ref_div as int))
    } else {
        None
    }
}

/// Frequency of clk_sys, when it runs from a ready system PLL with an
/// integer divider.
pub open spec fn clk_sys_hz(m: ClockModel) -> Option<int> {
    if m.sys_src == 1 && m.sys_confirmed && m.sys_aux_pll_sys && pll_ready(m.pll_sys) && m.sys_div > 0
        && m.sys_div_frac == 0 {
        Some(pll_output_hz(XTAL_FREQ_HZ as int, m.pll_sys.config) / (m.sys_div as int))
    } else {
        None
    }
}

/// Frequency of clk_adc, when it is enabled on a ready USB PLL.
pub open spec fn clk_adc_hz(m: ClockModel) -> Option<int> {
    if m.adc_on && m.adc_aux_pll_usb && pll_ready(m.pll_usb) && m.adc_div > 0 {
        Some(pll_output_hz(XTAL_FREQ_HZ as int, m.pll_usb.config) / (m.adc_div as int))
    } else {
        None
    }
}

/// Frequency of clk_peri, when it is enabled on clk_sys (it has no divider).
pub open spec fn clk_peri_hz(m: ClockModel) -> Option<int> {
    if m.peri_on && m.peri_aux_clk_sys {
        clk_sys_hz(m)
    } else {
        None
    }
}

/// The clock bring-up is safe from whatever state the clock hardware is in,
/// every step of it being allowed where it comes (see `step_allowed`: the
/// crystal is stable before clk_ref uses it, the system PLL is touched only
/// while clk_sys runs from clk_ref, glitchless muxes and the ADC and
/// peripheral clocks change source only while not in use, and every wait
/// ends). It leaves the datasheet's default clocks: clk_ref at 12 MHz from
/// the crystal, the system PLL at 125 MHz, the USB PLL at 48 MHz, clk_adc at
/// 48 MHz from the USB PLL, a watchdog tick of 12 cycles, and, where the
/// fractional part of the system clock divider is at its reset value 0,
/// clk_sys and clk_peri at 125 MHz.
pub proof fn lemma_init_clocks_safe(m: ClockModel)
    ensures
        run(m, spec_init_clocks_steps(), spec_init_clocks_steps().len()) is Some,
        ({
            let f = run(m, spec_init_clocks_steps(), spec_init_clocks_steps().len())->0;
            &&& f.xosc_stable
            &&& f.watchdog_on && f.watchdog_tick == 12
            &&& f.ref_src == 2 && f.ref_confirmed
            &&& f.sys_src == 1 && f.sys_confirmed && f.sys_aux_pll_sys
            &&& pll_ready(f.pll_sys) && f.pll_sys.config == spec_pll_sys_config()
            &&& pll_ready(f.pll_usb) && f.pll_usb.config == spec_pll_usb_config()
            &&& pll_output_hz(XTAL_FREQ_HZ as int, f.pll_sys.config) == 125_000_000
            &&& pll_output_hz(XTAL_FREQ_HZ as int, f.pll_usb.config) == 48_000_000
            &&& f.adc_on && f.adc_aux_pll_usb
            &&& f.peri_on && f.peri_aux_clk_sys
            &&& clk_ref_hz(f) == Some(12_000_000int)
            &&& clk_adc_hz(f) == Some(48_000_000int)
            &&& m.sys_div_frac == 0 ==> clk_sys_hz(f) == Some(125_000_000int)
            &&& clk_peri_hz(f) == clk_sys_hz(f)
        }),
{
    let x = spec_xosc_init_steps();
    let w = spec_watchdog_init_steps();
    let ps = spec_pll_init_steps(Pll::Sys, spec_pll_sys_config());
    let pu = spec_pll_init_steps(Pll::Usb, spec_pll_usb_config());
    let gr = spec_ref_generator_steps();
    let gs = spec_sys_generator_steps();
    let ga = spec_adc_peri_generator_steps();
    assert(spec_generator_steps() == gr + gs + ga);
    assert(spec_init_clocks_steps() == x + w + ps + pu + gr + gs + ga);
    lemma_xosc_segment(m);
    let m1 = run(m, x, 4)->0;
    lemma_watchdog_segment(m1);
    lemma_run_concat(m, x, w);
    let m2 = run(m1, w, 2)->0;
    lemma_pll_segment(m2, Pll::Sys, spec_pll_sys_config());
    lemma_run_concat(m, x + w, ps);
    let m3 = run(m2, ps, 10)->0;
    lemma_pll_segment(m3, Pll::Usb, spec_pll_usb_config());
    lemma_run_concat(m, x + w + ps, pu);
    let m4 = run(m3, pu, 10)->0;
    lemma_ref_generator_segment(m4);
    lemma_run_concat(m, x + w + ps + pu, gr);
    let m5 = run(m4, gr, 4)->0;
    lemma_sys_generator_segment(m5);
    lemma_run_concat(m, x + w + ps + pu + gr, gs);
    let m6 = run(m5, gs, 7)->0;
    lemma_adc_peri_generator_segment(m6);
    lemma_run_concat(m, x + w + ps + pu + gr + gs, ga);
    crate::clocks::lemma_pll_frequencies();
}

} // verus!
