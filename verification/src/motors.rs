use vstd::prelude::*;

verus! {

/// Number of PWM slices of the RP2040.
pub const PWM_SLICES: usize = 8;

/// Integer part of the PWM clock divider used for the wheel motors.
pub const PWM_DIV_INT: u8 = 100;

/// Fractional part (in sixteenths) of the PWM clock divider.
pub const PWM_DIV_FRAC: u8 = 0;

/// Wrap value of the PWM counter: a duty level of `PWM_TOP` is full speed.
pub const PWM_TOP: u16 = 100;

/// The way a wheel turns. Forward drives the A output of the slice,
/// reverse the B output.
#[derive(Clone, Copy, Debug, PartialEq, Eq, Structural)]
pub enum Direction {
    FORTH,
    REVERSE,
}

/// One of the two compare fields of a PWM slice's CC register.
#[derive(Clone, Copy, Debug, PartialEq, Eq, Structural)]
pub enum CcField {
    A,
    B,
}

/// A write of `level` into compare field `field` of PWM slice `slice`.
#[derive(Clone, Copy, Debug, PartialEq, Eq, Structural)]
pub struct DutyWrite {
    pub slice: usize,
    pub field: CcField,
    pub level: u16,
}

/// The settings of a PWM slice that a motor depends on: the CSR fields
/// (enable, phase-correct mode, output inversion, divider mode: 0 is the
/// free-running counter), the clock divider, both compare levels and the
/// counter's wrap value.
#[derive(Clone, Copy, Debug, PartialEq, Eq, Structural)]
pub struct PwmSetup {
    pub enable: bool,
    pub ph_correct: bool,
    pub a_inv: bool,
    pub b_inv: bool,
    pub divmode: u8,
    pub div_int: u8,
    pub div_frac: u8,
    pub cc_a: u16,
    pub cc_b: u16,
    pub top: u16,
}

/// A PWM slice as its reset leaves it: CSR 0 (disabled, free-running, no
/// phase correction, no inversion), divider 1.0, both compare levels 0 and
/// the counter wrapping at 0xffff.
pub open spec fn pwm_slice_reset() -> PwmSetup {
    PwmSetup {
        enable: false,
        ph_correct: false,
        a_inv: false,
        b_inv: false,
        divmode: 0,
        div_int: 1,
        div_frac: 0,
        cc_a: 0,
        cc_b: 0,
        top: 0xffff,
    }
}

/// The compare field that carries the duty cycle for a direction.
pub open spec fn field_for(dir: Direction) -> CcField {
    match dir {
        Direction::FORTH => CcField::A,
        Direction::REVERSE => CcField::B,
    }
}

/// The register write that sets the duty cycle of the motor on `slice`
/// turning in `dir` to `percent`: the value is truncated to the 16 bits
/// of the compare field.
pub open spec fn duty_write(slice: usize, dir: Direction, percent: usize) -> DutyWrite {
    DutyWrite { slice: slice, field: field_for(dir), level: percent as u16 }
}

/// Length of one PWM period in system clock cycles, for a divider of
/// `div_int + div_frac / 16` and a counter wrapping after `top`.
pub open spec fn pwm_period_cycles(s: PwmSetup) -> int {
    (s.top + 1) * (s.div_int * 16 + s.div_frac) / 16
}

/// Control of one wheel motor.
pub trait MotorControl {
    /// The direction the motor currently turns in.
    spec fn spec_direction(&self) -> Direction;

    /// The PWM slice that drives the motor.
    spec fn spec_slice(&self) -> usize;

    /// The register write that sets the duty cycle to `percent`.
    fn set_dc(&self, percent: usize) -> (w: DutyWrite)
        ensures
            w == duty_write(self.spec_slice(), self.spec_direction(), percent),
    ;

    /// Turns the motor in `dir` from now on.
    fn direction(&mut self, dir: Direction)
        ensures
            final(self).spec_direction() == dir,
            final(self).spec_slice() == old(self).spec_slice(),
    ;
}

/// A wheel motor driven by one PWM slice.
pub struct Motor {
    slice: usize,
    direction: Direction,
}

impl MotorControl for Motor {
    closed spec fn spec_direction(&self) -> Direction {
        self.direction
    }

    closed spec fn spec_slice(&self) -> usize {
        self.slice
    }

    fn direction(&mut self, dir: Direction) {
        self.direction = dir;
    }

    fn set_dc(&self, percent: usize) -> (w: DutyWrite) {
        let level = percent as u16;
        match self.direction {
            Direction::FORTH => DutyWrite { slice: self.slice, field: CcField::A, level },
            Direction::REVERSE => DutyWrite { slice: self.slice, field: CcField::B, level },
        }
    }
}

impl Motor {
    /// A motor on PWM slice `slice`, turning forward.
    pub fn new(slice: usize) -> (m: Motor)
        requires
            slice < PWM_SLICES,
        ensures
            m.spec_slice() == slice,
            m.spec_direction() == Direction::FORTH,
    {
        Motor { slice, direction: Direction::FORTH }
    }

    /// The PWM slice that drives this motor.
    pub fn slice(&self) -> (s: usize)
        ensures
            s == self.spec_slice(),
    {
        self.slice
    }

    /// The direction this motor turns in.
    pub fn current_direction(&self) -> (d: Direction)
        ensures
            d == self.spec_direction(),
    {
        self.direction
    }

    /// What the motor's PWM slice holds once it has been reset and set up:
    /// the reset state with a clock divider of 100, a counter wrapping at
    /// `PWM_TOP`, both outputs inverted and the slice enabled; both compare
    /// levels stay 0 and the counter stays free-running without phase
    /// correction.
    pub fn pwm_setup(&self) -> (s: PwmSetup)
        ensures
            s == (PwmSetup {
                div_int: PWM_DIV_INT,
                div_frac: PWM_DIV_FRAC,
                top: PWM_TOP,
                a_inv: true,
                b_inv: true,
                enable: true,
                ..pwm_slice_reset()
            }),
            s.cc_a == 0 && s.cc_b == 0,
            !s.ph_correct && s.divmode == 0,
            pwm_period_cycles(s) == 10100,
    {
        let s = PwmSetup {
            enable: true,
            ph_correct: false,
            a_inv: true,
            b_inv: true,
            divmode: 0,
            div_int: PWM_DIV_INT,
            div_frac: PWM_DIV_FRAC,
            cc_a: 0,
            cc_b: 0,
            top: PWM_TOP,
        };
        assert(pwm_period_cycles(s) == 10100) by (nonlinear_arith)
            requires
                s.top == 100,
                s.div_int == 100,
                s.div_frac == 0,
        ;
        s
    }
}

/// A duty level below 2^16 reaches the compare field unchanged.
pub proof fn lemma_duty_level_exact(slice: usize, dir: Direction, percent: usize)
    requires
        percent < 0x10000,
    ensures
        duty_write(slice, dir, percent).level == percent,
{
    assert((percent as u16) == percent) by (bit_vector)
        requires
            percent < 0x10000usize,
    ;
}

/// Where a duty cycle goes: forward drives compare field A and reverse
/// field B of the motor's own slice, and the level written is the percent
/// taken modulo 2^16 (the width of a compare field).
pub proof fn lemma_duty_write_target(slice: usize, percent: usize)
    ensures
        duty_write(slice, Direction::FORTH, percent).field == CcField::A,
        duty_write(slice, Direction::REVERSE, percent).field == CcField::B,
        duty_write(slice, Direction::FORTH, percent).slice == slice,
        duty_write(slice, Direction::REVERSE, percent).slice == slice,
        duty_write(slice, Direction::FORTH, percent).level as int == percent as int % 0x10000,
        duty_write(slice, Direction::REVERSE, percent).level as int == percent as int % 0x10000,
{
    assert((percent as u16) as int == percent as int % 0x10000) by (bit_vector);
}

/// After `direction(d)`, `set_dc(p)` writes `p` into the field that
/// belongs to `d`, on the motor's own slice, whatever the direction was.
pub proof fn lemma_direction_then_duty<M: MotorControl>(before: M, after: M, d: Direction, percent: usize)
    requires
        after.spec_direction() == d,
        after.spec_slice() == before.spec_slice(),
        percent < 0x10000,
    ensures
        duty_write(after.spec_slice(), after.spec_direction(), percent) == (DutyWrite {
            slice: before.spec_slice(),
            field: field_for(d),
            level: percent as u16,
        }),
        duty_write(after.spec_slice(), after.spec_direction(), percent).level == percent,
{
    lemma_duty_level_exact(before.spec_slice(), d, percent);
}

} // verus!
