use vstd::prelude::*;

verus! {

/// Raw ADC value above which an infrared sensor is taken to be over the line.
pub const IR_THRESHOLD: u16 = 750;

/// ADC input of the sensor placed on the line.
pub const IR_INSIDE: u8 = 0;

/// ADC input of the sensor placed beside the line.
pub const IR_OUTSIDE: u8 = 1;

/// The states of the line follower (a Moore machine).
#[allow(non_camel_case_types)]
#[derive(Clone, Copy, Debug, PartialEq, Eq, Structural)]
pub enum STATE {
    STRAIGHT,
    LEFT,
    RIGHT,
}

/// Whether a raw ADC reading means that the sensor sees the line.
pub open spec fn spec_on_line(reading: u16) -> bool {
    reading > IR_THRESHOLD
}

/// A sensor sees the line exactly when its raw reading exceeds 750, over
/// the whole range of readings; so a larger reading never sees the line
/// less.
pub proof fn lemma_on_line_threshold(r: u16, r2: u16)
    ensures
        spec_on_line(r) <==> r > 750,
        r <= r2 && spec_on_line(r) ==> spec_on_line(r2),
{
}

/// Whether a sensor whose ADC conversion gave `reading` is over the line.
pub fn on_line(reading: u16) -> (r: bool)
    ensures
        r == spec_on_line(reading),
{
    reading > IR_THRESHOLD
}


/// Both sensor readings, in the order (inside, outside): whether each sensor
/// sees the line.
pub fn read_sensors(inside_reading: u16, outside_reading: u16) -> (r: (bool, bool))
    ensures
        r == (spec_on_line(inside_reading), spec_on_line(outside_reading)),
{
    (on_line(inside_reading), on_line(outside_reading))
}

/// The state that follows readings `(inner, outer)`, whatever the present
/// state is: the inside sensor alone on the line keeps the robot straight,
/// the outside sensor alone turns it left, and both or neither turn it right.
pub open spec fn spec_next_state(inner: bool, outer: bool) -> STATE {
    match (inner, outer) {
        (true, true) => STATE::RIGHT,
        (true, false) => STATE::STRAIGHT,
        (false, true) => STATE::LEFT,
        (false, false) => STATE::RIGHT,
    }
}

/// The next state for sensor readings `(inner, outer)`.
pub fn next_state(inner: bool, outer: bool) -> (s: STATE)
    ensures
        s == spec_next_state(inner, outer),
{
    match (inner, outer) {
        (true, true) => STATE::RIGHT,
        (true, false) => STATE::STRAIGHT,
        (false, true) => STATE::LEFT,
        (false, false) => STATE::RIGHT,
    }
}

/// Duty cycles, in percent of the PWM period, of the two wheels.
#[derive(Clone, Copy, Debug, PartialEq, Eq, Structural)]
pub struct WheelDuties {
    pub left: usize,
    pub right: usize,
}

/// The wheel duties that the machine outputs in each state.
pub open spec fn spec_wheel_duties(state: STATE) -> WheelDuties {
    match state {
        STATE::STRAIGHT => WheelDuties { left: 67, right: 75 },
        STATE::LEFT => WheelDuties { left: 0, right: 80 },
        STATE::RIGHT => WheelDuties { left: 82, right: 0 },
    }
}

/// The wheel duties output in `state`.
pub fn wheel_duties(state: STATE) -> (d: WheelDuties)
    ensures
        d == spec_wheel_duties(state),
{
    match state {
        STATE::STRAIGHT => WheelDuties { left: 67, right: 75 },
        STATE::LEFT => WheelDuties { left: 0, right: 80 },
        STATE::RIGHT => WheelDuties { left: 82, right: 0 },
    }
}

/// The line follower: its only memory is the present state.
pub struct LineFollower {
    pub state: STATE,
}

impl LineFollower {
    /// The machine at start-up: driving straight.
    pub fn new() -> (f: LineFollower)
        ensures
            f.state == STATE::STRAIGHT,
    {
        LineFollower { state: STATE::STRAIGHT }
    }

    /// The wheel duties to apply in the present state.
    pub fn outputs(&self) -> (d: WheelDuties)
        ensures
            d == spec_wheel_duties(self.state),
    {
        wheel_duties(self.state)
    }

    /// One transition, on the raw ADC readings of the inside and the
    /// outside sensor. The new state depends on the readings alone, not on
    /// the state the machine was in.
    pub fn step(&mut self, inside_reading: u16, outside_reading: u16)
        ensures
            final(self).state == spec_next_state(
                spec_on_line(inside_reading),
                spec_on_line(outside_reading),
            ),
    {
        let (inner, outer) = read_sensors(inside_reading, outside_reading);
        self.state = next_state(inner, outer);
    }
}

/// In every state the wheel duties stay within the PWM period, a turn
/// stops exactly the wheel on the inside of the turn and drives the other,
/// and driving straight drives both.
pub proof fn lemma_wheel_duties_shape(state: STATE)
    ensures
        spec_wheel_duties(state).left <= crate::motors::PWM_TOP,
        spec_wheel_duties(state).right <= crate::motors::PWM_TOP,
        (spec_wheel_duties(state).left == 0) == (state == STATE::LEFT),
        (spec_wheel_duties(state).right == 0) == (state == STATE::RIGHT),
        spec_wheel_duties(state).left > 0 || spec_wheel_duties(state).right > 0,
{
}

/// The wheel duties of each state: straight drives the left wheel at 67 %
/// and the right at 75 %; a left turn stops the left wheel and drives the
/// right at 80 %; a right turn drives the left at 82 % and stops the right.
pub proof fn lemma_wheel_duties_values(state: STATE)
    ensures
        state == STATE::STRAIGHT ==> spec_wheel_duties(state).left == 67 && spec_wheel_duties(state).right == 75,
        state == STATE::LEFT ==> spec_wheel_duties(state).left == 0 && spec_wheel_duties(state).right == 80,
        state == STATE::RIGHT ==> spec_wheel_duties(state).left == 82 && spec_wheel_duties(state).right == 0,
{
}

/// Whenever neither or both sensors see the line the robot turns right,
/// and it only drives straight when the inside sensor alone sees it.
pub proof fn lemma_recovery_turns_right(inner: bool, outer: bool)
    ensures
        (inner == outer) ==> spec_next_state(inner, outer) == STATE::RIGHT,
        (spec_next_state(inner, outer) == STATE::STRAIGHT) == (inner && !outer),
        (spec_next_state(inner, outer) == STATE::LEFT) == (!inner && outer),
{
}

} // verus!
