use vstd::prelude::*;

verus! {

/// GPIO driving the trigger input of the ultrasonic sensor.
pub const TRIG_PIN: u8 = 7;

/// GPIO receiving the echo output of the ultrasonic sensor.
pub const ECHO_PIN: u8 = 6;

/// GPIO of the on-board LED.
pub const LED_PIN: u8 = 25;

/// Timer ticks (microseconds) that pass between two measurements.
pub const SETTLE_TICKS: u32 = 6000;

/// Timer ticks for which the trigger line is held high.
pub const TRIGGER_TICKS: u32 = 10;

/// Echo ticks per centimetre of distance (sound travels there and back).
pub const ECHO_TICKS_PER_CM: u32 = 58;

/// Distance in centimetres below which an obstacle is reported.
pub const OBSTACLE_CM: u32 = 10;

/// Duty cycle of both wheels while the way is free.
pub const FREE_DUTY: usize = 100;

/// Ticks from `since` to `now` on the free-running 32-bit timer, which
/// wraps around: the difference taken modulo 2^32.
pub open spec fn spec_elapsed(now: u32, since: u32) -> int {
    (now - since) % 0x1_0000_0000
}

/// Ticks from `since` to `now` on the wrapping 32-bit timer.
pub fn elapsed(now: u32, since: u32) -> (r: u32)
    ensures
        r == spec_elapsed(now, since),
{
    now.wrapping_sub(since)
}

/// The elapsed ticks from `since` to `now`: the plain difference when `now`
/// is not below `since`, and the difference plus 2^32 when the timer
/// wrapped in between; always below 2^32.
pub proof fn lemma_elapsed_value(now: u32, since: u32)
    ensures
        now >= since ==> spec_elapsed(now, since) == now - since,
        now < since ==> spec_elapsed(now, since) == now - since + 0x1_0000_0000,
        0 <= spec_elapsed(now, since) < 0x1_0000_0000,
{
    if now >= since {
        vstd::arithmetic::div_mod::lemma_small_mod((now - since) as nat, 0x1_0000_0000nat);
    } else {
        vstd::arithmetic::div_mod::lemma_small_mod((now - since + 0x1_0000_0000) as nat, 0x1_0000_0000nat);
        vstd::arithmetic::div_mod::lemma_mod_add_multiples_vanish(now - since, 0x1_0000_0000);
    }
}

/// A duration shorter than the timer's range is measured exactly, even
/// when the counter wraps around during it.
pub proof fn lemma_elapsed_across_wrap(since: u32, duration: int)
    requires
        0 <= duration < 0x1_0000_0000,
    ensures
        spec_elapsed(((since + duration) % 0x1_0000_0000) as u32, since) == duration,
{
    let now = (since + duration) % 0x1_0000_0000;
    if since + duration < 0x1_0000_0000 {
        assert(now == since + duration);
    } else {
        assert(now == since + duration - 0x1_0000_0000);
    }
}

/// Distance in centimetres of an echo that rose at `begin` and fell at `end`.
pub open spec fn spec_distance_cm(begin: u32, end: u32) -> int {
    spec_elapsed(end, begin) / (ECHO_TICKS_PER_CM as int)
}

/// Distance in centimetres of an echo that rose at `begin` and fell at `end`.
pub fn distance_cm(begin: u32, end: u32) -> (d: u32)
    ensures
        d == spec_distance_cm(begin, end),
{
    elapsed(end, begin) / ECHO_TICKS_PER_CM
}

/// Whether a distance counts as an obstacle.
pub open spec fn spec_is_obstacle(distance_cm: int) -> bool {
    distance_cm < OBSTACLE_CM
}

/// Whether a distance counts as an obstacle.
pub fn is_obstacle(distance_cm: u32) -> (r: bool)
    ensures
        r == spec_is_obstacle(distance_cm as int),
{
    distance_cm < OBSTACLE_CM
}

/// The distance is the echo's length in whole centimetres at 58 ticks per
/// centimetre: `d` centimetres cover at least `58 d` and fewer than
/// `58 (d + 1)` ticks of echo.
pub proof fn lemma_distance_cm(begin: u32, end: u32)
    ensures
        spec_distance_cm(begin, end) >= 0,
        spec_distance_cm(begin, end) * 58 <= spec_elapsed(end, begin) < (spec_distance_cm(begin, end) + 1) * 58,
{
    lemma_elapsed_value(end, begin);
    let e = spec_elapsed(end, begin);
    vstd::arithmetic::div_mod::lemma_fundamental_div_mod(e, 58);
}

/// An obstacle is reported exactly when the echo lasted less than 580
/// ticks (ten centimetres at 58 ticks per centimetre).
pub proof fn lemma_obstacle_iff_short_echo(begin: u32, end: u32)
    ensures
        spec_is_obstacle(spec_distance_cm(begin, end)) == (spec_elapsed(end, begin) < 580),
{
    let e = spec_elapsed(end, begin);
    assert(0 <= e);
    if e < 580 {
        assert(e / 58 < 10);
    } else {
        assert(e / 58 >= 10);
    }
}

/// The echo measurement kept by the GPIO interrupt: when the last echo
/// began and whether the last complete echo showed an obstacle.
#[derive(Clone, Copy, Debug, PartialEq, Eq, Structural)]
pub struct EchoMonitor {
    pub echo_begin: u32,
    pub obstacle: bool,
}

/// The monitor after an interrupt in which the rising edge of the echo was
/// seen at `rising` (if it was) and then the falling edge at `falling` (if
/// it was).
pub open spec fn spec_after_irq(m: EchoMonitor, rising: Option<u32>, falling: Option<u32>) -> EchoMonitor {
    let begin = match rising {
        Some(t) => t,
        None => m.echo_begin,
    };
    let obstacle = match falling {
        Some(t) => spec_is_obstacle(spec_distance_cm(begin, t)),
        None => m.obstacle,
    };
    EchoMonitor { echo_begin: begin, obstacle: obstacle }
}

impl EchoMonitor {
    /// The monitor at start-up: no echo seen, no obstacle.
    pub fn new() -> (m: EchoMonitor)
        ensures
            m.echo_begin == 0,
            !m.obstacle,
    {
        EchoMonitor { echo_begin: 0, obstacle: false }
    }

    /// The echo line rose at timer value `now`.
    pub fn on_rising_edge(&mut self, now: u32)
        ensures
            final(self).echo_begin == now,
            final(self).obstacle == old(self).obstacle,
    {
        self.echo_begin = now;
    }

    /// The echo line fell at timer value `now`: the obstacle flag is set
    /// from the distance the echo measured.
    pub fn on_falling_edge(&mut self, now: u32)
        ensures
            final(self).echo_begin == old(self).echo_begin,
            final(self).obstacle == spec_is_obstacle(spec_distance_cm(old(self).echo_begin, now)),
    {
        let d = distance_cm(self.echo_begin, now);
        self.obstacle = is_obstacle(d);
    }

    /// One GPIO interrupt: the rising edge, if flagged, is handled before
    /// the falling edge, if flagged, each at the timer value read for it.
    pub fn handle_irq(&mut self, rising: Option<u32>, falling: Option<u32>)
        ensures
            *final(self) == spec_after_irq(*old(self), rising, falling),
    {
        match rising {
            Some(t) => self.on_rising_edge(t),
            None => {},
        }
        match falling {
            Some(t) => self.on_falling_edge(t),
            None => {},
        }
    }
}

/// What an interrupt does to the monitor: a rising edge only records its
/// time as the echo's start; the obstacle flag changes only at a falling
/// edge, where it is set exactly when fewer than 580 ticks passed since the
/// echo's start (the one just recorded, if the same interrupt saw both
/// edges); an interrupt with neither edge changes nothing.
pub proof fn lemma_irq_effect(m: EchoMonitor, rising: Option<u32>, falling: Option<u32>)
    ensures
        spec_after_irq(m, rising, None).obstacle == m.obstacle,
        spec_after_irq(m, rising, falling).echo_begin == match rising {
            Some(t) => t,
            None => m.echo_begin,
        },
        falling matches Some(t) ==> spec_after_irq(m, rising, falling).obstacle == (spec_elapsed(
            t,
            spec_after_irq(m, rising, falling).echo_begin,
        ) < 580),
        spec_after_irq(m, None, None) == m,
{
    let begin = match rising {
        Some(t) => t,
        None => m.echo_begin,
    };
    match falling {
        Some(t) => lemma_obstacle_iff_short_echo(begin, t),
        None => {},
    }
}

/// A rising edge followed by a falling edge `duration` ticks later (less
/// than the timer's range, wrap-around included) reports an obstacle
/// exactly when the echo was shorter than 580 ticks.
pub proof fn lemma_echo_pulse(m: EchoMonitor, begin: u32, duration: int)
    requires
        0 <= duration < 0x1_0000_0000,
    ensures
        spec_after_irq(
            spec_after_irq(m, Some(begin), None),
            None,
            Some(((begin + duration) % 0x1_0000_0000) as u32),
        ) == (EchoMonitor { echo_begin: begin, obstacle: duration < 580 }),
{
    let end = ((begin + duration) % 0x1_0000_0000) as u32;
    lemma_elapsed_across_wrap(begin, duration);
    lemma_obstacle_iff_short_echo(begin, end);
}

/// The duty cycle of both wheels given the obstacle flag: full speed while
/// the way is free, stopped otherwise.
pub open spec fn spec_detection_duty(obstacle: bool) -> usize {
    if obstacle { 0 } else { FREE_DUTY }
}

/// The duty cycle of both wheels given the obstacle flag.
pub fn detection_duty(obstacle: bool) -> (d: usize)
    ensures
        d == spec_detection_duty(obstacle),
{
    if !obstacle {
        FREE_DUTY
    } else {
        0
    }
}

/// Where the measurement loop stands.
#[derive(Clone, Copy, Debug, PartialEq, Eq, Structural)]
pub enum DetectPhase {
    /// About to note the time at which the pause between measurements starts.
    SettleStart,
    /// Pausing since timer value `since`.
    Settling { since: u32 },
    /// About to note the time and raise the trigger.
    PulseStart,
    /// Trigger high since timer value `since`.
    Pulsing { since: u32 },
    /// Trigger lowered; about to set the wheels from the obstacle flag.
    DriveStart,
}

/// What the measurement loop does after a step.
#[derive(Clone, Copy, Debug, PartialEq, Eq, Structural)]
pub enum DetectAction {
    /// Nothing; read the timer again.
    Wait,
    /// Drive the trigger line high.
    RaiseTrigger,
    /// Drive the trigger line low.
    LowerTrigger,
    /// Set both wheels to `duty`.
    Drive { duty: usize },
}

/// One step of the measurement loop, on the timer value `now` just read and
/// the obstacle flag the interrupt keeps, read just before the step.
pub open spec fn spec_detection_step(phase: DetectPhase, now: u32, obstacle: bool) -> (DetectPhase, DetectAction) {
    match phase {
        DetectPhase::SettleStart => (DetectPhase::Settling { since: now }, DetectAction::Wait),
        DetectPhase::Settling { since } => if spec_elapsed(now, since) <= SETTLE_TICKS {
            (phase, DetectAction::Wait)
        } else {
            (DetectPhase::PulseStart, DetectAction::Wait)
        },
        DetectPhase::PulseStart => (DetectPhase::Pulsing { since: now }, DetectAction::RaiseTrigger),
        DetectPhase::Pulsing { since } => if spec_elapsed(now, since) < TRIGGER_TICKS {
            (phase, DetectAction::Wait)
        } else {
            (DetectPhase::DriveStart, DetectAction::LowerTrigger)
        },
        DetectPhase::DriveStart => (
            DetectPhase::SettleStart,
            DetectAction::Drive { duty: spec_detection_duty(obstacle) },
        ),
    }
}

/// One step of the measurement loop.
pub fn detection_step(phase: DetectPhase, now: u32, obstacle: bool) -> (r: (DetectPhase, DetectAction))
    ensures
        r == spec_detection_step(phase, now, obstacle),
{
    match phase {
        DetectPhase::SettleStart => (DetectPhase::Settling { since: now }, DetectAction::Wait),
        DetectPhase::Settling { since } => {
            if elapsed(now, since) <= SETTLE_TICKS {
                (phase, DetectAction::Wait)
            } else {
                (DetectPhase::PulseStart, DetectAction::Wait)
            }
        },
        DetectPhase::PulseStart => (DetectPhase::Pulsing { since: now }, DetectAction::RaiseTrigger),
        DetectPhase::Pulsing { since } => {
            if elapsed(now, since) < TRIGGER_TICKS {
                (phase, DetectAction::Wait)
            } else {
                (DetectPhase::DriveStart, DetectAction::LowerTrigger)
            }
        },
        DetectPhase::DriveStart => (
            DetectPhase::SettleStart,
            DetectAction::Drive { duty: detection_duty(obstacle) },
        ),
    }
}

/// The order of the measurement loop: a pause of more than 6000 ticks
/// comes before every trigger pulse, the trigger is raised only at the
/// start of a pulse, it is lowered only after at least 10 ticks, and right
/// after that the wheels are set, stopped exactly when an obstacle is
/// flagged.
pub proof fn lemma_detection_protocol(phase: DetectPhase, now: u32, obstacle: bool)
    ensures
        ({
            let (next, action) = spec_detection_step(phase, now, obstacle);
            &&& (next == DetectPhase::PulseStart && phase != next) ==> (phase matches DetectPhase::Settling { since }
                && spec_elapsed(now, since) > SETTLE_TICKS)
            &&& action == DetectAction::RaiseTrigger <==> phase == DetectPhase::PulseStart
            &&& action == DetectAction::LowerTrigger ==> (phase matches DetectPhase::Pulsing { since }
                && spec_elapsed(now, since) >= TRIGGER_TICKS
                && next == DetectPhase::DriveStart)
            &&& action is Drive <==> phase == DetectPhase::DriveStart
            &&& action matches DetectAction::Drive { duty } ==> ((duty == 0) == obstacle
                && duty <= crate::motors::PWM_TOP
                && next == DetectPhase::SettleStart)
        }),
{
}

/// What each step does, phase by phase: a pause goes on, waiting, while at
/// most 6000 ticks have passed since it began, and is left without an
/// action once more have; the trigger stays high, waiting, while fewer than
/// 10 ticks have passed since it was raised, and is then lowered; the start
/// phases take the time just read; after the trigger is lowered the wheels
/// are set, stopped exactly when an obstacle is flagged. Hence the drive
/// phase is entered only by lowering the trigger, and the pulse only by
/// raising it.
pub proof fn lemma_detection_step_effect(phase: DetectPhase, now: u32, obstacle: bool)
    ensures
        phase matches DetectPhase::Settling { since } ==> spec_detection_step(phase, now, obstacle) == if spec_elapsed(
            now,
            since,
        ) <= 6000 {
            (phase, DetectAction::Wait)
        } else {
            (DetectPhase::PulseStart, DetectAction::Wait)
        },
        phase matches DetectPhase::Pulsing { since } ==> spec_detection_step(phase, now, obstacle) == if spec_elapsed(
            now,
            since,
        ) < 10 {
            (phase, DetectAction::Wait)
        } else {
            (DetectPhase::DriveStart, DetectAction::LowerTrigger)
        },
        phase == DetectPhase::SettleStart ==> spec_detection_step(phase, now, obstacle) == (
            DetectPhase::Settling { since: now },
            DetectAction::Wait,
        ),
        phase == DetectPhase::PulseStart ==> spec_detection_step(phase, now, obstacle) == (
            DetectPhase::Pulsing { since: now },
            DetectAction::RaiseTrigger,
        ),
        phase == DetectPhase::DriveStart ==> spec_detection_step(phase, now, obstacle) == (
            DetectPhase::SettleStart,
            DetectAction::Drive { duty: if obstacle { 0 } else { 100 } },
        ),
        spec_detection_step(phase, now, obstacle).0 == DetectPhase::DriveStart ==> (phase is Pulsing
            && spec_detection_step(phase, now, obstacle).1 == DetectAction::LowerTrigger),
        (spec_detection_step(phase, now, obstacle).0 is Pulsing && !(phase is Pulsing)) ==> (phase
            == DetectPhase::PulseStart && spec_detection_step(phase, now, obstacle).1 == DetectAction::RaiseTrigger),
        now == (match phase {
            DetectPhase::Settling { since } => since,
            DetectPhase::Pulsing { since } => since,
            _ => now,
        }) && (phase is Settling || phase is Pulsing) ==> spec_detection_step(phase, now, obstacle) == (
            phase,
            DetectAction::Wait,
        ),
{
    lemma_elapsed_value(now, now);
}

/// The 32-bit timer register at true time `t` (in ticks).
pub open spec fn timer_reading(t: int) -> u32 {
    (t % 0x1_0000_0000) as u32
}

/// True times of successive timer reads that keep advancing: each read
/// comes at least one tick and less than 2^31 ticks after the one before.
pub open spec fn advancing(times: Seq<int>) -> bool {
    forall|k: int| 0 < k < times.len() ==> times[k - 1] < #[trigger] times[k] < times[k - 1] + 0x8000_0000
}

/// The phase of the measurement loop after its first `n` steps, started in
/// `phase`, the `k`-th step reading the timer at true time `times[k]` and
/// the obstacle flag `obstacles[k]`.
pub open spec fn detection_run(phase: DetectPhase, times: Seq<int>, obstacles: Seq<bool>, n: nat) -> DetectPhase
    decreases n,
{
    if n == 0 {
        phase
    } else {
        spec_detection_step(
            detection_run(phase, times, obstacles, (n - 1) as nat),
            timer_reading(times[n - 1]),
            obstacles[n - 1],
        ).0
    }
}

/// The action of step `k` of such a run.
pub open spec fn detection_action(phase: DetectPhase, times: Seq<int>, obstacles: Seq<bool>, k: nat) -> DetectAction {
    spec_detection_step(detection_run(phase, times, obstacles, k), timer_reading(times[k as int]), obstacles[k as int]).1
}

/// The timer measures true durations below 2^32 exactly.
pub proof fn lemma_reading_elapsed(a: int, b: int)
    requires
        a <= b < a + 0x1_0000_0000,
    ensures
        spec_elapsed(timer_reading(b), timer_reading(a)) == b - a,
{
    let m: int = 0x1_0000_0000;
    vstd::arithmetic::div_mod::lemma_sub_mod_noop(b, a, m);
    vstd::arithmetic::div_mod::lemma_small_mod((b - a) as nat, m as nat);
    assert(timer_reading(b) as int == b % m);
    assert(timer_reading(a) as int == a % m);
}

proof fn lemma_advancing_gap(times: Seq<int>, i: int, j: int)
    requires
        advancing(times),
        0 <= i <= j < times.len(),
    ensures
        times[j] - times[i] >= j - i,
    decreases j - i,
{
    if i < j {
        lemma_advancing_gap(times, i, j - 1);
        assert(times[j - 1] < times[j]);
    }
}

/// While pausing since the read at index `s`, the loop leaves the pause
/// within 6001 reads of it, waiting until then.
proof fn lemma_settle_ends(p: DetectPhase, times: Seq<int>, obstacles: Seq<bool>, s: nat, k: nat) -> (end: nat)
    requires
        advancing(times),
        obstacles.len() == times.len(),
        s < k <= s + 6001,
        s + 6001 < times.len(),
        times[k - 1] - times[s as int] <= SETTLE_TICKS,
        detection_run(p, times, obstacles, k) == (DetectPhase::Settling { since: timer_reading(times[s as int]) }),
    ensures
        k <= end <= s + 6001,
        detection_run(p, times, obstacles, end + 1) == DetectPhase::PulseStart,
        forall|j: nat| k <= j <= end ==> #[trigger] detection_action(p, times, obstacles, j) == DetectAction::Wait,
    decreases s + 6001 - k,
{
    lemma_advancing_gap(times, s as int, k as int);
    assert(times[k - 1] < times[k as int] < times[k - 1] + 0x8000_0000);
    lemma_reading_elapsed(times[s as int], times[k as int]);
    if times[k as int] - times[s as int] <= SETTLE_TICKS {
        assert(detection_run(p, times, obstacles, k + 1) == detection_run(p, times, obstacles, k));
        let end = lemma_settle_ends(p, times, obstacles, s, k + 1);
        assert(detection_action(p, times, obstacles, k) == DetectAction::Wait);
        end
    } else {
        k
    }
}

/// While the trigger is high since the read at index `s`, the loop lowers
/// it within 10 reads of it, waiting until then.
proof fn lemma_pulse_ends(p: DetectPhase, times: Seq<int>, obstacles: Seq<bool>, s: nat, k: nat) -> (end: nat)
    requires
        advancing(times),
        obstacles.len() == times.len(),
        s < k <= s + 10,
        s + 10 < times.len(),
        times[k - 1] - times[s as int] < TRIGGER_TICKS,
        detection_run(p, times, obstacles, k) == (DetectPhase::Pulsing { since: timer_reading(times[s as int]) }),
    ensures
        k <= end <= s + 10,
        detection_run(p, times, obstacles, end + 1) == DetectPhase::DriveStart,
        detection_action(p, times, obstacles, end) == DetectAction::LowerTrigger,
        forall|j: nat| k <= j < end ==> #[trigger] detection_action(p, times, obstacles, j) == DetectAction::Wait,
    decreases s + 10 - k,
{
    lemma_advancing_gap(times, s as int, k as int);
    assert(times[k - 1] < times[k as int] < times[k - 1] + 0x8000_0000);
    lemma_reading_elapsed(times[s as int], times[k as int]);
    if times[k as int] - times[s as int] < TRIGGER_TICKS {
        assert(detection_run(p, times, obstacles, k + 1) == detection_run(p, times, obstacles, k));
        let end = lemma_pulse_ends(p, times, obstacles, s, k + 1);
        assert(detection_action(p, times, obstacles, k) == DetectAction::Wait);
        end
    } else {
        k
    }
}

/// Progress of the measurement loop: with timer reads that keep advancing,
/// a loop at the start of a pause raises the trigger, lowers it and sets
/// the wheels from the obstacle flag within its first 6015 steps, and is
/// then back at the start of a pause.
pub proof fn lemma_detection_cycle(times: Seq<int>, obstacles: Seq<bool>) -> (cycle: (nat, nat, nat))
    requires
        advancing(times),
        obstacles.len() == times.len(),
        times.len() >= 6015,
    ensures
        ({
            let (raise, lower, drive) = cycle;
            let p = DetectPhase::SettleStart;
            &&& 0 < raise < lower < drive < 6015
            &&& detection_action(p, times, obstacles, raise) == DetectAction::RaiseTrigger
            &&& detection_action(p, times, obstacles, lower) == DetectAction::LowerTrigger
            &&& detection_action(p, times, obstacles, drive) == (DetectAction::Drive {
                duty: spec_detection_duty(obstacles[drive as int]),
            })
            &&& detection_run(p, times, obstacles, drive + 1) == DetectPhase::SettleStart
        }),
{
    let p = DetectPhase::SettleStart;
    assert(detection_run(p, times, obstacles, 0) == p);
    assert(detection_run(p, times, obstacles, 1) == (DetectPhase::Settling { since: timer_reading(times[0]) }));
    let settle_end = lemma_settle_ends(p, times, obstacles, 0, 1);
    let raise = settle_end + 1;
    assert(detection_action(p, times, obstacles, raise) == DetectAction::RaiseTrigger);
    assert(detection_run(p, times, obstacles, raise + 1) == (DetectPhase::Pulsing {
        since: timer_reading(times[raise as int]),
    }));
    let lower = lemma_pulse_ends(p, times, obstacles, raise, raise + 1);
    let drive = lower + 1;
    assert(detection_action(p, times, obstacles, drive) == (DetectAction::Drive {
        duty: spec_detection_duty(obstacles[drive as int]),
    }));
    assert(detection_run(p, times, obstacles, drive + 1) == DetectPhase::SettleStart);
    (raise, lower, drive)
}

proof fn lemma_run_split(p: DetectPhase, times: Seq<int>, obstacles: Seq<bool>, a: nat, b: nat)
    requires
        a + b <= times.len(),
        obstacles.len() == times.len(),
    ensures
        detection_run(p, times, obstacles, a + b) == detection_run(
            detection_run(p, times, obstacles, a),
            times.skip(a as int),
            obstacles.skip(a as int),
            b,
        ),
    decreases b,
{
    if b > 0 {
        lemma_run_split(p, times, obstacles, a, (b - 1) as nat);
        assert(times.skip(a as int)[b - 1] == times[a + b - 1]);
        assert(obstacles.skip(a as int)[b - 1] == obstacles[a + b - 1]);
    }
}

proof fn lemma_action_split(p: DetectPhase, times: Seq<int>, obstacles: Seq<bool>, a: nat, j: nat)
    requires
        a + j < times.len(),
        obstacles.len() == times.len(),
    ensures
        detection_action(p, times, obstacles, a + j) == detection_action(
            detection_run(p, times, obstacles, a),
            times.skip(a as int),
            obstacles.skip(a as int),
            j,
        ),
{
    lemma_run_split(p, times, obstacles, a, j);
    assert(times.skip(a as int)[j as int] == times[(a + j) as int]);
    assert(obstacles.skip(a as int)[j as int] == obstacles[(a + j) as int]);
}

/// One measurement cycle of a run: the steps at which the trigger is raised,
/// lowered, and the wheels are set.
pub open spec fn is_cycle(p: DetectPhase, times: Seq<int>, obstacles: Seq<bool>, c: (nat, nat, nat)) -> bool {
    &&& c.0 < c.1 < c.2
    &&& detection_action(p, times, obstacles, c.0) == DetectAction::RaiseTrigger
    &&& detection_action(p, times, obstacles, c.1) == DetectAction::LowerTrigger
    &&& detection_action(p, times, obstacles, c.2) == (DetectAction::Drive {
        duty: spec_detection_duty(obstacles[c.2 as int]),
    })
}

/// Progress of the measurement loop over any number of cycles: with timer
/// reads that keep advancing, a loop started at the start of a pause
/// completes `n` measurement cycles, one after the other, within its first
/// `6015 * n` steps; in each the trigger is raised, lowered, and then the
/// wheels are set from the obstacle flag.
pub proof fn lemma_detection_cycles(times: Seq<int>, obstacles: Seq<bool>, n: nat) -> (cycles: Seq<(nat, nat, nat)>)
    requires
        advancing(times),
        obstacles.len() == times.len(),
        times.len() >= 6015 * n,
    ensures
        cycles.len() == n,
        forall|i: int|
            0 <= i < n ==> is_cycle(DetectPhase::SettleStart, times, obstacles, #[trigger] cycles[i])
                && cycles[i].2 < 6015 * (i + 1),
        forall|i: int| 0 <= i < n - 1 ==> #[trigger] cycles[i].2 < cycles[i + 1].0,
    decreases n,
{
    let p = DetectPhase::SettleStart;
    if n == 0 {
        Seq::empty()
    } else {
        let (r, l, d) = lemma_detection_cycle(times, obstacles);
        let a: nat = d + 1;
        let rest_t = times.skip(a as int);
        let rest_o = obstacles.skip(a as int);
        assert(advancing(rest_t)) by {
            assert forall|k: int| 0 < k < rest_t.len() implies rest_t[k - 1] < #[trigger] rest_t[k] < rest_t[k - 1]
                + 0x8000_0000 by {
                assert(rest_t[k] == times[a + k]);
                assert(rest_t[k - 1] == times[a + k - 1]);
            }
        }
        assert(6015 * n == 6015 * (n - 1) + 6015) by (nonlinear_arith);
        let rest = lemma_detection_cycles(rest_t, rest_o, (n - 1) as nat);
        assert(detection_run(p, times, obstacles, a) == p);
        let shifted = Seq::new(
            (n - 1) as nat,
            |i: int| ((rest[i].0 + a) as nat, (rest[i].1 + a) as nat, (rest[i].2 + a) as nat),
        );
        let cycles = seq![(r, l, d)] + shifted;
        assert forall|i: int| 0 <= i < n implies is_cycle(p, times, obstacles, #[trigger] cycles[i])
            && cycles[i].2 < 6015 * (i + 1) by {
            if i > 0 {
                let c = rest[i - 1];
                assert(cycles[i] == shifted[i - 1]);
                assert(is_cycle(p, rest_t, rest_o, c) && c.2 < 6015 * i);
                lemma_action_split(p, times, obstacles, a, c.0);
                lemma_action_split(p, times, obstacles, a, c.1);
                lemma_action_split(p, times, obstacles, a, c.2);
                assert(rest_o[c.2 as int] == obstacles[(a + c.2) as int]);
            }
        }
        assert forall|i: int| 0 <= i < n - 1 implies #[trigger] cycles[i].2 < cycles[i + 1].0 by {
            if i > 0 {
                assert(cycles[i] == shifted[i - 1]);
                assert(cycles[i + 1] == shifted[i]);
                assert(rest[i - 1].2 < rest[i].0);
            } else {
                assert(cycles[1] == shifted[0]);
            }
        }
        cycles
    }
}

/// Bit mask of GPIO `pin` in the SIO registers.
pub fn pin_mask(pin: u8) -> (m: u32)
    requires
        pin < 32,
    ensures
        m == 1u32 << pin,
{
    1u32 << pin
}

/// Output-enable mask of the obstacle mission: the trigger pin and the LED.
pub fn trigger_output_enable_mask() -> (m: u32)
    ensures
        m == (1u32 << TRIG_PIN) | (1u32 << LED_PIN),
        m == 0x0200_0080,
{
    let m = pin_mask(TRIG_PIN) | pin_mask(LED_PIN);
    assert((1u32 << 7u8) | (1u32 << 25u8) == 0x0200_0080u32) by (bit_vector);
    m
}

/// Mask of the pins driven low when the obstacle mission starts: the echo
/// and the trigger pin.
pub fn sensor_clear_mask() -> (m: u32)
    ensures
        m == (1u32 << ECHO_PIN) | (1u32 << TRIG_PIN),
        m == 0xc0,
{
    let m = pin_mask(ECHO_PIN) | pin_mask(TRIG_PIN);
    assert((1u32 << 6u8) | (1u32 << 7u8) == 0xc0u32) by (bit_vector);
    m
}

} // verus!
