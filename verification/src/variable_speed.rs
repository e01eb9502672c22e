use vstd::prelude::*;

verus! {

/// Processor cycles in one unit of `delay`.
pub const DELAY_UNIT_CYCLES: u32 = 6_000_000;

/// Busy-wait length, in processor cycles, of a delay of `units`.
pub fn delay_cycles(units: u32) -> (c: u32)
    requires
        units * DELAY_UNIT_CYCLES <= u32::MAX,
    ensures
        c == units * DELAY_UNIT_CYCLES,
{
    units * DELAY_UNIT_CYCLES
}

/// One step of the variable-speed run.
#[derive(Clone, Copy, Debug, PartialEq, Eq, Structural)]
pub enum DriveStep {
    /// Set the duty cycle of both motors, in percent.
    SetDuty(usize),
    /// Wait for this many delay units.
    Delay(u32),
}

/// Number of speed steps of the slow-down ramp.
pub const RAMP_STEPS: usize = 20;

/// Duty cycle drop per ramp step.
pub const RAMP_DECREMENT: usize = 5;

/// Delay units each ramp step is held.
pub const RAMP_HOLD: u32 = 5;

/// Entry `k` of the slow-down ramp, in which duty settings and waits
/// alternate: the `i`-th duty is `100 - 5 i`.
pub open spec fn spec_ramp_entry(k: int) -> DriveStep {
    if k % 2 == 0 {
        DriveStep::SetDuty((100 - 5 * (k / 2)) as usize)
    } else {
        DriveStep::Delay(RAMP_HOLD)
    }
}

/// The first `n` entries of the slow-down ramp.
pub open spec fn spec_ramp(n: nat) -> Seq<DriveStep> {
    Seq::new(n, |k: int| spec_ramp_entry(k))
}

/// The whole run: 75 % for 20 units, 100 % for 10 units, then twenty steps
/// from 100 % down by 5 % each held 5 units, and finally a stop.
pub open spec fn spec_drive_plan() -> Seq<DriveStep> {
    seq![DriveStep::SetDuty(75), DriveStep::Delay(20), DriveStep::SetDuty(100), DriveStep::Delay(10)]
        + spec_ramp(2 * RAMP_STEPS as nat)
        + seq![DriveStep::SetDuty(0)]
}

/// The steps of the variable-speed run, in order.
pub fn drive_plan() -> (plan: Vec<DriveStep>)
    ensures
        plan@ == spec_drive_plan(),
{
    let mut plan: Vec<DriveStep> = Vec::new();
    plan.push(DriveStep::SetDuty(75));
    plan.push(DriveStep::Delay(20));
    plan.push(DriveStep::SetDuty(100));
    plan.push(DriveStep::Delay(10));
    let ghost head = plan@;
    assert(plan@ == head + spec_ramp(0));
    for i in 0..RAMP_STEPS
        invariant
            head == seq![DriveStep::SetDuty(75), DriveStep::Delay(20), DriveStep::SetDuty(100), DriveStep::Delay(10)],
            plan@ == head + spec_ramp(2 * i as nat),
    {
        let duty: usize = 100 - RAMP_DECREMENT * i;
        plan.push(DriveStep::SetDuty(duty));
        plan.push(DriveStep::Delay(RAMP_HOLD));
        assert(spec_ramp_entry(2 * i as int) == DriveStep::SetDuty(duty));
        assert(spec_ramp(2 * (i + 1) as nat) == spec_ramp(2 * i as nat).push(DriveStep::SetDuty(duty)).push(
            DriveStep::Delay(RAMP_HOLD),
        ));
    }
    plan.push(DriveStep::SetDuty(0));
    plan
}


/// Sum of the delay units of `steps`.
pub open spec fn spec_total_delay(steps: Seq<DriveStep>) -> nat
    decreases steps.len(),
{
    if steps.len() == 0 {
        0
    } else {
        spec_total_delay(steps.drop_last()) + match steps.last() {
            DriveStep::Delay(u) => u as nat,
            DriveStep::SetDuty(_) => 0,
        }
    }
}

proof fn lemma_total_delay_concat(a: Seq<DriveStep>, b: Seq<DriveStep>)
    ensures
        spec_total_delay(a + b) == spec_total_delay(a) + spec_total_delay(b),
    decreases b.len(),
{
    if b.len() == 0 {
        assert(a + b == a);
    } else {
        lemma_total_delay_concat(a, b.drop_last());
        assert((a + b).drop_last() == a + b.drop_last());
        assert((a + b).last() == b.last());
    }
}

proof fn lemma_ramp_delay(n: nat)
    ensures
        spec_total_delay(spec_ramp(2 * n)) == 5 * n,
    decreases n,
{
    if n > 0 {
        let m = (n - 1) as nat;
        lemma_ramp_delay(m);
        let r = spec_ramp(2 * n);
        assert(r.drop_last().drop_last() == spec_ramp(2 * m));
        assert(r.last() == DriveStep::Delay(RAMP_HOLD));
        assert(r.drop_last().last() == spec_ramp_entry((2 * m) as int));
        assert(spec_total_delay(r) == spec_total_delay(r.drop_last()) + 5);
        assert(spec_total_delay(r.drop_last()) == spec_total_delay(r.drop_last().drop_last()));
    } else {
        assert(spec_ramp(0).len() == 0);
    }
}

/// Every duty the run sets stays within the PWM period, the ramp falls by
/// exactly 5 % per step from 100 % to 5 %, every duty but the final stop is
/// held by a wait, and the run ends with the motors stopped.
pub proof fn lemma_drive_plan_shape()
    ensures
        spec_drive_plan().len() == 45,
        spec_drive_plan()[0] == DriveStep::SetDuty(75),
        spec_drive_plan()[1] == DriveStep::Delay(20),
        spec_drive_plan()[2] == DriveStep::SetDuty(100),
        spec_drive_plan()[3] == DriveStep::Delay(10),
        forall|i: int| 0 <= i < RAMP_STEPS ==> #[trigger] spec_drive_plan()[5 + 2 * i] == DriveStep::Delay(5),
        forall|k: int|
            0 <= k < spec_drive_plan().len() ==> (#[trigger] spec_drive_plan()[k] matches DriveStep::SetDuty(d)
                ==> d <= crate::motors::PWM_TOP),
        forall|k: int|
            0 <= k < spec_drive_plan().len() - 1 ==> (#[trigger] spec_drive_plan()[k] is SetDuty
                ==> spec_drive_plan()[k + 1] is Delay),
        forall|i: int|
            0 <= i < RAMP_STEPS ==> #[trigger] spec_drive_plan()[4 + 2 * i] == DriveStep::SetDuty(
                (100 - 5 * i) as usize,
            ),
        spec_drive_plan().last() == DriveStep::SetDuty(0),
{
    let p = spec_drive_plan();
    assert forall|k: int| 0 <= k < p.len() && #[trigger] p[k] is SetDuty implies (p[k] matches DriveStep::SetDuty(d)
        && d <= crate::motors::PWM_TOP) by {
        if 4 <= k < 44 {
            assert(p[k] == spec_ramp_entry(k - 4));
        }
    }
    assert forall|k: int| 0 <= k < p.len() - 1 && #[trigger] p[k] is SetDuty implies p[k + 1] is Delay by {
        if 4 <= k < 44 {
            assert(p[k] == spec_ramp_entry(k - 4));
            if k + 1 < 44 {
                assert(p[k + 1] == spec_ramp_entry(k + 1 - 4));
            }
        }
    }
    assert forall|i: int| 0 <= i < RAMP_STEPS implies #[trigger] p[5 + 2 * i] == DriveStep::Delay(5) by {
        assert(p[5 + 2 * i] == spec_ramp_entry(2 * i + 1));
    }
    assert forall|i: int| 0 <= i < RAMP_STEPS implies #[trigger] p[4 + 2 * i] == DriveStep::SetDuty(
        (100 - 5 * i) as usize,
    ) by {
        assert(p[4 + 2 * i] == spec_ramp_entry(2 * i));
    }
}

/// The run waits 130 delay units in all (20 at 75 %, 10 at 100 %, 100 on
/// the ramp): 780 million processor cycles.
pub proof fn lemma_drive_plan_duration()
    ensures
        spec_total_delay(spec_drive_plan()) == 130,
        130 * DELAY_UNIT_CYCLES == 780_000_000,
{
    let head = seq![DriveStep::SetDuty(75), DriveStep::Delay(20), DriveStep::SetDuty(100), DriveStep::Delay(10)];
    let tail = seq![DriveStep::SetDuty(0)];
    lemma_total_delay_concat(head, spec_ramp(40));
    lemma_total_delay_concat(head + spec_ramp(40), tail);
    lemma_ramp_delay(20);
    reveal_with_fuel(spec_total_delay, 5);
    assert(head.drop_last() == seq![DriveStep::SetDuty(75), DriveStep::Delay(20), DriveStep::SetDuty(100)]);
    assert(head.drop_last().drop_last() == seq![DriveStep::SetDuty(75), DriveStep::Delay(20)]);
    assert(head.drop_last().drop_last().drop_last() == seq![DriveStep::SetDuty(75)]);
    assert(head.drop_last().drop_last().drop_last().drop_last() == Seq::<DriveStep>::empty());
    assert(spec_total_delay(head) == 30);
    assert(tail.drop_last() == Seq::<DriveStep>::empty());
    assert(spec_total_delay(tail) == 0);
}

} // verus!
