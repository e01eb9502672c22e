use robot_lab::variable_speed::{delay_cycles, drive_plan, DriveStep};

#[test]
fn delay_units_are_six_million_cycles() {
    assert_eq!(delay_cycles(0), 0);
    assert_eq!(delay_cycles(20), 120_000_000);
    assert_eq!(delay_cycles(10), 60_000_000);
    assert_eq!(delay_cycles(5), 30_000_000);
    assert_eq!(delay_cycles(715), 4_290_000_000);
}

#[test]
fn plan_matches_routine() {
    let plan = drive_plan();
    assert_eq!(plan.len(), 45);
    assert_eq!(plan[0], DriveStep::SetDuty(75));
    assert_eq!(plan[1], DriveStep::Delay(20));
    assert_eq!(plan[2], DriveStep::SetDuty(100));
    assert_eq!(plan[3], DriveStep::Delay(10));
    for i in 0..20usize {
        assert_eq!(plan[4 + 2 * i], DriveStep::SetDuty(100 - 5 * i));
        assert_eq!(plan[5 + 2 * i], DriveStep::Delay(5));
    }
    assert_eq!(plan[44], DriveStep::SetDuty(0));
}

#[test]
fn plan_duration_and_bounds() {
    let plan = drive_plan();
    let mut units: u32 = 0;
    for s in plan.iter() {
        match s {
            DriveStep::Delay(u) => units += *u,
            DriveStep::SetDuty(d) => assert!(*d <= 100),
        }
    }
    assert_eq!(units, 130);
    assert_eq!(units as u64 * 6_000_000, 780_000_000);
}
