use robot_lab::line_follower::{
    next_state, on_line, read_sensors, wheel_duties, LineFollower, WheelDuties, IR_INSIDE, IR_OUTSIDE, STATE,
};

#[test]
fn threshold_is_strictly_above_750() {
    assert!(!on_line(0));
    assert!(!on_line(750));
    assert!(on_line(751));
    assert!(on_line(4095));
}

#[test]
fn readings_are_inside_then_outside() {
    assert_eq!(read_sensors(800, 100), (true, false));
    assert_eq!(read_sensors(100, 800), (false, true));
    assert_eq!(IR_INSIDE, 0);
    assert_eq!(IR_OUTSIDE, 1);
}

#[test]
fn transition_table() {
    assert_eq!(next_state(true, true), STATE::RIGHT);
    assert_eq!(next_state(true, false), STATE::STRAIGHT);
    assert_eq!(next_state(false, true), STATE::LEFT);
    assert_eq!(next_state(false, false), STATE::RIGHT);
}

#[test]
fn outputs_per_state() {
    assert_eq!(wheel_duties(STATE::STRAIGHT), WheelDuties { left: 67, right: 75 });
    assert_eq!(wheel_duties(STATE::LEFT), WheelDuties { left: 0, right: 80 });
    assert_eq!(wheel_duties(STATE::RIGHT), WheelDuties { left: 82, right: 0 });
}

#[test]
fn follower_starts_straight_and_follows_readings() {
    let mut f = LineFollower::new();
    assert_eq!(f.state, STATE::STRAIGHT);
    assert_eq!(f.outputs(), WheelDuties { left: 67, right: 75 });
    f.step(100, 900);
    assert_eq!(f.state, STATE::LEFT);
    assert_eq!(f.outputs(), WheelDuties { left: 0, right: 80 });
    f.step(751, 750);
    assert_eq!(f.state, STATE::STRAIGHT);
    f.step(0, 0);
    assert_eq!(f.state, STATE::RIGHT);
    assert_eq!(f.outputs(), WheelDuties { left: 82, right: 0 });
}

#[test]
fn next_state_ignores_previous_state() {
    for start in [STATE::STRAIGHT, STATE::LEFT, STATE::RIGHT] {
        let mut f = LineFollower { state: start };
        f.step(1000, 1000);
        assert_eq!(f.state, STATE::RIGHT);
        let mut g = LineFollower { state: start };
        g.step(1000, 0);
        assert_eq!(g.state, STATE::STRAIGHT);
    }
}

#[test]
fn duties_within_period_and_turns_stop_inner_wheel() {
    for s in [STATE::STRAIGHT, STATE::LEFT, STATE::RIGHT] {
        let d = wheel_duties(s);
        assert!(d.left <= 100 && d.right <= 100);
        assert_eq!(d.left == 0, s == STATE::LEFT);
        assert_eq!(d.right == 0, s == STATE::RIGHT);
    }
}
