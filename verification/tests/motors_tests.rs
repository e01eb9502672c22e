use robot_lab::motors::{CcField, Direction, DutyWrite, Motor, MotorControl, PwmSetup, PWM_TOP};

#[test]
fn new_motor_drives_forward_on_its_slice() {
    let m = Motor::new(1);
    assert_eq!(m.slice(), 1);
    assert_eq!(m.current_direction(), Direction::FORTH);
}

#[test]
fn forward_duty_goes_to_field_a() {
    let m = Motor::new(2);
    assert_eq!(m.set_dc(75), DutyWrite { slice: 2, field: CcField::A, level: 75 });
}

#[test]
fn reverse_duty_goes_to_field_b() {
    let mut m = Motor::new(1);
    m.direction(Direction::REVERSE);
    assert_eq!(m.current_direction(), Direction::REVERSE);
    assert_eq!(m.slice(), 1);
    assert_eq!(m.set_dc(100), DutyWrite { slice: 1, field: CcField::B, level: 100 });
    m.direction(Direction::FORTH);
    assert_eq!(m.set_dc(0), DutyWrite { slice: 1, field: CcField::A, level: 0 });
}

#[test]
fn duty_is_truncated_to_sixteen_bits() {
    let m = Motor::new(0);
    assert_eq!(m.set_dc(0x1_0005).level, 5);
    assert_eq!(m.set_dc(65535).level, 65535);
}

#[test]
fn pwm_setup_matches_motor_configuration() {
    let m = Motor::new(3);
    assert_eq!(
        m.pwm_setup(),
        PwmSetup {
            enable: true,
            ph_correct: false,
            a_inv: true,
            b_inv: true,
            divmode: 0,
            div_int: 100,
            div_frac: 0,
            cc_a: 0,
            cc_b: 0,
            top: 100,
        }
    );
    assert_eq!(PWM_TOP, 100);
}
