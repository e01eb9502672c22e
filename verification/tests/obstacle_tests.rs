use robot_lab::obstacle::{
    detection_duty, detection_step, distance_cm, elapsed, is_obstacle, pin_mask, sensor_clear_mask,
    trigger_output_enable_mask, DetectAction, DetectPhase, EchoMonitor,
};

#[test]
fn elapsed_wraps_around() {
    assert_eq!(elapsed(100, 40), 60);
    assert_eq!(elapsed(5, u32::MAX - 4), 10);
    assert_eq!(elapsed(7, 7), 0);
}

#[test]
fn distance_is_echo_over_58() {
    assert_eq!(distance_cm(1000, 1000 + 580), 10);
    assert_eq!(distance_cm(1000, 1000 + 579), 9);
    assert_eq!(distance_cm(u32::MAX - 100, 479), 10);
}

#[test]
fn obstacle_below_ten_centimetres() {
    assert!(is_obstacle(9));
    assert!(!is_obstacle(10));
    assert!(is_obstacle(0));
}

#[test]
fn echo_monitor_edges() {
    let mut m = EchoMonitor::new();
    assert_eq!(m, EchoMonitor { echo_begin: 0, obstacle: false });
    m.on_rising_edge(2000);
    assert_eq!(m.echo_begin, 2000);
    assert!(!m.obstacle);
    m.on_falling_edge(2000 + 300);
    assert!(m.obstacle);
    assert_eq!(m.echo_begin, 2000);
    m.on_rising_edge(u32::MAX - 10);
    m.on_falling_edge(1000);
    assert!(!m.obstacle);
}

#[test]
fn interrupt_handles_rising_before_falling() {
    let mut m = EchoMonitor { echo_begin: 0, obstacle: false };
    m.handle_irq(Some(5000), Some(5001));
    assert_eq!(m, EchoMonitor { echo_begin: 5000, obstacle: true });
    m.handle_irq(None, Some(5000 + 600));
    assert_eq!(m, EchoMonitor { echo_begin: 5000, obstacle: false });
    m.handle_irq(Some(9), None);
    assert_eq!(m, EchoMonitor { echo_begin: 9, obstacle: false });
    m.handle_irq(None, None);
    assert_eq!(m, EchoMonitor { echo_begin: 9, obstacle: false });
}

#[test]
fn echo_of_579_and_580_ticks() {
    let mut m = EchoMonitor::new();
    m.handle_irq(Some(100), Some(679));
    assert!(m.obstacle);
    m.handle_irq(Some(100), Some(680));
    assert!(!m.obstacle);
}

#[test]
fn duty_full_or_none() {
    assert_eq!(detection_duty(false), 100);
    assert_eq!(detection_duty(true), 0);
}

#[test]
fn measurement_cycle() {
    let (p, a) = detection_step(DetectPhase::SettleStart, 1000, false);
    assert_eq!(p, DetectPhase::Settling { since: 1000 });
    assert_eq!(a, DetectAction::Wait);
    let (p, a) = detection_step(p, 7000, false);
    assert_eq!(p, DetectPhase::Settling { since: 1000 });
    assert_eq!(a, DetectAction::Wait);
    let (p, a) = detection_step(p, 7001, false);
    assert_eq!(p, DetectPhase::PulseStart);
    assert_eq!(a, DetectAction::Wait);
    let (p, a) = detection_step(p, 7002, false);
    assert_eq!(p, DetectPhase::Pulsing { since: 7002 });
    assert_eq!(a, DetectAction::RaiseTrigger);
    let (p, a) = detection_step(p, 7011, true);
    assert_eq!(p, DetectPhase::Pulsing { since: 7002 });
    assert_eq!(a, DetectAction::Wait);
    let (p, a) = detection_step(p, 7012, false);
    assert_eq!(p, DetectPhase::DriveStart);
    assert_eq!(a, DetectAction::LowerTrigger);
    let (p, a) = detection_step(p, 7013, true);
    assert_eq!(p, DetectPhase::SettleStart);
    assert_eq!(a, DetectAction::Drive { duty: 0 });
    let (_, a) = detection_step(DetectPhase::DriveStart, 7013, false);
    assert_eq!(a, DetectAction::Drive { duty: 100 });
}

#[test]
fn settle_wait_across_timer_wrap() {
    let since = u32::MAX - 1000;
    let (p, a) = detection_step(DetectPhase::Settling { since }, 4999, false);
    assert_eq!(p, DetectPhase::Settling { since });
    assert_eq!(a, DetectAction::Wait);
    let (p, _) = detection_step(DetectPhase::Settling { since }, 5000, false);
    assert_eq!(p, DetectPhase::PulseStart);
}

#[test]
fn pin_masks() {
    assert_eq!(pin_mask(0), 1);
    assert_eq!(pin_mask(25), 0x0200_0000);
    assert_eq!(trigger_output_enable_mask(), 0x0200_0080);
    assert_eq!(sensor_clear_mask(), 0xc0);
}

#[test]
fn loop_completes_a_cycle_with_advancing_timer() {
    // One read per tick, starting just before the timer wraps.
    let mut phase = DetectPhase::SettleStart;
    let mut t: u32 = u32::MAX - 3000;
    let mut actions = Vec::new();
    let mut steps = 0;
    loop {
        let (next, action) = detection_step(phase, t, false);
        steps += 1;
        if action != DetectAction::Wait {
            actions.push(action);
        }
        phase = next;
        t = t.wrapping_add(1);
        if phase == DetectPhase::SettleStart {
            break;
        }
    }
    assert!(steps <= 6015);
    assert_eq!(
        actions,
        vec![DetectAction::RaiseTrigger, DetectAction::LowerTrigger, DetectAction::Drive { duty: 100 }]
    );
}
