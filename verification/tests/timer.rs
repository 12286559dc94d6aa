use breaktime::timer::BreakTimer;
use breaktime::timer::ControlFlow;
use breaktime::timer::TimerMode;
use breaktime::timer::DEFAULT_BREAK_MINUTES;
use breaktime::timer::MAX_BREAK_MINUTES;
use breaktime::timer::MIN_BREAK_MINUTES;

const SEC: u64 = 1_000_000_000;
const MIN: u64 = 60 * SEC;

#[test]
fn break_minute_limits() {
    assert_eq!(MIN_BREAK_MINUTES, 1);
    assert_eq!(MAX_BREAK_MINUTES, 20);
    assert_eq!(DEFAULT_BREAK_MINUTES, 20);
}

#[test]
fn new_timer_is_idle() {
    let timer = BreakTimer::new(20);
    assert_eq!(timer.mode(), TimerMode::Idle);
    assert_eq!(timer.remaining(0), None);
    assert_eq!(timer.bubble_seconds(0), None);
    assert_eq!(timer.tray_icon_step(0), None);
    assert_eq!(timer.next_control_flow(0), ControlFlow::Wait);
}

#[test]
fn start_counts_the_full_interval() {
    let mut timer = BreakTimer::new(20);
    timer.start(5 * SEC);
    assert_eq!(timer.mode(), TimerMode::Counting);
    assert_eq!(timer.remaining(5 * SEC), Some((20 * MIN as u128, 20 * MIN as u128)));
    assert_eq!(timer.remaining(6 * SEC), Some((20 * MIN as u128 - SEC as u128, 20 * MIN as u128)));
}

#[test]
fn snooze_counts_one_minute_and_keeps_interval() {
    let mut timer = BreakTimer::new(20);
    timer.start_snooze(0);
    assert_eq!(timer.remaining(0), Some((MIN as u128, MIN as u128)));
    assert!(!timer.tick(MIN - 1));
    assert!(timer.tick(MIN));
    // The chosen interval is still 20 minutes.
    timer.start(MIN);
    assert_eq!(timer.remaining(MIN), Some((20 * MIN as u128, 20 * MIN as u128)));
}

#[test]
fn stop_returns_to_idle() {
    let mut timer = BreakTimer::new(3);
    timer.start(0);
    timer.stop();
    assert_eq!(timer.mode(), TimerMode::Idle);
    assert!(!timer.tick(10 * MIN));
    assert_eq!(timer.mode(), TimerMode::Idle);
}

#[test]
fn set_duration_restarts_only_a_running_countdown() {
    let mut timer = BreakTimer::new(20);
    timer.set_duration_minutes(5, 100);
    assert_eq!(timer.mode(), TimerMode::Idle);
    timer.start(0);
    timer.set_duration_minutes(2, 30 * SEC);
    assert_eq!(timer.remaining(30 * SEC), Some((2 * MIN as u128, 2 * MIN as u128)));
    assert!(!timer.tick(30 * SEC + 2 * MIN - 1));
    assert!(timer.tick(30 * SEC + 2 * MIN));
    timer.set_duration_minutes(7, 0);
    assert_eq!(timer.mode(), TimerMode::Alert);
}

#[test]
fn tick_fires_once_at_the_deadline() {
    let mut timer = BreakTimer::new(1);
    timer.start(0);
    assert!(!timer.tick(MIN - 1));
    assert_eq!(timer.mode(), TimerMode::Counting);
    assert!(timer.tick(MIN + 3));
    assert_eq!(timer.mode(), TimerMode::Alert);
    assert!(!timer.tick(MIN + 4));
    assert!(!timer.tick(10 * MIN));
    assert_eq!(timer.mode(), TimerMode::Alert);
    assert_eq!(timer.remaining(MIN), None);
}

#[test]
fn bubble_shows_only_in_final_ten_seconds() {
    let mut timer = BreakTimer::new(1);
    timer.start(0);
    assert_eq!(timer.bubble_seconds(0), None);
    assert_eq!(timer.bubble_seconds(50 * SEC - 1), None);
    assert_eq!(timer.bubble_seconds(50 * SEC), Some(10));
    assert_eq!(timer.bubble_seconds(50 * SEC + 1), Some(10));
    assert_eq!(timer.bubble_seconds(55 * SEC), Some(5));
    assert_eq!(timer.bubble_seconds(55 * SEC + 500_000_000), Some(5));
    assert_eq!(timer.bubble_seconds(59 * SEC), Some(1));
    assert_eq!(timer.bubble_seconds(MIN - 1_000_000), Some(1));
    // Less than a millisecond left: whole milliseconds round down to zero.
    assert_eq!(timer.bubble_seconds(MIN - 500_000), Some(0));
    assert_eq!(timer.bubble_seconds(MIN), None);
    assert_eq!(timer.bubble_seconds(MIN + SEC), None);
}

#[test]
fn tray_icon_steps_run_down_from_360() {
    let mut timer = BreakTimer::new(1);
    timer.start(0);
    assert_eq!(timer.tray_icon_step(0), Some(360));
    assert_eq!(timer.tray_icon_step(1), Some(360));
    // Each step is a sixth of a second of a one-minute interval.
    assert_eq!(timer.tray_icon_step(MIN / 360), Some(360));
    assert_eq!(timer.tray_icon_step(MIN / 360 + 1), Some(359));
    assert_eq!(timer.tray_icon_step(MIN / 2), Some(180));
    assert_eq!(timer.tray_icon_step(MIN - 1), Some(1));
    assert_eq!(timer.tray_icon_step(MIN), Some(0));
    assert_eq!(timer.tray_icon_step(2 * MIN), Some(0));
}

#[test]
fn tray_icon_step_never_increases() {
    let mut timer = BreakTimer::new(3);
    timer.start(0);
    let mut last = timer.tray_icon_step(0).unwrap();
    let mut now = 0;
    while now <= 4 * MIN {
        let step = timer.tray_icon_step(now).unwrap();
        assert!(step <= last);
        assert!(step <= 360);
        last = step;
        now += 7 * SEC / 10;
    }
}

#[test]
fn tray_icon_steps_before_the_start() {
    let mut timer = BreakTimer::new(1);
    timer.start(MIN);
    // Asked about a moment before the countdown began, more than 360 steps remain.
    assert_eq!(timer.tray_icon_step(0), Some(720));
}

#[test]
fn zero_minute_interval_alerts_at_once() {
    let mut timer = BreakTimer::new(0);
    timer.start(100);
    assert_eq!(timer.remaining(100), Some((0, 0)));
    assert_eq!(timer.tray_icon_step(100), Some(0));
    assert_eq!(timer.next_control_flow(100), ControlFlow::WaitUntil(100));
    assert!(timer.tick(100));
}

#[test]
fn next_wake_at_the_bubble_threshold() {
    let mut timer = BreakTimer::new(20);
    timer.start(0);
    // A 20-minute ring steps every 3.33 s, so the first wake is the next step.
    let total = 20 * MIN as u128;
    assert_eq!(timer.next_control_flow(0), ControlFlow::WaitUntil(total - total * 359 / 360));
    assert_eq!(timer.next_control_flow(0), ControlFlow::WaitUntil(3_333_333_334));
    // Just before the bubble appears, the wake is when it does.
    let deadline = 20 * MIN as u128;
    let now = 20 * MIN - 10 * SEC - SEC / 2;
    assert_eq!(timer.next_control_flow(now), ControlFlow::WaitUntil(deadline - 10 * SEC as u128));
}

#[test]
fn next_wake_refreshes_bubble_five_times_a_second() {
    let mut timer = BreakTimer::new(20);
    timer.start(0);
    let now = 20 * MIN - 5 * SEC;
    assert_eq!(
        timer.next_control_flow(now),
        ControlFlow::WaitUntil(now as u128 + 200_000_000)
    );
    let near = 20 * MIN - 100_000_000;
    assert_eq!(timer.next_control_flow(near), ControlFlow::WaitUntil(20 * MIN as u128));
}

#[test]
fn next_wake_for_short_steps_is_clamped_to_one_second() {
    let mut timer = BreakTimer::new(1);
    timer.start(0);
    // One-minute steps are a sixth of a second apart; the wake waits a second.
    assert_eq!(timer.next_control_flow(0), ControlFlow::WaitUntil(SEC as u128));
}

#[test]
fn next_wake_is_now_once_the_deadline_passed() {
    let mut timer = BreakTimer::new(1);
    timer.start(0);
    assert_eq!(timer.next_control_flow(MIN), ControlFlow::WaitUntil(MIN as u128));
    assert_eq!(timer.next_control_flow(MIN + 5), ControlFlow::WaitUntil(MIN as u128 + 5));
}

#[test]
fn next_wake_lies_between_now_and_deadline() {
    let mut timer = BreakTimer::new(7);
    timer.start(3);
    let deadline = 3 + 7 * MIN as u128;
    let mut now = 3;
    while (now as u128) < deadline {
        match timer.next_control_flow(now) {
            ControlFlow::WaitUntil(wake) => {
                assert!(wake > now as u128);
                assert!(wake <= deadline);
                if deadline - (now as u128) > 10 * SEC as u128 {
                    assert!(wake <= deadline - 10 * SEC as u128);
                }
            }
            ControlFlow::Wait => panic!("a countdown always asks for a wake"),
        }
        now += 1_300_000_007;
    }
}

#[test]
fn idle_and_alert_wait_for_events() {
    let mut timer = BreakTimer::new(1);
    assert_eq!(timer.next_control_flow(7), ControlFlow::Wait);
    timer.start(0);
    timer.tick(MIN);
    assert_eq!(timer.next_control_flow(MIN), ControlFlow::Wait);
}

#[test]
fn largest_interval_does_not_overflow() {
    let mut timer = BreakTimer::new(u32::MAX);
    timer.start(u64::MAX);
    let total = u32::MAX as u128 * MIN as u128;
    assert_eq!(timer.remaining(u64::MAX), Some((total, total)));
    assert_eq!(timer.tray_icon_step(u64::MAX), Some(360));
    assert!(!timer.tick(u64::MAX));
    match timer.next_control_flow(u64::MAX) {
        ControlFlow::WaitUntil(wake) => assert!(wake > u64::MAX as u128),
        ControlFlow::Wait => panic!("a countdown always asks for a wake"),
    }
}

#[test]
fn tray_icon_keeps_its_step_until_the_wake() {
    let mut timer = BreakTimer::new(20);
    timer.start(0);
    let wake = match timer.next_control_flow(0) {
        ControlFlow::WaitUntil(wake) => wake as u64,
        ControlFlow::Wait => panic!("a countdown always asks for a wake"),
    };
    assert_eq!(timer.tray_icon_step(wake - 1), Some(360));
    assert_eq!(timer.tray_icon_step(wake), Some(359));
}
