use breaktime::controller::AppState;
use breaktime::controller::Command;
use breaktime::controller::TrayIconState;
use breaktime::controller::WindowPlan;
use breaktime::timer::TimerMode;

const SEC: u64 = 1_000_000_000;
const MIN: u64 = 60 * SEC;

fn consistent(app: &AppState) -> bool {
    app.is_enabled() == (app.timer().mode() == TimerMode::Counting)
}

#[test]
fn launch_state_is_disabled() {
    let app = AppState::new();
    assert!(!app.is_enabled());
    assert_eq!(app.break_minutes(), 20);
    assert_eq!(app.timer().mode(), TimerMode::Idle);
    assert_eq!(app.status_text(), "Status: Disabled");
    assert_eq!(app.tray_icon_state(0), TrayIconState::Disabled);
    assert_eq!(app.window_plan(0), WindowPlan::Hidden);
}

#[test]
fn enabling_starts_the_countdown() {
    let mut app = AppState::new();
    let update = app.toggle_enabled(0);
    assert!(app.is_enabled());
    assert_eq!(app.timer().mode(), TimerMode::Counting);
    let menu = update.menu.expect("the menu is redrawn");
    assert_eq!(menu.status_text, "Status: Enabled");
    assert!(menu.is_enabled);
    assert_eq!(menu.break_minutes, 20);
    assert_eq!(
        menu.tray_icon_state,
        TrayIconState::Counting { remaining: 20 * MIN as u128, total_duration: 20 * MIN as u128 }
    );
    assert_eq!(update.windows, WindowPlan::Hidden);
}

#[test]
fn disabling_hides_everything() {
    let mut app = AppState::new();
    app.toggle_enabled(0);
    let update = app.toggle_enabled(MIN);
    assert!(!app.is_enabled());
    assert_eq!(app.timer().mode(), TimerMode::Idle);
    let menu = update.menu.unwrap();
    assert_eq!(menu.status_text, "Status: Disabled");
    assert_eq!(menu.tray_icon_state, TrayIconState::Disabled);
    assert_eq!(update.windows, WindowPlan::Hidden);
}

#[test]
fn bubble_appears_in_the_last_ten_seconds() {
    let mut app = AppState::new();
    app.set_break_minutes(1, 0);
    app.toggle_enabled(0);
    assert_eq!(app.refresh_timer(49 * SEC).windows, WindowPlan::Hidden);
    assert_eq!(app.refresh_timer(50 * SEC).windows, WindowPlan::Bubble { seconds: 10 });
    assert_eq!(app.refresh_timer(57 * SEC).windows, WindowPlan::Bubble { seconds: 3 });
}

#[test]
fn deadline_raises_the_alert() {
    let mut app = AppState::new();
    app.set_break_minutes(2, 0);
    app.toggle_enabled(0);
    let update = app.refresh_timer(2 * MIN);
    assert!(!app.is_enabled());
    assert_eq!(app.timer().mode(), TimerMode::Alert);
    let menu = update.menu.expect("raising the alert redraws the menu");
    assert_eq!(menu.status_text, "Status: Time's up");
    assert_eq!(menu.tray_icon_state, TrayIconState::Alert);
    assert!(!menu.is_enabled);
    assert_eq!(update.windows, WindowPlan::Alert { break_minutes: 2 });
    assert!(consistent(&app));
}

#[test]
fn second_refresh_is_quiet() {
    let mut app = AppState::new();
    app.set_break_minutes(1, 0);
    app.toggle_enabled(0);
    let first = app.refresh_timer(MIN);
    assert!(first.menu.is_some());
    let second = app.refresh_timer(MIN);
    assert!(second.menu.is_none());
    assert_eq!(second.windows, WindowPlan::Alert { break_minutes: 1 });
    // Refreshing later while alerting changes nothing either.
    let third = app.refresh_timer(5 * MIN);
    assert!(third.menu.is_none());
    assert_eq!(app.timer().mode(), TimerMode::Alert);
}

#[test]
fn refresh_redraws_menu_only_when_the_ring_steps() {
    let mut app = AppState::new();
    app.toggle_enabled(0);
    // 20-minute ring: steps every 3.33 s.
    assert!(app.refresh_timer(SEC).menu.is_none());
    assert!(app.refresh_timer(3 * SEC).menu.is_none());
    assert!(app.refresh_timer(4 * SEC).menu.is_some());
    assert!(app.refresh_timer(4 * SEC).menu.is_none());
}

#[test]
fn refresh_before_init_records_nothing_new() {
    let mut app = AppState::new();
    // Not counting: the tray step stays unknown, so the menu is not redrawn.
    let update = app.refresh_timer(0);
    assert!(update.menu.is_none());
    assert_eq!(update.windows, WindowPlan::Hidden);
}

#[test]
fn snooze_postpones_by_one_minute() {
    let mut app = AppState::new();
    app.set_break_minutes(5, 0);
    app.toggle_enabled(0);
    app.refresh_timer(5 * MIN);
    let update = app.snooze_one_minute(5 * MIN);
    assert!(app.is_enabled());
    assert_eq!(app.break_minutes(), 5);
    assert_eq!(app.timer().remaining(5 * MIN), Some((MIN as u128, MIN as u128)));
    assert_eq!(update.windows, WindowPlan::Hidden);
    assert_eq!(update.menu.unwrap().status_text, "Status: Enabled");
    let alert = app.refresh_timer(6 * MIN);
    assert_eq!(alert.windows, WindowPlan::Alert { break_minutes: 5 });
}

#[test]
fn done_starts_the_next_interval() {
    let mut app = AppState::new();
    app.set_break_minutes(3, 0);
    app.toggle_enabled(0);
    app.refresh_timer(3 * MIN);
    let update = app.complete_break(3 * MIN + 7);
    assert!(app.is_enabled());
    assert_eq!(app.timer().remaining(3 * MIN + 7), Some((3 * MIN as u128, 3 * MIN as u128)));
    assert_eq!(update.windows, WindowPlan::Hidden);
}

#[test]
fn changing_duration_restarts_running_countdown() {
    let mut app = AppState::new();
    app.toggle_enabled(0);
    let update = app.set_break_minutes(4, 30 * SEC);
    assert_eq!(app.break_minutes(), 4);
    assert_eq!(app.timer().remaining(30 * SEC), Some((4 * MIN as u128, 4 * MIN as u128)));
    assert_eq!(update.menu.unwrap().break_minutes, 4);
}

#[test]
fn changing_duration_while_disabled_keeps_timer_idle() {
    let mut app = AppState::new();
    let update = app.set_break_minutes(7, 0);
    assert_eq!(app.timer().mode(), TimerMode::Idle);
    assert!(!app.is_enabled());
    assert_eq!(update.menu.unwrap().status_text, "Status: Disabled");
}

#[test]
fn handle_dispatches_commands() {
    let mut app = AppState::new();
    app.handle(Command::SetBreakMinutes(1), 0);
    assert_eq!(app.break_minutes(), 1);
    app.handle(Command::ToggleEnabled, 0);
    assert!(app.is_enabled());
    app.handle(Command::ToggleEnabled, 0);
    assert!(!app.is_enabled());
    app.handle(Command::SnoozeOneMinute, 0);
    assert_eq!(app.timer().remaining(0), Some((MIN as u128, MIN as u128)));
    app.handle(Command::CompleteBreak, 0);
    assert_eq!(app.timer().remaining(0), Some((MIN as u128, MIN as u128)));
    assert!(consistent(&app));
}

#[test]
fn every_step_keeps_enabled_in_step_with_counting() {
    let mut app = AppState::new();
    let mut now = 0;
    let commands = [
        Command::ToggleEnabled,
        Command::SetBreakMinutes(1),
        Command::SnoozeOneMinute,
        Command::ToggleEnabled,
        Command::CompleteBreak,
        Command::SetBreakMinutes(2),
    ];
    for (i, command) in commands.iter().enumerate() {
        app.handle(*command, now);
        assert!(consistent(&app));
        now += (i as u64 + 1) * 25 * SEC;
        app.refresh_timer(now);
        assert!(consistent(&app));
    }
}
