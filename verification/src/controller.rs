use vstd::prelude::*;
use vstd::string::*;

use crate::timer::bubble_seconds_of;
use crate::timer::counting_from;
use crate::timer::minutes_to_nanos;
use crate::timer::mode_of;
use crate::timer::remaining_nanos;
use crate::timer::tick_result;
use crate::timer::tray_icon_step_of;
use crate::timer::BreakTimer;
use crate::timer::TimerMode;
use crate::timer::TimerState;
use crate::timer::TimerView;
use crate::timer::BUBBLE_THRESHOLD;
use crate::timer::DEFAULT_BREAK_MINUTES;
use crate::timer::SNOOZE_DURATION;

verus! {

/// What the tray icon should show. `Full` is a ring with nothing elapsed;
/// `Counting` carries the time left and the whole interval, in nanoseconds.
#[derive(Debug, Clone, Copy, PartialEq, Eq, Structural)]
pub enum TrayIconState {
    Disabled,
    Full,
    Counting { remaining: u128, total_duration: u128 },
    Alert,
}

/// Which of the reminder windows should be on screen.
#[derive(Debug, Clone, Copy, PartialEq, Eq, Structural)]
pub enum WindowPlan {
    /// The full-screen mask and the break dialog, naming the interval length.
    Alert { break_minutes: u32 },
    /// The countdown bubble, showing this many seconds.
    Bubble { seconds: u32 },
    /// Nothing.
    Hidden,
}

/// Everything the tray menu displays.
#[derive(Debug)]
pub struct MenuState {
    pub status_text: String,
    pub is_enabled: bool,
    pub break_minutes: u32,
    pub tray_icon_state: TrayIconState,
}

/// What the application should redraw after a step: the menu (when it
/// changed) and the windows.
#[derive(Debug)]
pub struct Update {
    pub menu: Option<MenuState>,
    pub windows: WindowPlan,
}

/// The requests the user can make through the menu and the break dialog.
#[derive(Debug, Clone, Copy, PartialEq, Eq, Structural)]
pub enum Command {
    ToggleEnabled,
    SetBreakMinutes(u32),
    SnoozeOneMinute,
    CompleteBreak,
}

/// The application's state: whether reminders are enabled, the chosen
/// interval, the timer, and the tray step last drawn.
#[derive(Debug, Clone, Copy)]
pub struct AppState {
    last_tray_icon_step: Option<u32>,
    timer: BreakTimer,
    is_enabled: bool,
    break_minutes: u32,
}

/// The abstract value of an [`AppState`].
pub struct AppView {
    pub last_tray_icon_step: Option<u32>,
    pub timer: TimerView,
    pub is_enabled: bool,
    pub break_minutes: u32,
}

impl AppView {
    /// Reminders are enabled exactly while the timer counts down, and the
    /// timer's interval is the chosen number of minutes.
    pub open spec fn consistent(self) -> bool {
        &&& self.is_enabled == (mode_of(self.timer.state) == TimerMode::Counting)
        &&& self.timer.duration == minutes_to_nanos(self.break_minutes)
    }
}

impl View for AppState {
    type V = AppView;

    closed spec fn view(&self) -> AppView {
        AppView {
            last_tray_icon_step: self.last_tray_icon_step,
            timer: self.timer@,
            is_enabled: self.is_enabled,
            break_minutes: self.break_minutes,
        }
    }
}

pub open spec fn status_text_of(v: AppView) -> Seq<char> {
    if mode_of(v.timer.state) == TimerMode::Alert {
        "Status: Time's up"@
    } else if !v.is_enabled {
        "Status: Disabled"@
    } else {
        "Status: Enabled"@
    }
}

pub open spec fn tray_icon_state_of(v: AppView, now: u64) -> TrayIconState {
    if mode_of(v.timer.state) == TimerMode::Alert {
        TrayIconState::Alert
    } else if !v.is_enabled {
        TrayIconState::Disabled
    } else {
        match v.timer.state {
            TimerState::Counting { deadline, total_duration } => TrayIconState::Counting {
                remaining: remaining_nanos(deadline, now) as u128,
                total_duration,
            },
            _ => TrayIconState::Full,
        }
    }
}

pub open spec fn window_plan_of(v: AppView, now: u64) -> WindowPlan {
    if mode_of(v.timer.state) == TimerMode::Alert {
        WindowPlan::Alert { break_minutes: v.break_minutes }
    } else if !v.is_enabled {
        WindowPlan::Hidden
    } else {
        match bubble_seconds_of(v.timer.state, now) {
            Some(seconds) => WindowPlan::Bubble { seconds },
            None => WindowPlan::Hidden,
        }
    }
}

/// `menu` shows state `v` at `now`.
pub open spec fn menu_matches(menu: MenuState, v: AppView, now: u64) -> bool {
    &&& menu.status_text@ == status_text_of(v)
    &&& menu.is_enabled == v.is_enabled
    &&& menu.break_minutes == v.break_minutes
    &&& menu.tray_icon_state == tray_icon_state_of(v, now)
}

/// `update` redraws the menu and the windows for state `v` at `now`, and `v`
/// records the tray step drawn.
pub open spec fn fully_synced(update: Update, v: AppView, now: u64) -> bool {
    &&& update.menu matches Some(menu) && menu_matches(menu, v, now)
    &&& update.windows == window_plan_of(v, now)
    &&& v.last_tray_icon_step == tray_icon_step_of(v.timer.state, now)
}

/// Whether a refresh at `now` raises the alert.
pub open spec fn refresh_fires(v: AppView, now: u64) -> bool {
    v.is_enabled && tick_result(v.timer.state, now).1
}

/// The timer phase after a refresh at `now`: only an enabled timer is ticked.
pub open spec fn refreshed_state(v: AppView, now: u64) -> TimerState {
    if v.is_enabled {
        tick_result(v.timer.state, now).0
    } else {
        v.timer.state
    }
}

/// The state after a refresh at `now`, with the tray step it draws recorded.
pub open spec fn refreshed(v: AppView, now: u64) -> AppView {
    AppView {
        last_tray_icon_step: tray_icon_step_of(refreshed_state(v, now), now),
        timer: TimerView { duration: v.timer.duration, state: refreshed_state(v, now) },
        is_enabled: v.is_enabled && !refresh_fires(v, now),
        break_minutes: v.break_minutes,
    }
}

impl AppState {
    #[verifier::type_invariant]
    spec fn state_consistent(self) -> bool {
        self@.consistent()
    }

    /// The state at launch: reminders disabled, the default interval, nothing
    /// drawn yet.
    pub fn new() -> (state: Self)
        ensures
            state@ == (AppView {
                last_tray_icon_step: None,
                timer: TimerView {
                    duration: minutes_to_nanos(DEFAULT_BREAK_MINUTES),
                    state: TimerState::Idle,
                },
                is_enabled: false,
                break_minutes: DEFAULT_BREAK_MINUTES,
            }),
            state@.consistent(),
    {
        AppState {
            last_tray_icon_step: None,
            timer: BreakTimer::new(DEFAULT_BREAK_MINUTES),
            is_enabled: false,
            break_minutes: DEFAULT_BREAK_MINUTES,
        }
    }

    pub fn timer(&self) -> (timer: &BreakTimer)
        ensures
            timer@ == self@.timer,
    {
        &self.timer
    }

    pub fn is_enabled(&self) -> (enabled: bool)
        ensures
            enabled == self@.is_enabled,
    {
        self.is_enabled
    }

    pub fn break_minutes(&self) -> (minutes: u32)
        ensures
            minutes == self@.break_minutes,
    {
        self.break_minutes
    }

    /// The status line of the menu.
    pub fn status_text(&self) -> (text: String)
        ensures
            text@ == status_text_of(self@),
    {
        match self.timer.mode() {
            TimerMode::Alert => String::from_str("Status: Time's up"),
            _ => if !self.is_enabled {
                String::from_str("Status: Disabled")
            } else {
                String::from_str("Status: Enabled")
            },
        }
    }

    /// What the tray icon shows at `now`.
    pub fn tray_icon_state(&self, now: u64) -> (state: TrayIconState)
        ensures
            state == tray_icon_state_of(self@, now),
    {
        match self.timer.mode() {
            TimerMode::Alert => TrayIconState::Alert,
            _ => if !self.is_enabled {
                TrayIconState::Disabled
            } else {
                match self.timer.remaining(now) {
                    Some((remaining, total_duration)) => TrayIconState::Counting {
                        remaining,
                        total_duration,
                    },
                    None => TrayIconState::Full,
                }
            },
        }
    }

    /// Which windows should be on screen at `now`.
    pub fn window_plan(&self, now: u64) -> (plan: WindowPlan)
        ensures
            plan == window_plan_of(self@, now),
    {
        match self.timer.mode() {
            TimerMode::Alert => WindowPlan::Alert { break_minutes: self.break_minutes },
            _ => if !self.is_enabled {
                WindowPlan::Hidden
            } else {
                match self.timer.bubble_seconds(now) {
                    Some(seconds) => WindowPlan::Bubble { seconds },
                    None => WindowPlan::Hidden,
                }
            },
        }
    }

    /// The menu's contents at `now`; records the tray step drawn.
    pub fn sync_menu(&mut self, now: u64) -> (menu: MenuState)
        ensures
            final(self)@ == (AppView {
                last_tray_icon_step: tray_icon_step_of(old(self)@.timer.state, now),
                ..old(self)@
            }),
            menu_matches(menu, final(self)@, now),
            final(self)@.consistent(),
    {
        proof {
            use_type_invariant(&*self);
        }
        self.last_tray_icon_step = self.timer.tray_icon_step(now);
        MenuState {
            status_text: self.status_text(),
            is_enabled: self.is_enabled,
            break_minutes: self.break_minutes,
            tray_icon_state: self.tray_icon_state(now),
        }
    }

    fn sync_all(&mut self, now: u64) -> (update: Update)
        ensures
            final(self)@ == (AppView {
                last_tray_icon_step: tray_icon_step_of(old(self)@.timer.state, now),
                ..old(self)@
            }),
            fully_synced(update, final(self)@, now),
            final(self)@.consistent(),
    {
        let menu = self.sync_menu(now);
        Update { menu: Some(menu), windows: self.window_plan(now) }
    }

    /// The enable switch: turning reminders on starts a full interval at
    /// `now`, turning them off stops the timer.
    pub fn toggle_enabled(&mut self, now: u64) -> (update: Update)
        ensures
            final(self)@.is_enabled == !old(self)@.is_enabled,
            final(self)@.break_minutes == old(self)@.break_minutes,
            final(self)@.timer.duration == old(self)@.timer.duration,
            final(self)@.timer.state == if final(self)@.is_enabled {
                counting_from(old(self)@.timer.duration, now)
            } else {
                TimerState::Idle
            },
            fully_synced(update, final(self)@, now),
            final(self)@.consistent(),
    {
        proof {
            use_type_invariant(&*self);
        }
        let is_enabled = !self.is_enabled;
        let mut timer = self.timer;
        if is_enabled {
            timer.start(now);
        } else {
            timer.stop();
        }
        *self = AppState {
            last_tray_icon_step: self.last_tray_icon_step,
            timer,
            is_enabled,
            break_minutes: self.break_minutes,
        };
        self.sync_all(now)
    }

    /// The duration slider: sets the interval; a running countdown restarts
    /// with the new length at `now`.
    pub fn set_break_minutes(&mut self, minutes: u32, now: u64) -> (update: Update)
        ensures
            final(self)@.is_enabled == old(self)@.is_enabled,
            final(self)@.break_minutes == minutes,
            final(self)@.timer.duration == minutes_to_nanos(minutes),
            final(self)@.timer.state == (match old(self)@.timer.state {
                TimerState::Counting { .. } => counting_from(minutes_to_nanos(minutes), now),
                other => other,
            }),
            fully_synced(update, final(self)@, now),
            final(self)@.consistent(),
    {
        proof {
            use_type_invariant(&*self);
        }
        let mut timer = self.timer;
        timer.set_duration_minutes(minutes, now);
        *self = AppState {
            last_tray_icon_step: self.last_tray_icon_step,
            timer,
            is_enabled: self.is_enabled,
            break_minutes: minutes,
        };
        self.sync_all(now)
    }

    /// "+1 min" in the break dialog: enables reminders and counts down one
    /// minute from `now`; the chosen interval is kept for later.
    pub fn snooze_one_minute(&mut self, now: u64) -> (update: Update)
        ensures
            final(self)@.is_enabled,
            final(self)@.break_minutes == old(self)@.break_minutes,
            final(self)@.timer.duration == old(self)@.timer.duration,
            final(self)@.timer.state == counting_from(SNOOZE_DURATION, now),
            fully_synced(update, final(self)@, now),
            final(self)@.consistent(),
    {
        proof {
            use_type_invariant(&*self);
        }
        let mut timer = self.timer;
        timer.start_snooze(now);
        *self = AppState {
            last_tray_icon_step: self.last_tray_icon_step,
            timer,
            is_enabled: true,
            break_minutes: self.break_minutes,
        };
        self.sync_all(now)
    }

    /// "Done" in the break dialog: enables reminders and starts the next full
    /// interval at `now`.
    pub fn complete_break(&mut self, now: u64) -> (update: Update)
        ensures
            final(self)@.is_enabled,
            final(self)@.break_minutes == old(self)@.break_minutes,
            final(self)@.timer.duration == old(self)@.timer.duration,
            final(self)@.timer.state == counting_from(old(self)@.timer.duration, now),
            fully_synced(update, final(self)@, now),
            final(self)@.consistent(),
    {
        proof {
            use_type_invariant(&*self);
        }
        let mut timer = self.timer;
        timer.start(now);
        *self = AppState {
            last_tray_icon_step: self.last_tray_icon_step,
            timer,
            is_enabled: true,
            break_minutes: self.break_minutes,
        };
        self.sync_all(now)
    }

    /// The periodic refresh: an enabled timer whose deadline has come raises
    /// the alert and disables reminders. The menu is redrawn only when the
    /// alert was raised or the tray step changed; the windows always are.
    pub fn refresh_timer(&mut self, now: u64) -> (update: Update)
        ensures
            final(self)@ == refreshed(old(self)@, now),
            update.menu is Some <==> (refresh_fires(old(self)@, now)
                || final(self)@.last_tray_icon_step != old(self)@.last_tray_icon_step),
            update.menu matches Some(menu) ==> menu_matches(menu, final(self)@, now),
            update.windows == window_plan_of(final(self)@, now),
            final(self)@.consistent(),
    {
        proof {
            use_type_invariant(&*self);
        }
        let mut timer = self.timer;
        let mut is_enabled = self.is_enabled;
        let did_reach_alert = is_enabled && timer.tick(now);
        if did_reach_alert {
            is_enabled = false;
        }
        *self = AppState {
            last_tray_icon_step: self.last_tray_icon_step,
            timer,
            is_enabled,
            break_minutes: self.break_minutes,
        };
        let tray_icon_step = self.timer.tray_icon_step(now);
        let step_changed = match (tray_icon_step, self.last_tray_icon_step) {
            (Some(a), Some(b)) => a != b,
            (None, None) => false,
            _ => true,
        };
        let menu = if did_reach_alert || step_changed {
            Some(self.sync_menu(now))
        } else {
            None
        };
        Update { menu, windows: self.window_plan(now) }
    }

    /// Carries out a request made by the user at `now`.
    pub fn handle(&mut self, command: Command, now: u64) -> (update: Update)
        ensures
            match command {
                Command::ToggleEnabled => {
                    &&& final(self)@.is_enabled == !old(self)@.is_enabled
                    &&& final(self)@.break_minutes == old(self)@.break_minutes
                    &&& final(self)@.timer.duration == old(self)@.timer.duration
                    &&& final(self)@.timer.state == if final(self)@.is_enabled {
                        counting_from(old(self)@.timer.duration, now)
                    } else {
                        TimerState::Idle
                    }
                },
                Command::SetBreakMinutes(minutes) => {
                    &&& final(self)@.is_enabled == old(self)@.is_enabled
                    &&& final(self)@.break_minutes == minutes
                    &&& final(self)@.timer.duration == minutes_to_nanos(minutes)
                    &&& final(self)@.timer.state == (match old(self)@.timer.state {
                        TimerState::Counting { .. } => counting_from(minutes_to_nanos(minutes), now),
                        other => other,
                    })
                },
                Command::SnoozeOneMinute => {
                    &&& final(self)@.is_enabled
                    &&& final(self)@.break_minutes == old(self)@.break_minutes
                    &&& final(self)@.timer.duration == old(self)@.timer.duration
                    &&& final(self)@.timer.state == counting_from(SNOOZE_DURATION, now)
                },
                Command::CompleteBreak => {
                    &&& final(self)@.is_enabled
                    &&& final(self)@.break_minutes == old(self)@.break_minutes
                    &&& final(self)@.timer.duration == old(self)@.timer.duration
                    &&& final(self)@.timer.state == counting_from(old(self)@.timer.duration, now)
                },
            },
            fully_synced(update, final(self)@, now),
            final(self)@.consistent(),
    {
        match command {
            Command::ToggleEnabled => self.toggle_enabled(now),
            Command::SetBreakMinutes(minutes) => self.set_break_minutes(minutes, now),
            Command::SnoozeOneMinute => self.snooze_one_minute(now),
            Command::CompleteBreak => self.complete_break(now),
        }
    }
}


/// When an enabled countdown's deadline has come, the next refresh raises the
/// alert: the timer alerts, reminders are switched off, the break dialog is
/// shown for the chosen interval, the tray icon shows the alert and the menu
/// is redrawn.
pub proof fn lemma_refresh_raises_alert(v: AppView, now: u64)
    requires
        v.consistent(),
        v.timer.state matches TimerState::Counting { deadline, .. } && now >= deadline,
    ensures
        refresh_fires(v, now),
        refreshed(v, now).timer.state == TimerState::Alert,
        !refreshed(v, now).is_enabled,
        refreshed(v, now).consistent(),
        window_plan_of(refreshed(v, now), now) == (WindowPlan::Alert {
            break_minutes: v.break_minutes,
        }),
        tray_icon_state_of(refreshed(v, now), now) == TrayIconState::Alert,
        status_text_of(refreshed(v, now)) == "Status: Time's up"@,
{
}

/// Before its deadline a countdown keeps running through refreshes, and a
/// refresh of a timer that is not counting changes nothing but the tray step
/// it records.
pub proof fn lemma_refresh_before_deadline(v: AppView, now: u64)
    requires
        v.consistent(),
        !(v.timer.state matches TimerState::Counting { deadline, .. } && now >= deadline),
    ensures
        !refresh_fires(v, now),
        refreshed(v, now) == (AppView {
            last_tray_icon_step: tray_icon_step_of(v.timer.state, now),
            ..v
        }),
{
}

/// A second refresh at the same moment is quiet: it raises no alert, changes
/// no state, and so redraws no menu.
pub proof fn lemma_second_refresh_is_quiet(v: AppView, now: u64)
    requires
        v.consistent(),
    ensures
        !refresh_fires(refreshed(v, now), now),
        refreshed(refreshed(v, now), now) == refreshed(v, now),
{
}

/// The break dialog is on screen exactly while the timer alerts.
pub proof fn lemma_alert_shown_iff_alerting(v: AppView, now: u64)
    ensures
        window_plan_of(v, now) is Alert <==> mode_of(v.timer.state) == TimerMode::Alert,
        tray_icon_state_of(v, now) is Alert <==> mode_of(v.timer.state) == TimerMode::Alert,
{
}

/// The countdown bubble is on screen only while reminders are enabled and the
/// countdown is in its final ten seconds, and shows at most ten.
pub proof fn lemma_bubble_only_when_due(v: AppView, now: u64)
    ensures
        window_plan_of(v, now) matches WindowPlan::Bubble { seconds } ==> {
            &&& v.is_enabled
            &&& v.timer.state matches TimerState::Counting { deadline, .. }
            &&& 0 < remaining_nanos(deadline, now) <= BUBBLE_THRESHOLD
            &&& seconds <= 10
        },
{
    crate::timer::lemma_bubble_in_final_seconds(v.timer.state, now);
}

/// With reminders off and no alert pending, nothing is shown: no windows and
/// a dimmed tray icon.
pub proof fn lemma_disabled_shows_nothing(v: AppView, now: u64)
    requires
        !v.is_enabled,
        mode_of(v.timer.state) != TimerMode::Alert,
    ensures
        window_plan_of(v, now) == WindowPlan::Hidden,
        tray_icon_state_of(v, now) == TrayIconState::Disabled,
        status_text_of(v) == "Status: Disabled"@,
{
}

/// While reminders are enabled and the timer counts down to `deadline` over an
/// interval `total_duration`, the tray icon shows the countdown's progress as
/// the time left (zero once the deadline has passed) over the whole interval.
/// Once the countdown has started, the time left never exceeds the interval,
/// and it shrinks as the clock advances.
pub proof fn lemma_tray_icon_shows_time_left(v: AppView, now: u64, later: u64)
    requires
        v.is_enabled,
        v.timer.state matches TimerState::Counting { .. },
        now <= later,
    ensures
        ({
            let deadline = v.timer.state->deadline;
            let total = v.timer.state->total_duration;
            &&& tray_icon_state_of(v, now) == (TrayIconState::Counting {
                remaining: if deadline > now {
                    (deadline - now) as u128
                } else {
                    0
                },
                total_duration: total,
            })
            &&& deadline <= now + total ==> tray_icon_state_of(v, now)->remaining <= total
            &&& tray_icon_state_of(v, later)->remaining <= tray_icon_state_of(v, now)->remaining
            &&& tray_icon_state_of(v, later)->total_duration == total
        }),
{
}

/// While reminders are enabled and the countdown has at most ten seconds left
/// (but some), the countdown bubble is on screen showing the time left in
/// whole seconds, rounded up from whole milliseconds.
pub proof fn lemma_bubble_shown_when_due(v: AppView, now: u64)
    requires
        v.is_enabled,
        v.timer.state matches TimerState::Counting { deadline, .. } && deadline > now && deadline
            - now <= BUBBLE_THRESHOLD,
    ensures
        ({
            let millis = (v.timer.state->deadline - now) / 1_000_000;
            window_plan_of(v, now) matches WindowPlan::Bubble { seconds } && (seconds - 1) * 1000
                < millis <= seconds * 1000
        }),
{
    crate::timer::lemma_bubble_shows_seconds_left(
        v.timer.state->deadline,
        v.timer.state->total_duration,
        now,
    );
}

/// The status line tells the three situations apart: "Time's up" while the
/// timer alerts, "Enabled" while it counts down, "Disabled" while it is idle.
pub proof fn lemma_status_text_by_mode(v: AppView)
    requires
        v.consistent(),
    ensures
        mode_of(v.timer.state) == TimerMode::Alert ==> status_text_of(v) == "Status: Time's up"@,
        mode_of(v.timer.state) == TimerMode::Counting ==> status_text_of(v) == "Status: Enabled"@,
        mode_of(v.timer.state) == TimerMode::Idle ==> status_text_of(v) == "Status: Disabled"@,
{
}

/// A redrawn menu shows the state it was drawn for: the status line, the
/// enable switch, the chosen minutes and the tray icon of that state.
pub proof fn lemma_menu_shows_state(menu: MenuState, v: AppView, now: u64)
    requires
        menu_matches(menu, v, now),
    ensures
        menu.is_enabled == v.is_enabled,
        menu.break_minutes == v.break_minutes,
        menu.status_text@ == status_text_of(v),
        menu.tray_icon_state == tray_icon_state_of(v, now),
{
}

/// While the timer alerts, the break dialog is on screen naming the chosen
/// interval, and the tray icon shows the alert.
pub proof fn lemma_alert_dialog_names_interval(v: AppView, now: u64)
    requires
        v.timer.state == TimerState::Alert,
    ensures
        window_plan_of(v, now) == (WindowPlan::Alert { break_minutes: v.break_minutes }),
        tray_icon_state_of(v, now) == TrayIconState::Alert,
{
}

/// While reminders are enabled and more than ten seconds are left, or the
/// deadline has passed without a refresh yet, no window is shown.
pub proof fn lemma_no_window_outside_final_seconds(v: AppView, now: u64)
    requires
        v.is_enabled,
        v.timer.state matches TimerState::Counting { deadline, .. } && (deadline <= now
            || deadline - now > BUBBLE_THRESHOLD),
    ensures
        window_plan_of(v, now) == WindowPlan::Hidden,
{
}
} // verus!
