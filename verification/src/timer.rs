use vstd::prelude::*;

use crate::arith::ceil_div;
use crate::arith::lemma_ceil_div_at_most;
use crate::arith::lemma_ceil_div_bounds;

pub use crate::text::countdown_text;
pub use crate::text::minutes_text;

verus! {

/// The shortest interval the duration control offers, in minutes.
pub const MIN_BREAK_MINUTES: u32 = 1;

/// The longest interval the duration control offers, in minutes.
pub const MAX_BREAK_MINUTES: u32 = 20;

/// The interval a fresh timer starts with, in minutes.
pub const DEFAULT_BREAK_MINUTES: u32 = 20;

/// Nanoseconds in one minute.
pub const NANOS_PER_MINUTE: u128 = 60_000_000_000;

/// How long before the deadline the countdown bubble appears.
pub const BUBBLE_THRESHOLD: u128 = 10_000_000_000;

/// How often the countdown bubble is redrawn while it is visible.
pub const BUBBLE_REFRESH_INTERVAL: u128 = 200_000_000;

/// The shortest gap between two wakeups that only redraw the tray icon.
pub const MIN_TRAY_ICON_WAKE_INTERVAL: u128 = 1_000_000_000;

/// How far "+1 min" pushes the break back.
pub const SNOOZE_DURATION: u128 = 60_000_000_000;

/// The number of steps the tray icon's progress ring is drawn in.
pub const TRAY_ICON_TOTAL_STEPS: u32 = 360;

/// The longest interval a timer can hold: `u32::MAX` minutes, in nanoseconds.
pub const MAX_DURATION: u128 = 257_698_037_700_000_000_000;

/// The latest deadline a timer can hold: the latest clock reading plus the
/// longest interval.
pub const MAX_DEADLINE: u128 = 276_144_781_773_709_551_615;

/// What the timer is doing, as the rest of the application sees it.
#[derive(Debug, Clone, Copy, PartialEq, Eq, Structural)]
pub enum TimerMode {
    Idle,
    Counting,
    Alert,
}

/// The timer's phase. Times are nanoseconds on the caller's monotonic clock.
#[derive(Debug, Clone, Copy, PartialEq, Eq, Structural)]
pub enum TimerState {
    Idle,
    Counting { deadline: u128, total_duration: u128 },
    Alert,
}

/// A break timer: an interval length and the phase it is in.
///
/// Clock readings (`now`) are nanoseconds since an arbitrary origin of a
/// monotonic clock; durations are nanoseconds.
#[derive(Debug, Clone, Copy)]
pub struct BreakTimer {
    duration: u128,
    state: TimerState,
}

/// The abstract value of a [`BreakTimer`].
pub struct TimerView {
    pub duration: u128,
    pub state: TimerState,
}

/// What the timer reports to the caller of `next_control_flow`: sleep until
/// woken by an event, or sleep until the given clock reading.
#[derive(Debug, Clone, Copy, PartialEq, Eq, Structural)]
pub enum ControlFlow {
    Wait,
    WaitUntil(u128),
}

impl View for BreakTimer {
    type V = TimerView;

    closed spec fn view(&self) -> TimerView {
        TimerView { duration: self.duration, state: self.state }
    }
}

/// The length of an interval of `minutes` minutes, in nanoseconds.
pub open spec fn minutes_to_nanos(minutes: u32) -> u128 {
    (minutes * 60_000_000_000) as u128
}

/// The phase a timer enters when it starts counting `duration` at `now`.
pub open spec fn counting_from(duration: u128, now: u64) -> TimerState {
    TimerState::Counting { deadline: (now + duration) as u128, total_duration: duration }
}

pub open spec fn mode_of(state: TimerState) -> TimerMode {
    match state {
        TimerState::Idle => TimerMode::Idle,
        TimerState::Counting { .. } => TimerMode::Counting,
        TimerState::Alert => TimerMode::Alert,
    }
}

/// Time left until `deadline` at `now`, zero once it has passed.
pub open spec fn remaining_nanos(deadline: u128, now: u64) -> int {
    if deadline > now {
        deadline - now
    } else {
        0
    }
}

/// Time left and the whole interval, while counting.
pub open spec fn remaining_of(state: TimerState, now: u64) -> Option<(int, int)> {
    match state {
        TimerState::Counting { deadline, total_duration } => Some(
            (remaining_nanos(deadline, now), total_duration as int),
        ),
        _ => None,
    }
}

/// What one tick does: the next phase, and whether the deadline was reached.
pub open spec fn tick_result(state: TimerState, now: u64) -> (TimerState, bool) {
    match state {
        TimerState::Counting { deadline, .. } => if now >= deadline {
            (TimerState::Alert, true)
        } else {
            (state, false)
        },
        _ => (state, false),
    }
}

/// Whole seconds shown for a remaining time: whole milliseconds, rounded up
/// to seconds.
pub open spec fn ceil_seconds_of(nanos: int) -> int {
    ceil_div(nanos / 1_000_000, 1000)
}

/// The countdown bubble's value: present only in the final ten seconds.
pub open spec fn bubble_seconds_of(state: TimerState, now: u64) -> Option<u32> {
    match state {
        TimerState::Counting { deadline, .. } => {
            let remaining = remaining_nanos(deadline, now);
            if remaining == 0 || remaining > BUBBLE_THRESHOLD {
                None
            } else {
                Some(ceil_seconds_of(remaining) as u32)
            }
        },
        _ => None,
    }
}

/// Steps of the tray ring still to run: the remaining share of the interval
/// in 360ths, rounded up; zero once the deadline is reached.
pub open spec fn step_count(remaining: int, total: int) -> int {
    if remaining == 0 {
        0
    } else {
        ceil_div(
            remaining * TRAY_ICON_TOTAL_STEPS,
            if total > 0 {
                total
            } else {
                1
            },
        )
    }
}

/// `step_count`, in the `u32` the timer reports.
pub open spec fn tray_icon_steps(remaining: int, total: int) -> u32 {
    step_count(remaining, total) as u32
}

pub open spec fn tray_icon_step_of(state: TimerState, now: u64) -> Option<u32> {
    match remaining_of(state, now) {
        Some((remaining, total)) => Some(tray_icon_steps(remaining, total)),
        None => None,
    }
}

pub open spec fn min_int(a: int, b: int) -> int {
    if a <= b {
        a
    } else {
        b
    }
}

pub open spec fn max_int(a: int, b: int) -> int {
    if a >= b {
        a
    } else {
        b
    }
}

/// The time before the deadline at which the tray ring drops below its
/// current step, capped at `u64::MAX` nanoseconds.
pub open spec fn tray_step_boundary(remaining: int, total: int) -> int {
    min_int(
        total * (tray_icon_steps(remaining, total) - 1) / TRAY_ICON_TOTAL_STEPS as int,
        u64::MAX as int,
    )
}

/// When the tray ring next changes step: the deadline itself while at most one
/// step is left.
pub open spec fn exact_tray_icon_wake(deadline: int, remaining: int, total: int) -> int {
    if tray_icon_steps(remaining, total) <= 1 {
        deadline
    } else {
        deadline - tray_step_boundary(remaining, total)
    }
}

/// The wakeup for the tray icon: the next step change, but no sooner than one
/// second from now (or the deadline, if that comes first).
pub open spec fn tray_icon_wake(now: u64, deadline: int, remaining: int, total: int) -> int {
    max_int(
        exact_tray_icon_wake(deadline, remaining, total),
        min_int(now + MIN_TRAY_ICON_WAKE_INTERVAL, deadline),
    )
}

/// The wakeup for the countdown bubble: when it appears, or its next redraw.
pub open spec fn bubble_wake(now: u64, deadline: int, remaining: int) -> int {
    if remaining > BUBBLE_THRESHOLD {
        deadline - BUBBLE_THRESHOLD
    } else {
        min_int(now + BUBBLE_REFRESH_INTERVAL, deadline)
    }
}

/// The clock reading at which the event loop must next wake, if any.
pub open spec fn next_wake_of(state: TimerState, now: u64) -> Option<int> {
    match state {
        TimerState::Counting { deadline, total_duration } => {
            let remaining = remaining_nanos(deadline, now);
            if remaining == 0 {
                Some(now as int)
            } else {
                Some(
                    min_int(
                        tray_icon_wake(now, deadline as int, remaining, total_duration as int),
                        bubble_wake(now, deadline as int, remaining),
                    ),
                )
            }
        },
        _ => None,
    }
}

pub open spec fn control_flow_of(state: TimerState, now: u64) -> ControlFlow {
    match next_wake_of(state, now) {
        Some(wake) => ControlFlow::WaitUntil(wake as u128),
        None => ControlFlow::Wait,
    }
}

fn duration_from_minutes(minutes: u32) -> (nanos: u128)
    ensures
        nanos == minutes_to_nanos(minutes),
        nanos <= MAX_DURATION,
{
    minutes as u128 * NANOS_PER_MINUTE
}

fn ceil_seconds(duration: u128) -> (seconds: u32)
    ensures
        seconds == ceil_seconds_of(duration as int) as u32,
{
    let millis = duration / 1_000_000;
    ((millis + 999) / 1000) as u32
}

fn remaining_tray_icon_steps(remaining: u128, total_duration: u128) -> (steps: u32)
    requires
        remaining <= MAX_DEADLINE,
        total_duration <= MAX_DURATION,
    ensures
        steps == tray_icon_steps(remaining as int, total_duration as int),
{
    if remaining == 0 {
        0
    } else {
        let value = remaining * 360;
        let divisor = if total_duration > 0 {
            total_duration
        } else {
            1
        };
        ((value + divisor - 1) / divisor) as u32
    }
}

/// The reported step count never exceeds the untruncated one.
proof fn lemma_steps_le_count(remaining: int, total: int)
    requires
        remaining >= 0,
    ensures
        step_count(remaining, total) >= 0,
        tray_icon_steps(remaining, total) <= step_count(remaining, total),
{
    let d = if total > 0 {
        total
    } else {
        1
    };
    if remaining > 0 {
        lemma_ceil_div_bounds(remaining * 360, d);
    }
}

/// The step boundary lies strictly inside the time that is left.
pub proof fn lemma_step_boundary_within_remaining(remaining: int, total: int)
    requires
        remaining > 0,
        total >= 0,
        tray_icon_steps(remaining, total) > 1,
    ensures
        0 <= tray_step_boundary(remaining, total) < remaining,
{
    let s: int = tray_icon_steps(remaining, total) as int;
    lemma_steps_le_count(remaining, total);
    if total > 0 {
        let c = step_count(remaining, total);
        lemma_ceil_div_bounds(remaining * 360, total);
        assert(0 <= total * (s - 1) <= total * (c - 1)) by (nonlinear_arith)
            requires
                1 <= s <= c,
                total > 0,
        ;
        assert(total * (s - 1) < remaining * 360);
    } else {
        assert(total * (s - 1) == 0) by (nonlinear_arith)
            requires
                total == 0,
        ;
    }
}

/// The product behind the step boundary fits in a `u128`.
proof fn lemma_step_product_bound(remaining: int, total: int)
    requires
        0 <= total <= MAX_DURATION,
    ensures
        0 <= total * (tray_icon_steps(remaining, total) - 1) <= MAX_DURATION * u32::MAX || tray_icon_steps(remaining, total) == 0,
{
    let s: int = tray_icon_steps(remaining, total) as int;
    if s >= 1 {
        assert(0 <= total * (s - 1) <= MAX_DURATION * u32::MAX) by (nonlinear_arith)
            requires
                0 <= total <= MAX_DURATION,
                0 <= s - 1 <= u32::MAX,
        ;
    }
}

fn next_tray_icon_wake(now: u64, deadline: u128, remaining: u128, total_duration: u128) -> (wake: u128)
    requires
        deadline <= MAX_DEADLINE,
        total_duration <= MAX_DURATION,
        remaining == remaining_nanos(deadline, now),
    ensures
        wake == tray_icon_wake(now, deadline as int, remaining as int, total_duration as int),
{
    let remaining_steps = remaining_tray_icon_steps(remaining, total_duration);
    let exact_next_wake = if remaining_steps <= 1 {
        deadline
    } else {
        proof {
            lemma_step_boundary_within_remaining(remaining as int, total_duration as int);
            lemma_step_product_bound(remaining as int, total_duration as int);
        }
        let nanos = total_duration * ((remaining_steps - 1) as u128) / 360;
        let next_boundary_from_deadline = if nanos <= 0xffff_ffff_ffff_ffff {
            nanos
        } else {
            0xffff_ffff_ffff_ffff
        };
        deadline - next_boundary_from_deadline
    };
    let one_second_later = now as u128 + MIN_TRAY_ICON_WAKE_INTERVAL;
    let clamp = if one_second_later <= deadline {
        one_second_later
    } else {
        deadline
    };
    if exact_next_wake >= clamp {
        exact_next_wake
    } else {
        clamp
    }
}


impl BreakTimer {
    #[verifier::type_invariant]
    spec fn well_formed(self) -> bool {
        &&& self.duration <= MAX_DURATION
        &&& match self.state {
            TimerState::Counting { deadline, total_duration } => {
                &&& total_duration <= MAX_DURATION
                &&& deadline <= MAX_DEADLINE
            },
            _ => true,
        }
    }

    /// An idle timer whose intervals last `minutes` minutes.
    pub fn new(minutes: u32) -> (timer: Self)
        ensures
            timer@.duration == minutes_to_nanos(minutes),
            timer@.state == TimerState::Idle,
    {
        Self { duration: duration_from_minutes(minutes), state: TimerState::Idle }
    }

    /// Starts a full interval at `now`.
    pub fn start(&mut self, now: u64)
        ensures
            final(self)@.duration == old(self)@.duration,
            final(self)@.state == counting_from(old(self)@.duration, now),
    {
        proof {
            use_type_invariant(&*self);
        }
        let duration = self.duration;
        self.start_for_duration(duration, now);
    }

    /// Starts a one-minute snooze at `now`; the interval length is kept.
    pub fn start_snooze(&mut self, now: u64)
        ensures
            final(self)@.duration == old(self)@.duration,
            final(self)@.state == counting_from(SNOOZE_DURATION, now),
    {
        self.start_for_duration(SNOOZE_DURATION, now);
    }

    fn start_for_duration(&mut self, duration: u128, now: u64)
        requires
            duration <= MAX_DURATION,
        ensures
            final(self)@.duration == old(self)@.duration,
            final(self)@.state == counting_from(duration, now),
    {
        proof {
            use_type_invariant(&*self);
        }
        self.state = TimerState::Counting { deadline: now as u128 + duration, total_duration: duration };
    }

    /// Stops counting; the interval length is kept.
    pub fn stop(&mut self)
        ensures
            final(self)@.duration == old(self)@.duration,
            final(self)@.state == TimerState::Idle,
    {
        proof {
            use_type_invariant(&*self);
        }
        self.state = TimerState::Idle;
    }

    /// Sets the interval length; a running countdown restarts with it at `now`,
    /// an idle or alerting timer keeps its phase.
    pub fn set_duration_minutes(&mut self, minutes: u32, now: u64)
        ensures
            final(self)@.duration == minutes_to_nanos(minutes),
            final(self)@.state == (match old(self)@.state {
                TimerState::Counting { .. } => counting_from(minutes_to_nanos(minutes), now),
                other => other,
            }),
    {
        proof {
            use_type_invariant(&*self);
        }
        self.duration = duration_from_minutes(minutes);
        if let TimerState::Counting { .. } = self.state {
            self.start(now);
        }
    }

    /// Moves a countdown whose deadline has come to the alert phase; returns
    /// whether it did.
    pub fn tick(&mut self, now: u64) -> (fired: bool)
        ensures
            final(self)@.duration == old(self)@.duration,
            (final(self)@.state, fired) == tick_result(old(self)@.state, now),
    {
        proof {
            use_type_invariant(&*self);
        }
        match self.state {
            TimerState::Counting { deadline, .. } => {
                if now as u128 >= deadline {
                    self.state = TimerState::Alert;
                    true
                } else {
                    false
                }
            },
            _ => false,
        }
    }

    pub fn mode(&self) -> (mode: TimerMode)
        ensures
            mode == mode_of(self@.state),
    {
        match self.state {
            TimerState::Idle => TimerMode::Idle,
            TimerState::Counting { .. } => TimerMode::Counting,
            TimerState::Alert => TimerMode::Alert,
        }
    }

    /// The seconds the countdown bubble shows at `now`, while it is shown.
    pub fn bubble_seconds(&self, now: u64) -> (seconds: Option<u32>)
        ensures
            seconds == bubble_seconds_of(self@.state, now),
    {
        match self.state {
            TimerState::Counting { deadline, .. } => {
                let remaining = saturating_duration_since(deadline, now);
                if remaining == 0 || remaining > BUBBLE_THRESHOLD {
                    None
                } else {
                    Some(ceil_seconds(remaining))
                }
            },
            _ => None,
        }
    }

    /// The tray ring's remaining steps at `now`, while counting.
    pub fn tray_icon_step(&self, now: u64) -> (step: Option<u32>)
        ensures
            step == tray_icon_step_of(self@.state, now),
    {
        proof {
            use_type_invariant(self);
        }
        match self.remaining(now) {
            Some((remaining, total_duration)) => Some(
                remaining_tray_icon_steps(remaining, total_duration),
            ),
            None => None,
        }
    }

    /// The time left and the whole interval at `now`, while counting.
    pub fn remaining(&self, now: u64) -> (r: Option<(u128, u128)>)
        ensures
            r matches Some((remaining, total)) ==> remaining_of(self@.state, now) == Some(
                (remaining as int, total as int),
            ),
            r is None <==> remaining_of(self@.state, now) is None,
            r matches Some((remaining, total)) ==> remaining <= MAX_DEADLINE && total
                <= MAX_DURATION,
    {
        proof {
            use_type_invariant(self);
        }
        match self.state {
            TimerState::Counting { deadline, total_duration } => Some(
                (saturating_duration_since(deadline, now), total_duration),
            ),
            _ => None,
        }
    }

    /// What the event loop should do until the next event: wait for one, or
    /// wake at the clock reading the display next needs refreshing.
    pub fn next_control_flow(&self, now: u64) -> (flow: ControlFlow)
        ensures
            flow == control_flow_of(self@.state, now),
    {
        match self.next_wake(now) {
            Some(next_wake) => ControlFlow::WaitUntil(next_wake),
            None => ControlFlow::Wait,
        }
    }

    fn next_wake(&self, now: u64) -> (wake: Option<u128>)
        ensures
            wake matches Some(w) ==> next_wake_of(self@.state, now) == Some(w as int),
            wake is None <==> next_wake_of(self@.state, now) is None,
    {
        proof {
            use_type_invariant(self);
        }
        match self.state {
            TimerState::Counting { deadline, total_duration } => {
                let remaining = saturating_duration_since(deadline, now);
                if remaining == 0 {
                    return Some(now as u128);
                }
                let tray_icon_wake = next_tray_icon_wake(now, deadline, remaining, total_duration);
                let bubble_wake = if remaining > BUBBLE_THRESHOLD {
                    deadline - BUBBLE_THRESHOLD
                } else {
                    let refresh = now as u128 + BUBBLE_REFRESH_INTERVAL;
                    if refresh <= deadline {
                        refresh
                    } else {
                        deadline
                    }
                };
                if tray_icon_wake <= bubble_wake {
                    Some(tray_icon_wake)
                } else {
                    Some(bubble_wake)
                }
            },
            _ => None,
        }
    }
}

fn saturating_duration_since(deadline: u128, now: u64) -> (remaining: u128)
    ensures
        remaining == remaining_nanos(deadline, now),
{
    if deadline > now as u128 {
        deadline - now as u128
    } else {
        0
    }
}


/// A countdown alerts exactly once: a tick fires only while counting and only
/// once the deadline has come; after it fires the timer stays in the alert
/// phase and no later tick fires again. A tick that does not fire changes
/// nothing.
pub proof fn lemma_tick_fires_once(state: TimerState, first: u64, later: u64)
    ensures
        tick_result(state, first).1 <==> (state matches TimerState::Counting { deadline, .. }
            && first >= deadline),
        tick_result(state, first).1 ==> tick_result(state, first).0 == TimerState::Alert,
        !tick_result(state, first).1 ==> tick_result(state, first).0 == state,
        tick_result(state, first).1 ==> tick_result(tick_result(state, first).0, later) == (
        TimerState::Alert, false),
{
}

/// The countdown bubble shows only in the final ten seconds of a countdown,
/// and then shows at most ten; in that window it is always shown.
pub proof fn lemma_bubble_in_final_seconds(state: TimerState, now: u64)
    ensures
        bubble_seconds_of(state, now) matches Some(seconds) ==> {
            &&& state matches TimerState::Counting { deadline, .. }
            &&& 0 < remaining_nanos(deadline, now) <= BUBBLE_THRESHOLD
            &&& seconds <= 10
        },
        (state matches TimerState::Counting { deadline, .. } && 0 < remaining_nanos(deadline, now)
            <= BUBBLE_THRESHOLD) ==> bubble_seconds_of(state, now) is Some,
{
    if let TimerState::Counting { deadline, .. } = state {
        let remaining = remaining_nanos(deadline, now);
        if 0 < remaining <= BUBBLE_THRESHOLD {
            let millis = remaining / 1_000_000;
            assert(0 <= millis <= 10_000);
            lemma_ceil_div_at_most(millis, 1000, 10);
            lemma_ceil_div_bounds(millis, 1000);
        }
    }
}

/// The countdown bubble shows the time left in whole seconds, rounded up from
/// whole milliseconds: while counting with at most ten seconds left, the
/// bubble shows exactly the `s` with `(s - 1) * 1000 < millis <= s * 1000`,
/// where `millis` is the time left in whole milliseconds.
pub proof fn lemma_bubble_shows_seconds_left(deadline: u128, total_duration: u128, now: u64)
    requires
        deadline > now,
        deadline - now <= BUBBLE_THRESHOLD,
    ensures
        ({
            let millis = (deadline - now) / 1_000_000;
            bubble_seconds_of(TimerState::Counting { deadline, total_duration }, now) matches Some(s)
                && (s - 1) * 1000 < millis <= s * 1000
        }),
{
    let millis = (deadline - now) / 1_000_000;
    assert(0 <= millis <= 10_000);
    lemma_ceil_div_at_most(millis, 1000, 10);
    lemma_ceil_div_bounds(millis, 1000);
}

/// While the countdown bubble is on screen (at most ten seconds left), the
/// event loop wakes every 200 ms to redraw it, or at the deadline if that
/// comes first: the wake is exactly `min(now + 200 ms, deadline)`.
pub proof fn lemma_bubble_refreshes_five_times_a_second(deadline: u128, total_duration: u128, now: u64)
    requires
        deadline > now,
        deadline - now <= BUBBLE_THRESHOLD,
    ensures
        next_wake_of(TimerState::Counting { deadline, total_duration }, now) == Some(
            if now + 200_000_000 <= deadline {
                now + 200_000_000
            } else {
                deadline as int
            },
        ),
{
}

/// Before the bubble is due (more than ten seconds left), wakes are never
/// more frequent than once a second, except to show the bubble on time: the
/// wake is at least `min(now + 1 s, deadline - 10 s)` and at most
/// `deadline - 10 s`.
pub proof fn lemma_wakes_at_most_once_a_second_before_bubble(
    deadline: u128,
    total_duration: u128,
    now: u64,
)
    requires
        deadline > now,
        deadline - now > BUBBLE_THRESHOLD,
    ensures
        ({
            let wake = next_wake_of(TimerState::Counting { deadline, total_duration }, now).unwrap();
            &&& next_wake_of(TimerState::Counting { deadline, total_duration }, now) is Some
            &&& wake <= deadline - BUBBLE_THRESHOLD
            &&& wake >= now + 1_000_000_000 || wake == deadline - BUBBLE_THRESHOLD
        }),
{
}

/// Starting a countdown of `duration` at `now` leaves exactly `duration` to go
/// out of `duration`, and the alert comes exactly when the clock reaches
/// `now + duration`.
pub proof fn lemma_start_counts_full_interval(duration: u128, now: u64, t: u64)
    requires
        now + duration <= u128::MAX,
    ensures
        mode_of(counting_from(duration, now)) == TimerMode::Counting,
        remaining_of(counting_from(duration, now), now) == Some((duration as int, duration as int)),
        tick_result(counting_from(duration, now), t).1 <==> t >= now + duration,
{
}

/// An interval of `minutes` minutes, started at `now`, alerts exactly
/// `minutes * 60` seconds later; a snooze alerts exactly one minute later.
pub proof fn lemma_interval_lengths(minutes: u32, now: u64, t: u64)
    ensures
        tick_result(counting_from(minutes_to_nanos(minutes), now), t).1 <==> t >= now + minutes
            * 60_000_000_000,
        tick_result(counting_from(SNOOZE_DURATION, now), t).1 <==> t >= now + 60_000_000_000,
{
    assert(minutes * 60_000_000_000 <= MAX_DURATION);
}

/// While counting toward `deadline`, the time left at `now` is `deadline - now`
/// (zero once it has passed) out of the whole interval.
pub proof fn lemma_remaining_is_time_left(deadline: u128, total_duration: u128, now: u64)
    ensures
        remaining_of(TimerState::Counting { deadline, total_duration }, now) == Some(
            (
                if deadline >= now {
                    deadline - now
                } else {
                    0
                },
                total_duration as int,
            ),
        ),
        remaining_of(TimerState::Idle, now) is None,
        remaining_of(TimerState::Alert, now) is None,
{
}

/// The tray ring's step is the time left in 360ths of the interval, rounded
/// up: the `s` with `(s - 1) * total < remaining * 360 <= s * total` (while it
/// fits the reported `u32`).
pub proof fn lemma_tray_steps_exact(remaining: int, total: int)
    requires
        remaining > 0,
        total > 0,
        step_count(remaining, total) <= u32::MAX,
    ensures
        ({
            let s = tray_icon_steps(remaining, total) as int;
            (s - 1) * total < remaining * 360 <= s * total
        }),
{
    lemma_ceil_div_bounds(remaining * 360, total);
    let s = tray_icon_steps(remaining, total) as int;
    assert(s * total == total * s) by (nonlinear_arith);
    assert((s - 1) * total == total * (s - 1)) by (nonlinear_arith);
}

/// The exact tray wake is the first moment the ring drops a step: before it
/// the step is unchanged (`lemma_tray_icon_constant_until_wake`), and at it
/// the time left gives a lower step. Needs a non-empty interval, a step count
/// that fits the reported `u32`, and a step boundary within `u64` nanoseconds.
pub proof fn lemma_tray_step_drops_at_exact_wake(deadline: u128, total: u128, now: u64)
    requires
        total > 0,
        deadline > now,
        step_count(remaining_nanos(deadline, now), total as int) <= u32::MAX,
        total * (tray_icon_steps(remaining_nanos(deadline, now), total as int) - 1)
            / TRAY_ICON_TOTAL_STEPS as int <= u64::MAX,
    ensures
        ({
            let r0 = remaining_nanos(deadline, now);
            let wake = exact_tray_icon_wake(deadline as int, r0, total as int);
            &&& now < wake <= deadline
            &&& tray_icon_steps(deadline - wake, total as int) < tray_icon_steps(r0, total as int)
        }),
{
    let r0 = remaining_nanos(deadline, now);
    let s: int = tray_icon_steps(r0, total as int) as int;
    lemma_steps_le_count(r0, total as int);
    lemma_ceil_div_bounds(r0 * 360, total as int);
    assert(s == step_count(r0, total as int));
    if s > 1 {
        lemma_step_boundary_within_remaining(r0, total as int);
        let b = total * (s - 1) / 360;
        assert(tray_step_boundary(r0, total as int) == b);
        assert(b * 360 <= total * (s - 1));
        if b > 0 {
            lemma_ceil_div_at_most(b * 360, total as int, s - 1);
            lemma_steps_le_count(b, total as int);
        }
    }
}

/// During a countdown with more than ten seconds left, the wake asked for
/// misses no change of the tray ring by more than the one-second floor: at
/// every moment at least a second after `now` and before the wake, the ring
/// still shows the step it shows at `now`.
pub proof fn lemma_tray_wake_on_time(deadline: u128, total: u128, now: u64, t: u64)
    requires
        total > 0,
        deadline - now > BUBBLE_THRESHOLD,
        step_count(remaining_nanos(deadline, now), total as int) <= u32::MAX,
        total * (tray_icon_steps(remaining_nanos(deadline, now), total as int) - 1)
            / TRAY_ICON_TOTAL_STEPS as int <= u64::MAX,
        now + 1_000_000_000 <= t,
        t < next_wake_of(TimerState::Counting { deadline, total_duration: total }, now).unwrap(),
    ensures
        tray_icon_steps(remaining_nanos(deadline, t), total as int) == tray_icon_steps(
            remaining_nanos(deadline, now),
            total as int,
        ),
{
    lemma_tray_icon_constant_until_wake(deadline, total, now, t);
}

/// The event loop sleeps until an event while the timer is idle or alerting;
/// while counting it sleeps until a clock reading: `now` itself once the
/// deadline has passed, and in the final ten seconds 200 ms from now (or the
/// deadline, if sooner).
pub proof fn lemma_control_flow_by_phase(state: TimerState, now: u64)
    ensures
        !(state matches TimerState::Counting { .. }) ==> control_flow_of(state, now)
            == ControlFlow::Wait,
        state matches TimerState::Counting { deadline, .. } && deadline <= now ==> control_flow_of(
            state,
            now,
        ) == ControlFlow::WaitUntil(now as u128),
        state matches TimerState::Counting { deadline, .. } && deadline > now && deadline - now
            <= BUBBLE_THRESHOLD ==> control_flow_of(state, now) == ControlFlow::WaitUntil(
            if now + 200_000_000 <= state->deadline {
                (now + 200_000_000) as u128
            } else {
                state->deadline
            },
        ),
{
}

/// The tray ring's step count never grows as the time left shrinks, as long as
/// it fits the reported `u32`.
pub proof fn lemma_tray_steps_monotone(earlier_remaining: int, later_remaining: int, total: int)
    requires
        0 <= later_remaining <= earlier_remaining,
        step_count(earlier_remaining, total) <= u32::MAX,
    ensures
        tray_icon_steps(later_remaining, total) <= tray_icon_steps(earlier_remaining, total),
{
    let d = if total > 0 {
        total
    } else {
        1
    };
    lemma_steps_le_count(earlier_remaining, total);
    lemma_steps_le_count(later_remaining, total);
    if later_remaining > 0 {
        crate::arith::lemma_ceil_div_monotone(later_remaining * 360, earlier_remaining * 360, d);
    }
}

/// Over a countdown, the tray ring runs from all 360 steps at the start down
/// to zero at the deadline: at most 360 steps while no more than the interval
/// is left, at least one while any time is left.
pub proof fn lemma_tray_steps_range(remaining: int, total: int)
    requires
        total > 0,
        0 <= remaining <= total,
    ensures
        tray_icon_steps(remaining, total) <= TRAY_ICON_TOTAL_STEPS,
        remaining == total ==> tray_icon_steps(remaining, total) == TRAY_ICON_TOTAL_STEPS,
        remaining > 0 ==> tray_icon_steps(remaining, total) >= 1,
        remaining == 0 ==> tray_icon_steps(remaining, total) == 0,
{
    if remaining > 0 {
        assert(remaining * 360 <= total * 360) by (nonlinear_arith)
            requires
                remaining <= total,
        ;
        lemma_ceil_div_at_most(remaining * 360, total, 360);
        lemma_ceil_div_bounds(remaining * 360, total);
        if remaining == total {
            crate::arith::lemma_ceil_div_at_least(remaining * 360, total, 360);
        }
    }
}

/// As the clock advances during a countdown, the tray ring's step never goes
/// up (while the step count fits the reported `u32`).
pub proof fn lemma_tray_icon_step_never_increases(state: TimerState, now: u64, later: u64)
    requires
        now <= later,
        state matches TimerState::Counting { deadline, total_duration } ==> step_count(
            remaining_nanos(deadline, now),
            total_duration as int,
        ) <= u32::MAX,
    ensures
        state matches TimerState::Counting { .. } ==> tray_icon_step_of(state, later).unwrap()
            <= tray_icon_step_of(state, now).unwrap(),
        !(state matches TimerState::Counting { .. }) ==> tray_icon_step_of(state, now) is None
            && tray_icon_step_of(state, later) is None,
{
    if let TimerState::Counting { deadline, total_duration } = state {
        lemma_tray_steps_monotone(
            remaining_nanos(deadline, now),
            remaining_nanos(deadline, later),
            total_duration as int,
        );
    }
}

/// Where the event loop is told to wake: never in the past; at `now` once the
/// deadline has come, so the alert is raised without delay; otherwise after
/// `now` (no busy loop) and no later than the deadline; and, while more than
/// ten seconds are left, no later than the moment the countdown bubble must
/// appear. No wake is asked for when not counting.
pub proof fn lemma_next_wake_bounds(state: TimerState, now: u64)
    ensures
        match state {
            TimerState::Counting { deadline, .. } => {
                let wake = next_wake_of(state, now).unwrap();
                &&& next_wake_of(state, now) is Some
                &&& deadline <= now ==> wake == now
                &&& deadline > now ==> now < wake <= deadline
                &&& remaining_nanos(deadline, now) > BUBBLE_THRESHOLD ==> wake <= deadline
                    - BUBBLE_THRESHOLD
            },
            _ => next_wake_of(state, now) is None,
        },
{
    if let TimerState::Counting { deadline, total_duration } = state {
        let remaining = remaining_nanos(deadline, now);
        if remaining > 0 {
            if tray_icon_steps(remaining, total_duration as int) > 1 {
                lemma_step_boundary_within_remaining(remaining, total_duration as int);
            }
        }
    }
}

/// The tray ring keeps its step from `now` until the exact wake computed for
/// it, so waking there redraws it no later than it changes (the wake itself
/// may be deferred to one second from now). This needs a non-empty interval,
/// a step count that fits the reported `u32`, and a step boundary within the
/// `u64` nanoseconds a wake can be set back by.
pub proof fn lemma_tray_icon_constant_until_wake(deadline: u128, total: u128, now: u64, t: u64)
    requires
        total > 0,
        step_count(remaining_nanos(deadline, now), total as int) <= u32::MAX,
        total * (tray_icon_steps(remaining_nanos(deadline, now), total as int) - 1)
            / TRAY_ICON_TOTAL_STEPS as int <= u64::MAX,
        now <= t,
        t < exact_tray_icon_wake(deadline as int, remaining_nanos(deadline, now), total as int),
    ensures
        tray_icon_steps(remaining_nanos(deadline, t), total as int) == tray_icon_steps(
            remaining_nanos(deadline, now),
            total as int,
        ),
{
    let r0 = remaining_nanos(deadline, now);
    let r1 = remaining_nanos(deadline, t);
    let s: int = tray_icon_steps(r0, total as int) as int;
    lemma_steps_le_count(r0, total as int);
    lemma_tray_steps_monotone(r0, r1, total as int);
    assert(r1 > 0);
    assert(s == step_count(r0, total as int));
    assert(step_count(r1, total as int) <= step_count(r0, total as int)) by {
        crate::arith::lemma_ceil_div_monotone(r1 * 360, r0 * 360, total as int);
    }
    if s <= 1 {
        lemma_ceil_div_bounds(r1 * 360, total as int);
        assert(step_count(r1, total as int) >= 1);
        assert(step_count(r1, total as int) == s);
    } else {
        let b = total * (s - 1) / 360;
        assert(tray_step_boundary(r0, total as int) == b);
        assert(r1 > b);
        assert(r1 * 360 > total * (s - 1));
        crate::arith::lemma_ceil_div_at_least(r1 * 360, total as int, s);
        lemma_steps_le_count(r1, total as int);
        assert(step_count(r1, total as int) <= step_count(r0, total as int)) by {
            crate::arith::lemma_ceil_div_monotone(r1 * 360, r0 * 360, total as int);
        }
        assert(step_count(r1, total as int) == s);
    }
}

} // verus!
