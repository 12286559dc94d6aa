# breaktime

A menu bar break reminder for macOS: a countdown shown as a progress ring in
the tray icon, a countdown bubble for the last ten seconds, and a full-screen
break prompt when the interval ends, with "+1 min" (snooze) and "Done"
(start the next interval).

The decision logic is a library verified with Verus; the AppKit, tray and
event-loop code around it is an ordinary program.

- `src/timer.rs` — the break timer: phases, ticks, the countdown bubble's
  seconds, the tray ring's 360 steps, and when the event loop must next wake.
  Clock readings are `u64` nanoseconds of a monotonic clock; durations are
  `u128` nanoseconds.
- `src/controller.rs` — the application state (enabled switch, chosen
  interval, timer, last tray step drawn) and what each user request and each
  refresh changes and asks to be redrawn.
- `src/text.rs` — the labels: `20 min`, the zero-padded countdown, the break
  dialog's subtitle.
- `src/windows.rs` — on/off bookkeeping for the reminder windows.
- `src/arith.rs` — lemmas on rounded-up division.
- `app/` — the macOS program: winit event loop, tray icon and menu
  (tray-icon), AppKit windows (objc2), icon rasterisation and window
  placement. On other platforms it only prints that macOS is required.
- `tests/` — tests of the library.
