# cockroach_reminder

A tray break timer: every work interval it starts a break during which
cockroaches crawl across every display.

`src/` is the library, verified with Verus:

- `timer` — the countdown state machine (`Timer`, `Phase`, `Transition`) and
  the laws of its work/break schedule;
- `text` — the `mm:ss` clock, the tray menu labels and the settings window's
  status texts;
- `heading` — the edge a cockroach enters from, its heading, and the sprite
  orientation drawn for it;
- `runtime` — the decisions of the main loop: which chores fall on a wake-up
  and how the overlay windows open, animate, retry and close;
- `settings` — the ranges of the integer settings;
- `sprite` — decoding, bounding, cropping, resizing and channel order of the
  sprite frames.

`app/` is the GUI shell around it (windows, tray, notifications, settings
file, floating-point animation). `tests/` exercise the library.
