# raspberry_dashboard

A dashboard for a Raspberry Pi with a screen: clock, Snapcast now playing,
Home Assistant sensors, daily verse, quotes and weather.  TAB cycles through
the enabled widgets, an optional timer cycles through the active ones, and an
HTTP interface lets Home Assistant switch widgets and blank the screen.

Layout:

- `src/` — the verified library (Verus): the widget line-up and switching
  (`widget`), the remote-control decisions (`remote`, `directory`), and what
  each widget computes from its data (`quotes`, `dailyverse`,
  `homeassistant`, `weather`, `snapcast`, with string helpers in `text`).
  Calls into `htmlize`, `chrono` and `rand` go through small trusted
  wrappers whose contracts are stated next to them.
- `app/` — the program around it: configuration loading, the Slint window
  and timers, HTTP clients and server, Snapcast connection, image decoding,
  and the floating-point parts (gauges, clock position, temperatures).
- `tests/` — tests of the library.
