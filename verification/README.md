# MaraTUI

A terminal-style UI for the Lelit Mara espresso machine: it reads the machine's UART
telemetry, shows it on a small display (dashboard, temperature graphs, a debug overlay),
and publishes telemetry, events and device status over MQTT, optionally with Home
Assistant discovery.

## Layout

- `src/` — the verified library (Verus). Every function carries a contract over
  mathematical models of the state:
  - `telemetry` — the UART frame format, its parser, and the events derived from
    consecutive frames (shot start/end/abort, water alarm, mode change);
  - `state` — the application state, its events and the state machine that handles
    events, button presses and telemetry frames, including the MQTT payloads it queues;
  - `home_assistant` — discovery configs and entity states;
  - `screens` — what each screen shows (texts, colours, chart bounds);
  - `uart_reader`, `button`, `brew_timer`, `supervisor`, `mqtt`, `config` — line
    assembly, press detection, timers, the main loop's timing decisions, broker
    addressing and the `MARATUI_*` configuration;
  - `laws` — properties that span several operations (queue and log caps, navigation,
    the debug overlay round trip, shot classification, the backlight timeout).
- `tests/` — tests of the library.
- `app/` — the firmware around it: the simulator and ESP32 runners, Ratatui rendering,
  and reading settings from the environment.

Times in the library are milliseconds of a monotonic clock passed in by the caller.
