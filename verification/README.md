# beetle

The verified core of an on-device agent runtime, written in Verus.

- `src/` is the library; every function in it is verified against its contract.
  - `orchestrator/`: heap and queue pressure, admission decisions, the HTTP/TLS permit,
    the per-channel circuit breaker and the resource snapshot.
  - `llm/`: server-sent-event parsing, request building, stream accumulation, status and
    size checks, the retry schedule and the fallback client over several sources.
  - `memory/`: system-prompt assembly and the storage interfaces of the memory layer.
  - `platform/`: device helpers (GPIO/PWM/ADC/buzzer/DHT/I2C sensor logic, audio ring
    buffer and sample conversion, CSRF tokens, HTTP body caps, os-release and cpuinfo
    parsing, heap checks).
  - `dashboard.rs`, `dashboard_layout.rs`: texts and geometry of the status display;
    `display_loop.rs`: the display loop's decisions (state shown, changed regions, error
    flash, auto-sleep, full or partial repaint).
  - `metrics.rs`, `stream_token.rs`, `boot.rs`: counters, the token cache of the streaming
    editor, startup storage checks.
- `tests/` runs the library on concrete values.
- `app/` is the host program around the library: command line, files, HTTP over `ureq`,
  JSON with `serde`, and the loops that sleep or wait.
