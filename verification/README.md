# humours-server

A real-time hardware metrics server: clients open a websocket, receive the catalog of
metrics, subscribe to some of them with refresh rates and units, and are sent samples
at those rates. A hardware-query layer describes CPUs, GPUs, accelerators, memory and
the platform, and draws assessments from them.

## Layout

- `src/` — the verified library (Verus).
  - `server.rs`: admission by token, what a subscribe message comes to (accepted
    subscriptions or the errors it is rejected with), and which subscriptions each tick
    of the poll loop samples; with the laws that tie these together.
  - `hardware.rs`: the metric catalog, rate rounding to the 50 ms quantum, unit
    conversions, which system tables a batch of samples needs, Wi-Fi and counter
    parsing.
  - `config.rs`, `tls.rs`, `protocol.rs`: configuration decisions, TLS material from
    PEM text (through rustls-pemfile) or generated (through rcgen), message shapes.
  - `text.rs`: string and number utilities with their specifications.
  - `hwq/`: the hardware-query layer's parsers, classifiers, record builders,
    assessments and monitoring bookkeeping.
- `app/` — the program: configuration files, TLS setup, the websocket event loops,
  sysinfo reads, and the hardware-query reads and floating-point computations.
- `tests/` — tests of the library.
