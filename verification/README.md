# nvidia-zerodb

A 0 dB (zero RPM) service for GPUs driven by the `nvidia` driver: it watches the GPU
temperature through `nvidia-settings`, stops the fans below `MIN_TEMP`, and hands them
back to the vBIOS above `MAX_TEMP` or whenever the temperature cannot be read. If the
fans cannot be handed back for longer than `SHUTDOWN_DELAY`, the machine is shut down.

Layout:

- `src/` — the verified library (Verus).
  - `config.rs` — the settings and how `/etc/nvidia-zerodb.conf` is read.
  - `text.rs` — UTF-8 decoding and decimal parsing, with their contracts.
  - `manager/mod.rs` — the fan manager as a state machine: readings and command
    outcomes in, fan commands and failsafe actions out.
  - `manager/failsafes.rs` — notifications and the forced shutdown.
  - `manager/gpu.rs` — the `nvidia-settings` command lines and the checks on their output.
  - `manager/laws.rs` — properties of the manager over all states and event sequences.
- `app/` — the daemon: file and process I/O, sleeping, signals, logging, desktop
  notifications and the shutdown call.
- `tests/` — tests of the library on concrete values.
