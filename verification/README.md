# mabi-core

The core of a multi-protocol device simulator (Modbus, OPC UA, BACnet, KNX):
devices and their lifecycle, tags and capabilities, the engine's device
registry and state machine, configuration and its validation, environment
overrides, hot reload decisions, logging settings, metrics statistics,
memory profiling counters and simulation settings.

## Layout

- `src/` is the library, written in Verus. Every function there carries a
  contract that Verus proves; calls into other crates and into parts of std
  that vstd does not specify go through small trusted wrappers, each with a
  doc comment that says what is assumed of it. Laws that relate several
  operations are public proof functions named `lemma_*`.
- `tests/` exercises the library on concrete values.
- `app/` is ordinary Rust around the library: reading and writing
  configuration files, watching files, environment variables, the tracing
  subscriber, Prometheus metrics, the asynchronous device runtime, and the
  figures computed in floating point.
