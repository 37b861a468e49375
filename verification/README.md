# embedded_services (verified core)

Decision logic of an embedded-controller service stack, written in Verus
and proved against its contracts:

- `ecs` — layered entity-component system: events are polled outermost
  component first and routed back to the component that raised them.
- `registry`, `thermal`, `thermal_service::context` — registries of sensors
  and fans keyed by device id (ids unique, lookups exact), context
  initialization and the single context token.
- `thermal_service::{fan, sensor}` — request handling and sampling state of
  fans and temperature sensors; `utils::SampleBuf` keeps the ten most recent
  samples in a `heapless::Deque`.
- `thermal_service::default_handler` — the MPTF variable table (a
  `heapless::FnvIndexMap`), threshold and cooling-policy state, the
  fan-control policy (off / on / ramping / max) and the critical and
  processor-hot notifications.
- `type_c` — per-port event and status bookkeeping of a TPS6699x USB-PD
  controller and the port-status decision after a register read.

Floating-point temperatures are carried by their bit pattern; comparisons
and unit conversions, channels, timers and driver calls live in `app/`,
which drives the verified functions from async tasks.
