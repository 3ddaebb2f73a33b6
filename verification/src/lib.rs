//! Real-time audio-level trigger: turns per-block volume readings into
//! pointer actions (click, press, release) according to a shared control
//! state, and reports per-block telemetry to an observer.
//!
//! The library holds the verified core: the volume scaling stage of the
//! amplitude estimator, the threshold trigger state machine over the shared
//! control state, and the latency-compensation ring buffer. Device capture,
//! pointer injection and the telemetry relay loop live outside and hand the
//! library plain values.

pub mod estimator;
pub mod latency;
pub mod trigger;
