//! Trace-to-log correlation for a service traced with OpenTelemetry and
//! observed in Datadog: identifier encoding, the active span's context, the
//! fields attached to each log event, the telemetry lifecycle, and the rules
//! of the demo API that exercises them.

pub mod codec;
pub mod trace_context;
pub mod injector;
pub mod lifecycle;
pub mod service;
pub mod telemetry;
