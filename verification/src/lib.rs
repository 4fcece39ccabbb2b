//! Verified core of a small task service instrumented for observability:
//! task-id allocation, the handlers' responses, and the labels and messages
//! that the service attaches to its logs, metrics and spans.

pub mod task;
pub mod decimal;
pub mod lesson;
pub mod telemetry;
