//! Lifecycle coordination for an installed tracing pipeline: deciding whether
//! an exporter needs a background runtime, installing the subscriber globally
//! or for the current thread, and shutting everything down exactly once.

pub mod contextmanager;
pub mod export_process;
pub mod layer;
pub mod stubs;
pub mod subscriber;
pub mod wait_group;
mod worker_runtime;

pub use contextmanager::{Tracing, TracingConfig};
pub use export_process::{ExportProcess, ExportProcessConfig};
pub use wait_group::WaitGroup;
