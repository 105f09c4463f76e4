//! imputio: an experimental priority-scheduled async runtime.
//!
//! This crate holds the runtime's decision logic, proved with Verus:
//! task priorities and the executor's priority queues, the round-robin
//! choice of executor, thread configuration and the runtime builder, the
//! state of the publish/subscribe event bus and the decisions of its poll
//! loops, and the registration table of the epoll-backed I/O poller.

pub mod config;
pub mod event_bus;
pub mod executor;
pub mod matcher;
pub mod poller;
pub mod priority;
pub mod runtime;
pub mod task;

pub use config::{ExecConfig, ExecThreadConfig, PollThreadConfig, PollerCfg, ThreadConfig};
pub use event_bus::{EventBus, EventBusError};
pub use executor::TaskQueues;
pub use priority::Priority;
pub use runtime::{ImputioRuntime, ImputioRuntimeBuilder, RuntimeError};
