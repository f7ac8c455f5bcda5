//! A control plane for launching, listing, following and stopping
//! instrumentation tasks: the task registry, the lifecycle decisions around
//! the execution runtimes, log streaming and the protocol surface.
pub mod cli;
pub mod error;
pub mod kind;
pub mod lifecycle;
pub mod log_stream;
pub mod protocol;
pub mod registry;
pub mod request;
pub mod session;
pub mod temp_dir;
pub mod text;
