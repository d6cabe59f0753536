//! Verified core of a bridge between a host application and external
//! code-generation command-line tools.
//!
//! The library decides and computes; it performs no input or output. A host
//! walks directories, reads files and runs processes, and hands what it
//! found to the functions here as plain values.

pub mod text;
pub mod paths;
pub mod request;
pub mod provider;
pub mod collector;
pub mod command;
pub mod dispatch;
pub mod probe;

pub use collector::collect_source_code;
pub use probe::check_cli_available;
pub use request::{GenerateCodeRequest, GenerateCodeResponse};
