//! A resilient session supervisor for a blockchain monitoring agent: the
//! connect / subscribe / recover state machine, the runtime selection, and
//! the hook-script outcome rules, with their contracts.

pub mod error;
pub mod hooks;
pub mod runtime;
pub mod supervisor;
pub mod text;
