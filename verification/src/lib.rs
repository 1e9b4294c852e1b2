//! Temporarily switches the machine to a dedicated benchmark power scheme:
//! captures the currently active scheme, makes sure the benchmark scheme
//! exists (creating it from the maximum-performance baseline if absent),
//! writes its performance parameters, activates it for a fixed hold, and
//! restores the prior scheme. The OS power-configuration service is driven
//! through single command invocations; this crate holds the identifier
//! resolution, the request construction and the whole control sequence,
//! while a thin driver performs the external calls.

pub mod resolve;
pub mod service;
pub mod scheme;
pub mod orchestrator;
pub mod laws;
