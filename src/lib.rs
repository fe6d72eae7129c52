//! A multi-target reachability monitor: the decisions of each target's
//! probe loop, the fan-out of one loop per target, and the validation of
//! the startup configuration. Sockets, timers and log sinks are driven by
//! the caller, which feeds the outcomes back as events.

pub mod level;
pub mod probe;
pub mod config;
pub mod supervisor;
