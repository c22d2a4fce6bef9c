//! Fan control engine: temperature history, fan profiles, polling cadence and
//! the per-fan control state machine.

pub mod buffer;
pub mod cadence;
pub mod profile;
pub mod profiles;
pub mod runtime;
pub mod suspend;
