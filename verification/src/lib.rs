//! Core of a bridge from a bus-based location service to a pull-based
//! metrics sink: reading validation, disconnection classification,
//! reconnection backoff, the supervisor state machine, and the update
//! counter. All I/O (the bus session itself, the metrics endpoint,
//! logging output) lives in the surrounding binary; this library holds
//! the decisions and proves them.

pub mod accuracy;
pub mod backoff;
pub mod classify;
pub mod double_bits;
pub mod loglevel;
pub mod monitor;
pub mod reading;
pub mod session;
pub mod supervisor;
pub mod text;
pub mod version;
