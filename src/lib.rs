//! Inspection callbacks for a packet-processing host: host-owned,
//! NUL-terminated strings become validated owned text, and each packet or
//! service event becomes one report line.

pub mod boundary;
pub mod classifier;
pub mod report;
pub mod resolver;
