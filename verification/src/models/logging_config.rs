//! Where and how much the device logs.

use vstd::prelude::*;
use crate::models::LogLevel;

verus! {

/// The remote syslog target of the device and its logging level.
#[derive(Clone, Debug, PartialEq)]
pub struct LoggingConfig {
    pub ip_address: String,
    pub port: i32,
    pub log_level: LogLevel,
}

impl LoggingConfig {
    /// A configuration with the given address, port and level.
    pub fn new(ip_address: String, port: i32, log_level: LogLevel) -> (r: LoggingConfig)
        ensures
            r.ip_address@ == ip_address@,
            r.port == port,
            r.log_level == log_level,
    {
        LoggingConfig { ip_address, port, log_level }
    }
}

impl Default for LoggingConfig {
    fn default() -> (r: Self)
        ensures
            r.ip_address@ == Seq::<char>::empty(),
            r.port == 0,
            r.log_level == LogLevel::Debug,
    {
        LoggingConfig { ip_address: String::new(), port: 0, log_level: LogLevel::Debug }
    }
}

} // verus!
