//! State behind the system commands.
use vstd::prelude::*;

use crate::usb_commands::parser::CommandParser;

verus! {

/// Answers the system commands (debug, status, ping, help).
pub struct SystemCommandHandler {
    parser: CommandParser,
    uptime_start: u64,
}

impl SystemCommandHandler {
    /// A handler whose uptime count starts at zero.
    pub fn new() -> (r: SystemCommandHandler)
        ensures
            r.uptime_start_spec() == 0,
    {
        SystemCommandHandler { parser: CommandParser::new(), uptime_start: 0 }
    }

    /// When the uptime count started, in milliseconds.
    pub closed spec fn uptime_start_spec(&self) -> u64 {
        self.uptime_start
    }

    /// Time since start-up in milliseconds; no clock is attached, so this is 0.
    pub fn get_uptime_ms(&self) -> (r: u64)
        ensures
            r == 0,
    {
        0
    }

    /// Free memory in bytes; no allocator statistics exist, so this is 0.
    pub fn get_free_memory(&self) -> (r: u32)
        ensures
            r == 0,
    {
        0
    }
}

} // verus!
