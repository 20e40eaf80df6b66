//! Replies to USB commands.
use vstd::prelude::*;

verus! {

/// Maximum response length in bytes.
pub const MAX_RESPONSE_LENGTH: usize = 512;

/// Diagnostic figures reported by the debug command.
#[derive(Debug, Clone, Copy, PartialEq, Eq, Structural)]
pub struct DebugInfo {
    /// Time since start-up in milliseconds.
    pub uptime_ms: u64,
    /// Free memory in bytes.
    pub free_memory: u32,
    /// Whether the USB terminal is connected.
    pub usb_connected: bool,
    /// Number of attached sensors.
    pub sensor_count: u8,
}

/// Turns replies into text for the USB terminal; it keeps no state.
pub struct ResponseFormatter;

impl ResponseFormatter {
    /// Create a new response formatter.
    pub fn new() -> (r: ResponseFormatter) {
        ResponseFormatter
    }
}

} // verus!
