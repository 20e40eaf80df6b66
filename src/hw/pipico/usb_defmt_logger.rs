//! Logging over the USB serial interface of the Raspberry Pi Pico.
use vstd::prelude::*;

verus! {

/// Hands a log message to the USB serial transport. No transport is attached
/// on this board yet, so the message is dropped; the call never blocks and
/// never fails, which makes it safe from any context.
pub fn queue_usb_log_message(message: &str) {
    let _ = message;
}

/// Sizes for USB logging.
pub struct UsbLoggerConfig {
    /// Bytes reserved for queued messages.
    pub buffer_size: usize,
    /// The longest message, in bytes.
    pub max_message_length: usize,
}

impl Default for UsbLoggerConfig {
    /// A 1 KiB queue of messages up to 256 bytes long.
    fn default() -> (r: UsbLoggerConfig)
        ensures
            r.buffer_size == 1024,
            r.max_message_length == 256,
    {
        UsbLoggerConfig { buffer_size: 1024, max_message_length: 256 }
    }
}

/// A logger that sends messages over USB serial.
pub struct UsbLogger {
    /// The sizes the logger was made with.
    pub config: UsbLoggerConfig,
}

impl UsbLogger {
    /// A logger with the given sizes.
    pub fn new(config: UsbLoggerConfig) -> (r: UsbLogger)
        ensures
            r.config == config,
    {
        UsbLogger { config }
    }

    /// Prepares the logger for use; with no transport attached there is
    /// nothing to set up, and this always succeeds.
    pub fn init(&mut self) -> (r: Result<(), &'static str>)
        ensures
            r is Ok,
            final(self).config == old(self).config,
    {
        Ok(())
    }
}

} // verus!
