//! A terminal over any USB serial link.
use vstd::prelude::*;

use vstd::string::StringSliceAdditionalSpecFns;

use crate::text::{text512_as_str, text512_new, text512_push_str};
use crate::usb::UsbCdc;

verus! {

/// The longest log line, line ending included, in bytes.
pub const MAX_LOG_LINE: usize = 512;

/// A log message followed by the terminal line ending.
pub open spec fn log_line(message: Seq<u8>) -> Seq<u8> {
    message + seq![13u8, 10u8]
}

/// A terminal on top of a USB serial link; it refuses traffic until it has
/// been initialised and while the link is down.
pub struct Terminal<T: UsbCdc> {
    usb_cdc: T,
    initialized: bool,
}

impl<T: UsbCdc> Terminal<T> {
    /// Whether the terminal has been initialised.
    pub closed spec fn initialized_spec(&self) -> bool {
        self.initialized
    }

    /// The link underneath.
    pub closed spec fn link(&self) -> T {
        self.usb_cdc
    }

    /// Whether traffic may pass.
    pub open spec fn ready(&self) -> bool {
        self.initialized_spec() && self.link().connected()
    }

    /// A terminal on `usb_cdc`, not yet initialised.
    pub fn new(usb_cdc: T) -> (r: Self)
        ensures
            !r.initialized_spec(),
            r.link() == usb_cdc,
    {
        Terminal { usb_cdc, initialized: false }
    }

    /// Waits for the host to open the link, then marks the terminal ready.
    pub fn init(&mut self) -> (r: Result<(), &'static str>)
        ensures
            r is Ok,
            final(self).ready(),
            final(self).link().sent() == old(self).link().sent(),
    {
        self.wait_connection();
        Ok(())
    }

    /// Sends `message` as one line, ending in CR LF, once the terminal is
    /// ready; a line longer than `MAX_LOG_LINE` bytes is not sent.
    pub fn write_logs(&mut self, message: &str) -> (r: Result<(), &'static str>)
        ensures
            !old(self).ready() ==> r is Err && *final(self) == *old(self),
            log_line(message.spec_bytes()).len() > MAX_LOG_LINE ==> r is Err && *final(self)
                == *old(self),
            r is Ok ==> final(self).link().sent() == old(self).link().sent() + log_line(
                message.spec_bytes(),
            ),
            r is Err ==> final(self).link().sent() == old(self).link().sent(),
    {
        if !self.initialized || !self.usb_cdc.is_connected() {
            return Err("Terminal not initialized or USB not connected");
        }
        proof {
            reveal_strlit("\r\n");
            vstd::string::is_ascii_spec_bytes("\r\n");
            assert("\r\n".spec_bytes() =~= seq![13u8, 10u8]);
        }
        let mut log_msg = text512_new();
        if text512_push_str(&mut log_msg, message).is_ok() && text512_push_str(
            &mut log_msg,
            "\r\n",
        ).is_ok() {
            self.usb_cdc.write(text512_as_str(&log_msg).as_bytes()).map(|_n: usize| ())
        } else {
            Err("Failed to format log message")
        }
    }

    /// Sends `data`, once the terminal is ready.
    pub fn write_bytes(&mut self, data: &[u8]) -> (r: Result<usize, &'static str>)
        ensures
            !old(self).ready() ==> r is Err && *final(self) == *old(self),
            r matches Ok(n) ==> n == data@.len(),
            r is Ok ==> final(self).link().sent() == old(self).link().sent() + data@,
            r is Err ==> final(self).link().sent() == old(self).link().sent(),
    {
        if !self.initialized || !self.usb_cdc.is_connected() {
            return Err("Terminal not initialized or USB not connected");
        }
        self.usb_cdc.write(data)
    }

    /// Receives what is waiting, once the terminal is ready.
    pub fn read_bytes(&mut self, buffer: &mut [u8]) -> (r: Result<usize, &'static str>)
        ensures
            !old(self).ready() ==> r is Err && *final(self) == *old(self),
            final(buffer)@.len() == old(buffer)@.len(),
            r matches Ok(n) ==> n <= old(buffer)@.len(),
            final(self).link().sent() == old(self).link().sent(),
    {
        if !self.initialized || !self.usb_cdc.is_connected() {
            return Err("Terminal not initialized or USB not connected");
        }
        self.usb_cdc.read(buffer)
    }

    /// Whether the terminal is initialised and the link is up.
    pub fn is_connected(&self) -> (r: bool)
        ensures
            r == self.ready(),
    {
        self.initialized && self.usb_cdc.is_connected()
    }

    /// Waits for the host to open the link, then marks the terminal ready.
    pub fn wait_connection(&mut self)
        ensures
            final(self).ready(),
            final(self).link().sent() == old(self).link().sent(),
    {
        self.usb_cdc.wait_connection();
        self.initialized = true;
    }
}

} // verus!
