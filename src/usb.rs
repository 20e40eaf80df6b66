//! Serial communication over USB, independent of the board.
use vstd::prelude::*;

verus! {

/// A USB serial (CDC-ACM) link.
pub trait UsbCdc {
    /// Whether the host has opened the link.
    spec fn connected(&self) -> bool;

    /// Every byte sent over the link so far, oldest first.
    spec fn sent(&self) -> Seq<u8>;

    /// Sends `data`; on success, every byte was taken.
    fn write(&mut self, data: &[u8]) -> (r: Result<usize, &'static str>)
        ensures
            r matches Ok(n) ==> n == data@.len(),
            r is Ok ==> final(self).sent() == old(self).sent() + data@,
            r is Err ==> final(self).sent() == old(self).sent(),
    ;

    /// Receives what is waiting, without blocking; on success, the number of
    /// bytes placed at the start of `buffer`.
    fn read(&mut self, buffer: &mut [u8]) -> (r: Result<usize, &'static str>)
        ensures
            final(buffer)@.len() == old(buffer)@.len(),
            r matches Ok(n) ==> n <= old(buffer)@.len(),
            final(self).sent() == old(self).sent(),
    ;

    /// Whether the host has opened the link.
    fn is_connected(&self) -> (r: bool)
        ensures
            r == self.connected(),
    ;

    /// Waits until the host opens the link.
    fn wait_connection(&mut self)
        ensures
            final(self).connected(),
            final(self).sent() == old(self).sent(),
    ;
}

/// The USB serial link of a board without a USB stack: it accepts every
/// write, never has data to read, and counts as connected once used.
pub struct UsbCdcWrapper {
    connected: bool,
    accepted: Ghost<Seq<u8>>,
}

impl UsbCdcWrapper {
    /// A link that the host has not opened yet.
    pub fn new(cdc_class: ()) -> (r: UsbCdcWrapper)
        ensures
            !r.connected(),
            r.sent() == Seq::<u8>::empty(),
    {
        let _ = cdc_class;
        UsbCdcWrapper { connected: false, accepted: Ghost(Seq::empty()) }
    }
}

impl UsbCdc for UsbCdcWrapper {
    closed spec fn connected(&self) -> bool {
        self.connected
    }

    closed spec fn sent(&self) -> Seq<u8> {
        self.accepted@
    }

    fn write(&mut self, data: &[u8]) -> (r: Result<usize, &'static str>) {
        self.connected = true;
        self.accepted = Ghost(self.accepted@ + data@);
        Ok(data.len())
    }

    fn read(&mut self, buffer: &mut [u8]) -> (r: Result<usize, &'static str>) {
        self.connected = true;
        Ok(0)
    }

    fn is_connected(&self) -> (r: bool) {
        self.connected
    }

    fn wait_connection(&mut self) {
        self.connected = true;
    }
}

} // verus!
