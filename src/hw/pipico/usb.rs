//! USB identity of the Raspberry Pi Pico.
use vstd::prelude::*;

verus! {

/// How the device identifies itself on the USB bus.
pub struct UsbDeviceInfo {
    /// Vendor identifier.
    pub vendor_id: u16,
    /// Product identifier.
    pub product_id: u16,
    /// Manufacturer name.
    pub manufacturer: &'static str,
    /// Product name.
    pub product: &'static str,
    /// Serial number.
    pub serial_number: &'static str,
}

} // verus!
