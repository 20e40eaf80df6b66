//! Raspberry Pi Pico (RP2040) peripherals that need no hardware access.
use vstd::prelude::*;

pub mod flash;
pub mod gpio;
pub mod led;
pub mod usb;
pub mod usb_defmt_logger;

verus! {

} // verus!
