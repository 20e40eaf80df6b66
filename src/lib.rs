//! Reset-survivable boot tasks, the bootloader handoff sequence, and the
//! at-most-once ownership of singleton peripherals, with verified contracts.
use vstd::prelude::*;

pub mod backup_domain;
pub mod boot_task;
pub mod commands;
pub mod dfu_reboot;
mod flags;
mod ascii;
pub mod hw;
pub mod radio;
pub mod resource;
pub mod sensors;
pub mod terminal;
pub mod testing;
pub mod text;
pub mod usb;
pub mod usb_commands;

verus! {

} // verus!
