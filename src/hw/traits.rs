//! Traits through which the platform-independent logic reaches hardware.
use vstd::prelude::*;

use crate::hw::types::{BackupRegister, ClaimError, HandoffStep};

verus! {

/// A bank of 32-bit registers that keep their values across a warm reset.
///
/// Its contents are modelled as `slots()`, one value per register.
pub trait BackupRegisters {
    /// The current value of every register, by index.
    spec fn slots(&self) -> Seq<u32>;

    /// Reads the register at `index`.
    fn read_register(&self, index: usize) -> (r: u32)
        requires
            index < self.slots().len(),
        ensures
            r == self.slots()[index as int],
    ;

    /// Writes `value` to the register at `index`; no other register changes.
    fn write_register(&mut self, index: usize, value: u32)
        requires
            index < old(self).slots().len(),
        ensures
            final(self).slots() == old(self).slots().update(index as int, value),
    ;

    /// The number of registers in the bank.
    fn register_count(&self) -> (r: usize)
        ensures
            r == self.slots().len(),
    ;
}

/// An indicator light.
pub trait Led {
    /// Turns the light on.
    fn on(&mut self);

    /// Turns the light off.
    fn off(&mut self);

    /// Switches the light to the other state.
    fn toggle(&mut self);

    /// Sets the brightness, from 0 (off) to 255 (full).
    fn set_brightness(&mut self, brightness: u8);
}

/// The owner of a board's singleton peripherals and of its low-level
/// control, through which the handoff to the ROM bootloader runs.
///
/// Each peripheral can be claimed once; `steps()` records the handoff steps
/// performed so far.
pub trait DeviceManagement {
    /// The status indicator handed out by `create_led`.
    type Led: Led;
    /// The serial transport handed out by `create_usb`.
    type UsbWrapper;
    /// The retention-register bank handed out by `create_rtc`.
    type BackupRegisters: BackupRegisters;

    /// Whether the status indicator can still be claimed.
    spec fn led_available(&self) -> bool;

    /// Whether the serial transport can still be claimed.
    spec fn usb_available(&self) -> bool;

    /// Whether the retention-register block can still be claimed.
    spec fn rtc_available(&self) -> bool;

    /// The handoff steps performed so far, oldest first.
    spec fn steps(&self) -> Seq<HandoffStep>;

    /// Claims the status indicator; fails once it has been claimed.
    fn create_led(&mut self) -> (r: Result<Self::Led, ClaimError>)
        ensures
            r is Ok <==> old(self).led_available(),
            r is Err ==> r == Result::<Self::Led, ClaimError>::Err(ClaimError::AlreadyConsumed),
            !final(self).led_available(),
            final(self).usb_available() == old(self).usb_available(),
            final(self).rtc_available() == old(self).rtc_available(),
            final(self).steps() == old(self).steps(),
    ;

    /// Claims the serial transport; fails once it has been claimed.
    fn create_usb(&mut self) -> (r: Result<Self::UsbWrapper, ClaimError>)
        ensures
            r is Ok <==> old(self).usb_available(),
            r is Err ==> r == Result::<Self::UsbWrapper, ClaimError>::Err(ClaimError::AlreadyConsumed),
            !final(self).usb_available(),
            final(self).led_available() == old(self).led_available(),
            final(self).rtc_available() == old(self).rtc_available(),
            final(self).steps() == old(self).steps(),
    ;

    /// Claims the retention-register block; fails once it has been claimed.
    fn create_rtc(&mut self) -> (r: Result<Self::BackupRegisters, ClaimError>)
        ensures
            r is Ok <==> old(self).rtc_available(),
            r is Err ==> r == Result::<Self::BackupRegisters, ClaimError>::Err(ClaimError::AlreadyConsumed),
            r matches Ok(bank) ==> bank.slots().len() > BackupRegister::BootTask.slot(),
            !final(self).rtc_available(),
            final(self).led_available() == old(self).led_available(),
            final(self).usb_available() == old(self).usb_available(),
            final(self).steps() == old(self).steps(),
    ;

    /// Masks every interrupt source, the periodic tick included.
    fn disable_interrupts(&mut self)
        ensures
            final(self).steps() == old(self).steps().push(HandoffStep::DisableInterrupts),
            final(self).led_available() == old(self).led_available(),
            final(self).usb_available() == old(self).usb_available(),
            final(self).rtc_available() == old(self).rtc_available(),
    ;

    /// Tears down the real-time clock, as far as the platform allows.
    fn deinitialize_rtc(&mut self)
        ensures
            final(self).steps() == old(self).steps().push(HandoffStep::DeinitializeRtc),
            final(self).led_available() == old(self).led_available(),
            final(self).usb_available() == old(self).usb_available(),
            final(self).rtc_available() == old(self).rtc_available(),
    ;

    /// Returns the clock tree to its reset configuration.
    fn deinitialize_clocks(&mut self)
        ensures
            final(self).steps() == old(self).steps().push(HandoffStep::DeinitializeClocks),
            final(self).led_available() == old(self).led_available(),
            final(self).usb_available() == old(self).usb_available(),
            final(self).rtc_available() == old(self).rtc_available(),
    ;

    /// Clears every pending interrupt at the interrupt controller.
    fn clear_pending_interrupts(&mut self)
        ensures
            final(self).steps() == old(self).steps().push(HandoffStep::ClearPendingInterrupts),
            final(self).led_available() == old(self).led_available(),
            final(self).usb_available() == old(self).usb_available(),
            final(self).rtc_available() == old(self).rtc_available(),
    ;

    /// Transfers control to the ROM bootloader. On hardware this does not
    /// return; a simulation records the jump as its final step.
    fn jump_to_dfu_bootloader(&mut self)
        ensures
            final(self).steps() == old(self).steps().push(HandoffStep::JumpToBootloader),
            final(self).led_available() == old(self).led_available(),
            final(self).usb_available() == old(self).usb_available(),
            final(self).rtc_available() == old(self).rtc_available(),
    ;
}

/// Persistent storage in flash memory, addressed from the start of the
/// storage area.
pub trait FlashStorage {
    /// The size of the storage area in bytes.
    spec fn capacity(&self) -> nat;

    /// Reads `buffer.len()` bytes starting at `address`; a range that does
    /// not fit in the storage area is refused.
    fn read(&self, address: u32, buffer: &mut [u8]) -> (r: Result<(), &'static str>)
        ensures
            address + old(buffer)@.len() > self.capacity() ==> r is Err,
            final(buffer)@.len() == old(buffer)@.len(),
    ;

    /// Writes `data` starting at `address`; a range that does not fit in the
    /// storage area is refused.
    fn write(&mut self, address: u32, data: &[u8]) -> (r: Result<(), &'static str>)
        ensures
            address + data@.len() > old(self).capacity() ==> r is Err,
            final(self).capacity() == old(self).capacity(),
    ;

    /// Erases the sector holding `address`; an address outside the storage
    /// area is refused.
    fn erase_sector(&mut self, address: u32) -> (r: Result<(), &'static str>)
        ensures
            address >= old(self).capacity() ==> r is Err,
            final(self).capacity() == old(self).capacity(),
    ;

    /// The size of one erasable sector in bytes.
    fn sector_size(&self) -> u32;

    /// The size of the storage area in bytes.
    fn total_size(&self) -> (r: u32)
        ensures
            r == self.capacity(),
    ;
}

} // verus!
