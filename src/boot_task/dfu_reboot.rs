//! The ordered handoff from the running firmware to the ROM bootloader.
use vstd::prelude::*;

use crate::hw::traits::DeviceManagement;
use crate::hw::types::{handoff_sequence, HandoffStep};

verus! {

/// Quiesces the device and transfers control to the ROM bootloader.
///
/// Interrupts are masked first, then the real-time clock and the clock tree
/// are torn down, pending interrupts are cleared, and only then does the jump
/// happen. Teardown is best effort: nothing here can fail or be retried.
pub fn enter_dfu_mode<D: DeviceManagement>(device: &mut D)
    ensures
        final(device).steps() == old(device).steps() + handoff_sequence(),
        final(device).led_available() == old(device).led_available(),
        final(device).usb_available() == old(device).usb_available(),
        final(device).rtc_available() == old(device).rtc_available(),
{
    device.disable_interrupts();
    device.deinitialize_rtc();
    device.deinitialize_clocks();
    device.clear_pending_interrupts();
    device.jump_to_dfu_bootloader();
    assert(device.steps() =~= old(device).steps() + handoff_sequence());
}

/// The handoff as a list of steps, for a caller that performs them itself.
pub fn handoff_steps() -> (r: Vec<HandoffStep>)
    ensures
        r@ == handoff_sequence(),
{
    let mut steps: Vec<HandoffStep> = Vec::new();
    steps.push(HandoffStep::DisableInterrupts);
    steps.push(HandoffStep::DeinitializeRtc);
    steps.push(HandoffStep::DeinitializeClocks);
    steps.push(HandoffStep::ClearPendingInterrupts);
    steps.push(HandoffStep::JumpToBootloader);
    assert(steps@ =~= handoff_sequence());
    steps
}

} // verus!
