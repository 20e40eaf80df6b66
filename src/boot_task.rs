//! Acting on the boot task found at startup.
use vstd::prelude::*;

pub mod dfu_reboot;

use crate::backup_domain::{stored_task, with_task, BackupDomain};
use crate::hw::traits::{BackupRegisters, DeviceManagement};
use crate::hw::types::{handoff_sequence, BootTask, ClaimError, HandoffStep};

verus! {

/// Carries out the boot task read at startup.
///
/// `NoTask`, `UpdateFirmware` and `RunSelfTest` return without touching the
/// device (the last two are hooks for future work); `DFUReboot` runs the whole
/// bootloader handoff, which on hardware does not return.
pub fn execute_boot_task<D: DeviceManagement>(boot_task: BootTask, device: &mut D)
    ensures
        boot_task == BootTask::DFUReboot ==> final(device).steps() == old(device).steps()
            + handoff_sequence(),
        boot_task != BootTask::DFUReboot ==> *final(device) == *old(device),
        final(device).led_available() == old(device).led_available(),
        final(device).usb_available() == old(device).usb_available(),
        final(device).rtc_available() == old(device).rtc_available(),
{
    match boot_task {
        BootTask::NoTask => {},
        BootTask::UpdateFirmware => {},
        BootTask::RunSelfTest => {},
        BootTask::DFUReboot => {
            dfu_reboot::enter_dfu_mode(device);
        },
    }
}

/// The hardware steps that carrying out `boot_task` takes, in order: the
/// whole bootloader handoff for `DFUReboot`, nothing for any other task.
pub fn boot_task_steps(boot_task: BootTask) -> (r: Vec<HandoffStep>)
    ensures
        boot_task == BootTask::DFUReboot ==> r@ == handoff_sequence(),
        boot_task != BootTask::DFUReboot ==> r@ == Seq::<HandoffStep>::empty(),
{
    match boot_task {
        BootTask::DFUReboot => dfu_reboot::handoff_steps(),
        _ => Vec::new(),
    }
}

/// Takes the boot task out of the bank, clearing its slot first, and then
/// carries it out; returns the task that was found.
pub fn process_boot_task<B: BackupRegisters, D: DeviceManagement>(
    domain: &mut BackupDomain<B>,
    device: &mut D,
) -> (r: BootTask)
    requires
        old(domain).wf(),
    ensures
        r == stored_task(old(domain).slots()),
        final(domain).slots() == with_task(old(domain).slots(), BootTask::NoTask),
        r == BootTask::DFUReboot ==> final(device).steps() == old(device).steps()
            + handoff_sequence(),
        r != BootTask::DFUReboot ==> *final(device) == *old(device),
        final(device).led_available() == old(device).led_available(),
        final(device).usb_available() == old(device).usb_available(),
        final(device).rtc_available() == old(device).rtc_available(),
{
    let boot_task = domain.boot_task().read_and_clear();
    execute_boot_task(boot_task, device);
    boot_task
}

/// The first step of bring-up: claims the retention registers, consumes the
/// boot task they hold and carries it out, before any other peripheral is
/// touched. Returns the task and the bank's owner, which the caller keeps to
/// store a task for the next boot; fails if the registers were claimed before.
pub fn init_rtc_and_boot_tasks<D: DeviceManagement>(device: &mut D) -> (r: Result<
    (BootTask, BackupDomain<D::BackupRegisters>),
    ClaimError,
>)
    ensures
        r is Ok <==> old(device).rtc_available(),
        r matches Err(e) ==> e == ClaimError::AlreadyConsumed && final(device).steps()
            == old(device).steps(),
        r matches Ok((task, domain)) ==> {
            &&& stored_task(domain.slots()) == BootTask::NoTask
            &&& domain.wf()
            &&& task == BootTask::DFUReboot ==> final(device).steps() == old(device).steps()
                + handoff_sequence()
            &&& task != BootTask::DFUReboot ==> final(device).steps() == old(device).steps()
        },
        !final(device).rtc_available(),
        final(device).led_available() == old(device).led_available(),
        final(device).usb_available() == old(device).usb_available(),
{
    match device.create_rtc() {
        Ok(backup_registers) => {
            let mut domain = BackupDomain::new(backup_registers);
            let task = process_boot_task(&mut domain, device);
            Ok((task, domain))
        },
        Err(e) => Err(e),
    }
}

} // verus!
