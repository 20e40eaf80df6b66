//! The layout of the retention-register bank and the boot task kept in it.
use vstd::prelude::*;

verus! {

/// Which retention register holds which piece of state.
pub enum BackupRegister {
    /// The action to perform after the next reset.
    BootTask,
    /// Reserved for a boot counter; nothing reads it yet.
    BootCounter,
}

impl BackupRegister {
    /// The slot number of this register in the bank.
    pub open spec fn slot(self) -> nat {
        match self {
            BackupRegister::BootTask => 0,
            BackupRegister::BootCounter => 1,
        }
    }

    /// The slot number of this register in the bank.
    pub fn index(&self) -> (r: usize)
        ensures
            r == self.slot(),
    {
        match self {
            BackupRegister::BootTask => 0,
            BackupRegister::BootCounter => 1,
        }
    }
}

/// What to do right after the next reset.
#[derive(Debug, Clone, Copy, PartialEq, Eq, Structural)]
pub enum BootTask {
    /// Boot normally.
    NoTask,
    /// Apply a firmware update.
    UpdateFirmware,
    /// Run the system self-test.
    RunSelfTest,
    /// Hand control to the ROM update bootloader.
    DFUReboot,
}

/// The raw value stored for a boot task.
pub open spec fn encode(task: BootTask) -> u32 {
    match task {
        BootTask::NoTask => 0,
        BootTask::UpdateFirmware => 1,
        BootTask::RunSelfTest => 2,
        BootTask::DFUReboot => 3,
    }
}

/// The boot task a raw value stands for: every value without a variant of its
/// own stands for `NoTask`, so a corrupted or never-written slot triggers nothing.
pub open spec fn decode(raw: u32) -> BootTask {
    if raw == 1 {
        BootTask::UpdateFirmware
    } else if raw == 2 {
        BootTask::RunSelfTest
    } else if raw == 3 {
        BootTask::DFUReboot
    } else {
        BootTask::NoTask
    }
}

impl BootTask {
    /// The raw register value that encodes `self`.
    pub fn to_raw(self) -> (r: u32)
        ensures
            r == encode(self),
    {
        match self {
            BootTask::NoTask => 0,
            BootTask::UpdateFirmware => 1,
            BootTask::RunSelfTest => 2,
            BootTask::DFUReboot => 3,
        }
    }

    /// Decodes a raw register value; unknown values become `NoTask`.
    pub fn from_raw(raw: u32) -> (r: BootTask)
        ensures
            r == decode(raw),
    {
        match raw {
            1 => BootTask::UpdateFirmware,
            2 => BootTask::RunSelfTest,
            3 => BootTask::DFUReboot,
            _ => BootTask::NoTask,
        }
    }
}

impl From<u32> for BootTask {
    fn from(value: u32) -> (r: BootTask) {
        BootTask::from_raw(value)
    }
}

impl vstd::std_specs::convert::FromSpecImpl<u32> for BootTask {
    open spec fn obeys_from_spec() -> bool {
        true
    }

    open spec fn from_spec(v: u32) -> BootTask {
        decode(v)
    }
}

/// Decoding is total and fail-safe: exactly the four assigned values name a
/// task of their own, and every other value decodes to `NoTask`.
pub proof fn lemma_decode_total(v: u32)
    ensures
        v > 3 ==> decode(v) == BootTask::NoTask,
        decode(0) == BootTask::NoTask,
        decode(1) == BootTask::UpdateFirmware,
        decode(2) == BootTask::RunSelfTest,
        decode(3) == BootTask::DFUReboot,
{
}

/// Decoding the stored value of a task gives the task back.
pub proof fn lemma_decode_encode(task: BootTask)
    ensures
        decode(encode(task)) == task,
{
}

/// One step of the handoff to the ROM bootloader.
#[derive(Debug, Clone, Copy, PartialEq, Eq, Structural)]
pub enum HandoffStep {
    /// Mask every interrupt source, the periodic tick included.
    DisableInterrupts,
    /// Tear down the real-time clock and retention block, as far as possible.
    DeinitializeRtc,
    /// Return the clock tree to its reset configuration.
    DeinitializeClocks,
    /// Clear every pending interrupt at the interrupt controller.
    ClearPendingInterrupts,
    /// Load the bootloader's stack pointer and jump to its entry point.
    JumpToBootloader,
}

/// The handoff, in the only order in which it may run: each teardown step
/// completes before the next, and the jump comes last.
pub open spec fn handoff_sequence() -> Seq<HandoffStep> {
    seq![
        HandoffStep::DisableInterrupts,
        HandoffStep::DeinitializeRtc,
        HandoffStep::DeinitializeClocks,
        HandoffStep::ClearPendingInterrupts,
        HandoffStep::JumpToBootloader,
    ]
}

/// Why a peripheral could not be claimed.
#[derive(Debug, Clone, Copy, PartialEq, Eq, Structural)]
pub enum ClaimError {
    /// The peripheral was handed out before; it is never handed out twice.
    AlreadyConsumed,
}

impl ClaimError {
    /// A short description of the error.
    pub fn message(&self) -> (r: &'static str)
        ensures
            r@ == "already consumed"@,
    {
        match self {
            ClaimError::AlreadyConsumed => "already consumed",
        }
    }
}

} // verus!
