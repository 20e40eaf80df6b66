//! Simulated peripherals of the BlackPill board.
use vstd::prelude::*;

use crate::hw::traits::{BackupRegisters, DeviceManagement, Led};
use crate::hw::types::{ClaimError, HandoffStep};
use crate::resource::Claimable;

verus! {

/// The number of registers in the simulated retention bank.
pub const MOCK_REGISTER_COUNT: usize = 2;

/// A retention-register bank held in memory.
pub struct MockBackupRegisters {
    regs: [u32; MOCK_REGISTER_COUNT],
}

impl MockBackupRegisters {
    /// A bank as found after first power-on: every register is zero.
    pub fn new() -> (r: MockBackupRegisters)
        ensures
            r.slots() == Seq::new(MOCK_REGISTER_COUNT as nat, |i: int| 0u32),
    {
        let r = MockBackupRegisters { regs: [0u32; MOCK_REGISTER_COUNT] };
        assert(r.regs@ =~= Seq::new(MOCK_REGISTER_COUNT as nat, |i: int| 0u32));
        r
    }
}

impl BackupRegisters for MockBackupRegisters {
    closed spec fn slots(&self) -> Seq<u32> {
        self.regs@
    }

    fn read_register(&self, index: usize) -> (r: u32) {
        self.regs[index]
    }

    fn write_register(&mut self, index: usize, value: u32) {
        self.regs[index] = value;
    }

    fn register_count(&self) -> (r: usize) {
        MOCK_REGISTER_COUNT
    }
}

/// An indicator light that only remembers whether it is lit.
pub struct MockLed {
    lit: bool,
}

impl MockLed {
    /// A light that is off.
    pub fn new() -> (r: MockLed)
        ensures
            !r.is_lit_spec(),
    {
        MockLed { lit: false }
    }

    /// Whether the light is on.
    pub closed spec fn is_lit_spec(&self) -> bool {
        self.lit
    }

    /// Whether the light is on.
    pub fn is_lit(&self) -> (r: bool)
        ensures
            r == self.is_lit_spec(),
    {
        self.lit
    }
}

impl Led for MockLed {
    fn on(&mut self) {
        self.lit = true;
    }

    fn off(&mut self) {
        self.lit = false;
    }

    fn toggle(&mut self) {
        self.lit = !self.lit;
    }

    fn set_brightness(&mut self, brightness: u8) {
        self.lit = brightness > 0;
    }
}

/// A simulated board: its peripherals are records that can each be claimed
/// once, and the handoff steps it is asked to perform are logged in order.
pub struct MockDevice {
    led: Claimable<MockLed>,
    usb: Claimable<()>,
    rtc: Claimable<MockBackupRegisters>,
    log: Vec<HandoffStep>,
}

impl MockDevice {
    /// The handoff steps performed so far, oldest first.
    pub fn performed_steps(&self) -> (r: &Vec<HandoffStep>)
        ensures
            r@ == self.steps(),
    {
        &self.log
    }
}

impl DeviceManagement for MockDevice {
    type Led = MockLed;
    type UsbWrapper = ();
    type BackupRegisters = MockBackupRegisters;

    closed spec fn led_available(&self) -> bool {
        self.led@.is_some()
    }

    closed spec fn usb_available(&self) -> bool {
        self.usb@.is_some()
    }

    closed spec fn rtc_available(&self) -> bool {
        self.rtc@.is_some()
    }

    closed spec fn steps(&self) -> Seq<HandoffStep> {
        self.log@
    }

    fn create_led(&mut self) -> (r: Result<MockLed, ClaimError>) {
        self.led.claim()
    }

    fn create_usb(&mut self) -> (r: Result<(), ClaimError>) {
        self.usb.claim()
    }

    fn create_rtc(&mut self) -> (r: Result<MockBackupRegisters, ClaimError>) {
        self.rtc.claim()
    }

    fn disable_interrupts(&mut self) {
        self.log.push(HandoffStep::DisableInterrupts);
    }

    fn deinitialize_rtc(&mut self) {
        self.log.push(HandoffStep::DeinitializeRtc);
    }

    fn deinitialize_clocks(&mut self) {
        self.log.push(HandoffStep::DeinitializeClocks);
    }

    fn clear_pending_interrupts(&mut self) {
        self.log.push(HandoffStep::ClearPendingInterrupts);
    }

    fn jump_to_dfu_bootloader(&mut self) {
        self.log.push(HandoffStep::JumpToBootloader);
    }
}

/// A simulated board with every peripheral available and nothing logged.
pub fn get_hw_mock() -> (r: MockDevice)
    ensures
        r.led_available(),
        r.usb_available(),
        r.rtc_available(),
        r.steps() == Seq::<HandoffStep>::empty(),
{
    MockDevice {
        led: Claimable::new(MockLed::new()),
        usb: Claimable::new(()),
        rtc: Claimable::new(MockBackupRegisters::new()),
        log: Vec::new(),
    }
}

} // verus!
