//! Exclusive, typed access to the boot task kept in the retention registers.
use vstd::prelude::*;

use crate::hw::traits::BackupRegisters;
use crate::hw::types::{decode, encode, BackupRegister, BootTask};

verus! {

/// The bank after the boot task `task` has been stored in it.
pub open spec fn with_task(slots: Seq<u32>, task: BootTask) -> Seq<u32> {
    slots.update(BackupRegister::BootTask.slot() as int, encode(task))
}

/// The boot task that the bank holds.
pub open spec fn stored_task(slots: Seq<u32>) -> BootTask {
    decode(slots[BackupRegister::BootTask.slot() as int])
}

/// The owner of a retention-register bank.
pub struct BackupDomain<B: BackupRegisters> {
    backup_registers: B,
}

impl<B: BackupRegisters> BackupDomain<B> {
    /// The registers of the bank.
    pub closed spec fn slots(&self) -> Seq<u32> {
        self.backup_registers.slots()
    }

    /// The bank that this domain owns.
    pub closed spec fn bank(&self) -> B {
        self.backup_registers
    }

    /// Whether the bank has the slot that holds the boot task.
    pub open spec fn wf(&self) -> bool {
        self.slots().len() > BackupRegister::BootTask.slot()
    }

    /// Takes ownership of an initialised bank.
    pub fn new(backup_registers: B) -> (r: Self)
        ensures
            r.bank() == backup_registers,
            r.slots() == backup_registers.slots(),
    {
        BackupDomain { backup_registers }
    }

    /// The bank itself, for reading.
    pub fn registers(&self) -> (r: &B)
        ensures
            *r == self.bank(),
    {
        &self.backup_registers
    }

    /// Exclusive access to the boot task for as long as the accessor lives.
    pub fn boot_task(&mut self) -> (r: BootTaskAccessor<'_, B>)
        ensures
            *r.domain == *old(self),
            *final(self) == *final(r.domain),
    {
        BootTaskAccessor { domain: self }
    }
}

/// Reads and writes the boot task slot of a borrowed bank.
pub struct BootTaskAccessor<'a, B: BackupRegisters> {
    /// The domain, borrowed exclusively for the accessor's lifetime.
    pub domain: &'a mut BackupDomain<B>,
}

impl<'a, B: BackupRegisters> BootTaskAccessor<'a, B> {
    /// The borrowed domain as it is now.
    pub open spec fn current(&self) -> BackupDomain<B> {
        *self.domain
    }

    /// The registers of the borrowed bank.
    pub open spec fn slots(&self) -> Seq<u32> {
        self.current().slots()
    }

    /// Reads the boot task and clears its slot before returning it, so that a
    /// stored task is handed out at most once.
    pub fn read_and_clear(&mut self) -> (r: BootTask)
        requires
            old(self).current().wf(),
        ensures
            r == stored_task(old(self).slots()),
            final(self).slots() == with_task(old(self).slots(), BootTask::NoTask),
            *final(final(self).domain) == *final(old(self).domain),
    {
        let task_reg = BackupRegister::BootTask.index();
        let raw_value = self.domain.backup_registers.read_register(task_reg);
        self.domain.backup_registers.write_register(task_reg, BootTask::NoTask.to_raw());
        BootTask::from_raw(raw_value)
    }

    /// Stores `task` for the next boot.
    pub fn write(&mut self, task: BootTask)
        requires
            old(self).current().wf(),
        ensures
            final(self).slots() == with_task(old(self).slots(), task),
            *final(final(self).domain) == *final(old(self).domain),
    {
        let task_reg = BackupRegister::BootTask.index();
        self.domain.backup_registers.write_register(task_reg, task.to_raw());
    }
}

/// A bank of retained registers held as plain values, for code that loads
/// the hardware registers, lets the accessor work on them, and stores them
/// back.
pub struct RegisterFile {
    regs: Vec<u32>,
}

impl RegisterFile {
    /// A bank holding `values`, one per register.
    pub fn from_values(values: Vec<u32>) -> (r: RegisterFile)
        ensures
            r.slots() == values@,
    {
        RegisterFile { regs: values }
    }

    /// The value of every register, by index.
    pub fn values(&self) -> (r: &Vec<u32>)
        ensures
            r@ == self.slots(),
    {
        &self.regs
    }
}

impl BackupRegisters for RegisterFile {
    closed spec fn slots(&self) -> Seq<u32> {
        self.regs@
    }

    fn read_register(&self, index: usize) -> (r: u32) {
        self.regs[index]
    }

    fn write_register(&mut self, index: usize, value: u32) {
        self.regs.set(index, value);
    }

    fn register_count(&self) -> (r: usize) {
        self.regs.len()
    }
}

/// Storing a task and reading it back gives the same task: what `write`
/// leaves in the bank is what `read_and_clear` returns next.
pub proof fn lemma_round_trip(slots: Seq<u32>, task: BootTask)
    requires
        slots.len() > BackupRegister::BootTask.slot(),
    ensures
        stored_task(with_task(slots, task)) == task,
{
}

/// Reading and clearing is idempotent: after `write(task)`, the first
/// `read_and_clear` returns `task` and leaves `NoTask` behind, so a second one
/// returns `NoTask` and changes nothing more.
pub proof fn lemma_clear_idempotent(slots: Seq<u32>, task: BootTask)
    requires
        slots.len() > BackupRegister::BootTask.slot(),
    ensures
        stored_task(with_task(slots, task)) == task,
        stored_task(with_task(with_task(slots, task), BootTask::NoTask)) == BootTask::NoTask,
        with_task(with_task(with_task(slots, task), BootTask::NoTask), BootTask::NoTask)
            == with_task(with_task(slots, task), BootTask::NoTask),
{
    assert(with_task(with_task(with_task(slots, task), BootTask::NoTask), BootTask::NoTask)
        =~= with_task(with_task(slots, task), BootTask::NoTask));
}

/// The boot task slot is the only register that the accessor touches.
pub proof fn lemma_other_slots_untouched(slots: Seq<u32>, task: BootTask, i: int)
    requires
        slots.len() > BackupRegister::BootTask.slot(),
        0 <= i < slots.len(),
        i != BackupRegister::BootTask.slot(),
    ensures
        with_task(slots, task)[i] == slots[i],
        with_task(slots, task).len() == slots.len(),
{
}

} // verus!
