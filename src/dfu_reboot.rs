//! Where the STM32F4 ROM bootloader lives.
use vstd::prelude::*;

verus! {

/// Start of system memory on the STM32F4, where the ROM bootloader's vector
/// table begins.
pub const DFU_BOOTLOADER_ADDRESS: u32 = 0x1FFF0000;

/// Marker for a bootloader request kept in memory that survives a reset.
pub const DFU_MAGIC_VALUE: u32 = 0xDF00B007;

/// The two vector table entries read before the jump: the address of the
/// bootloader's initial stack pointer, then that of its entry point.
pub fn bootloader_vector_addresses() -> (r: (u32, u32))
    ensures
        r.0 == DFU_BOOTLOADER_ADDRESS,
        r.1 == DFU_BOOTLOADER_ADDRESS + 4,
{
    (DFU_BOOTLOADER_ADDRESS, DFU_BOOTLOADER_ADDRESS + 4)
}

} // verus!
