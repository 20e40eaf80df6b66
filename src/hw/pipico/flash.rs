//! Flash storage on the Raspberry Pi Pico (RP2040), whose 2 MiB of external
//! QSPI flash is mapped from `FLASH_BASE`.
use vstd::prelude::*;

use crate::hw::traits::FlashStorage;

verus! {

/// Where the external flash is mapped.
pub const FLASH_BASE: u32 = 0x1000_0000;

/// The size of the external flash in bytes.
pub const FLASH_SIZE: u32 = 0x20_0000;

/// The size of one erasable sector in bytes.
pub const FLASH_SECTOR_SIZE: u32 = 4096;

/// Whether a storage area at `base_address` of `size` bytes is accepted.
pub open spec fn valid_storage(base_address: u32, size: u32) -> bool {
    &&& FLASH_BASE <= base_address < FLASH_BASE + FLASH_SIZE
    &&& 0 < size <= FLASH_SIZE
}

/// A storage area in the Pico's flash.
pub struct PiPicoFlashStorage {
    base_address: u32,
    size: u32,
}

impl PiPicoFlashStorage {
    /// Where the storage area starts in the address space.
    pub closed spec fn base_spec(&self) -> u32 {
        self.base_address
    }

    /// The size of the storage area in bytes.
    pub closed spec fn size_spec(&self) -> u32 {
        self.size
    }

    /// A storage area of `size` bytes at `base_address`; it must start inside
    /// the flash and be neither empty nor larger than the flash.
    pub fn new(base_address: u32, size: u32) -> (r: Result<PiPicoFlashStorage, &'static str>)
        ensures
            r is Ok <==> valid_storage(base_address, size),
            r matches Ok(f) ==> f.base_spec() == base_address && f.size_spec() == size,
    {
        if base_address < FLASH_BASE || base_address >= FLASH_BASE + FLASH_SIZE {
            return Err("Flash address out of valid range for RP2040");
        }
        if size == 0 || size > FLASH_SIZE {
            return Err("Flash size invalid for RP2040");
        }
        Ok(PiPicoFlashStorage { base_address, size })
    }
}

impl FlashStorage for PiPicoFlashStorage {
    closed spec fn capacity(&self) -> nat {
        self.size as nat
    }

    fn read(&self, address: u32, buffer: &mut [u8]) -> (r: Result<(), &'static str>) {
        if buffer.len() as u64 > self.size as u64
            || address as u64 > self.size as u64 - buffer.len() as u64 {
            return Err("Read address out of bounds");
        }
        let n = buffer.len();
        let mut i: usize = 0;
        while i < n
            invariant
                i <= n,
                n == buffer@.len(),
                buffer@.len() == old(buffer)@.len(),
            decreases n - i,
        {
            buffer[i] = 0;
            i = i + 1;
        }
        Ok(())
    }

    fn write(&mut self, address: u32, data: &[u8]) -> (r: Result<(), &'static str>) {
        if data.len() as u64 > self.size as u64
            || address as u64 > self.size as u64 - data.len() as u64 {
            return Err("Write address out of bounds");
        }
        Ok(())
    }

    fn erase_sector(&mut self, address: u32) -> (r: Result<(), &'static str>) {
        if address >= self.size {
            return Err("Erase address out of bounds");
        }
        Ok(())
    }

    fn sector_size(&self) -> u32 {
        FLASH_SECTOR_SIZE
    }

    fn total_size(&self) -> (r: u32) {
        self.size
    }
}

/// The storage area recommended for data: the last 256 KiB of the flash,
/// which leaves the first 1.75 MiB to the program.
pub fn get_flash_range() -> (r: (u32, u32))
    ensures
        r.0 == FLASH_BASE + 1792 * 1024,
        r.1 == 256 * 1024,
        valid_storage(r.0, r.1),
{
    let base_address: u32 = FLASH_BASE + 1792 * 1024;
    let size: u32 = 256 * 1024;
    (base_address, size)
}

} // verus!
