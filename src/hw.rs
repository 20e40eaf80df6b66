//! Hardware-facing types and traits shared by every platform.
use vstd::prelude::*;

pub mod pipico;
pub mod traits;
pub mod types;

pub use types::{BackupRegister, BootTask};

verus! {

} // verus!
