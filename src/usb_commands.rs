//! Commands received over USB serial, and the replies to them.
use vstd::prelude::*;

pub mod parser;
pub mod responses;
pub mod sensor_commands;
pub mod system_commands;

verus! {

} // verus!
