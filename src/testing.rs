//! In-memory stand-ins for the hardware, for simulation and tests.
use vstd::prelude::*;

pub mod blackpill_f401;

verus! {

} // verus!
