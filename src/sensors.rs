//! Environmental sensor readings.
use vstd::prelude::*;

pub mod traits;

verus! {

} // verus!
