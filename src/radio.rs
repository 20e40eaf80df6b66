//! The radio packet format.
use vstd::prelude::*;

pub mod protocol;

verus! {

} // verus!
