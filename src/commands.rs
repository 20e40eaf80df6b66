//! Commands typed at the terminal.
use vstd::prelude::*;

pub mod parser;

verus! {

} // verus!
