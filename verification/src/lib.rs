//! Session commands of the memory CLI: what each command shows and what it
//! asks the memory service to do, with the terminal styling of every line.
use vstd::prelude::*;

pub mod decimal;
pub mod style;
pub mod timestamp;
pub mod session;
pub mod laws;

verus! {

} // verus!
