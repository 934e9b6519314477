//! The decision logic of a minimal init process: it supervises one
//! foreground command, reaps every descendant that terminates, relays
//! control signals to the foreground process group and derives the exit
//! status of the whole run from the foreground command's termination.
use vstd::prelude::*;

pub mod reaper;
pub mod signal;
pub mod status;
pub mod supervisor;

verus! {

} // verus!
