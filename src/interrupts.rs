//! Interrupt control values.
use vstd::prelude::*;

verus! {

/// The value of the master interrupt enable flag.
#[derive(Copy, Clone, PartialEq, Eq, Debug, Structural)]
pub enum MasterEnable {
    InterruptsDisabled,
    InterruptsEnabled,
}

} // verus!
