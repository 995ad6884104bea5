//! The ways in which binding an interrupt can fail.

use vstd::prelude::*;
use crate::vector::Vector;

verus! {

/// Why a binding was refused.
#[derive(Clone, Copy, Debug, PartialEq, Eq, Structural)]
pub enum InterruptError {
    /// A driver declares another vector than the one it is wired to.
    BindingMismatch { driver: u32, declared: Vector, used: Vector },
    /// The vector already has its handler.
    DoubleRegistration,
    /// The logical priority is zero or above the number of levels.
    PriorityOutOfRange,
    /// A core exception was given to the controller-oriented interface, or an
    /// interrupt line to the exception-only interface.
    UnsupportedVectorClass,
    /// The exception cannot be given a handler of the user's.
    ReservedException,
    /// A binding table without a single driver.
    NoDrivers,
}

} // verus!
