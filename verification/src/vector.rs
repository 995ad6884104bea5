//! Interrupt vectors: the keys under which handlers are bound.

use vstd::prelude::*;

verus! {

/// A core exception of the processor.
#[derive(Clone, Copy, Debug, PartialEq, Eq, Structural)]
pub enum Exception {
    NonMaskableInt,
    HardFault,
    MemoryManagement,
    BusFault,
    UsageFault,
    SecureFault,
    SVCall,
    DebugMonitor,
    PendSV,
    SysTick,
}

/// A hardware entry point: an interrupt line of the controller, by its
/// number, or a core exception.
#[derive(Clone, Copy, Debug, PartialEq, Eq, Structural)]
pub enum Vector {
    Interrupt(u16),
    Exception(Exception),
}

impl Vector {
    /// Whether the vector is a line of the interrupt controller.
    pub fn is_interrupt(&self) -> (yes: bool)
        ensures
            yes == (*self is Interrupt),
    {
        match self {
            Vector::Interrupt(_) => true,
            Vector::Exception(_) => false,
        }
    }

    /// Whether the vector is a core exception.
    pub fn is_exception(&self) -> (yes: bool)
        ensures
            yes == (*self is Exception),
    {
        match self {
            Vector::Interrupt(_) => false,
            Vector::Exception(_) => true,
        }
    }
}

} // verus!
