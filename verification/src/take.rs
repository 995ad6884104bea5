//! Requests for a vector, and what they build.
//!
//! A request names a vector and, for an interrupt line, a priority.  Building
//! it checks that the vector is of the right class and yields the registration
//! that can then be occupied.

use vstd::prelude::*;
use crate::error::InterruptError;
use crate::registration::CoreException;
use crate::registration::InterruptRegistration;
use crate::registration::NvicInterrupt;
use crate::registration::Priority;
use crate::registry::InterruptHandle;
use crate::registry::RegistrationToken;
use crate::registry::VectorRegistry;
use crate::vector::Exception;
use crate::vector::Vector;

verus! {

/// A request for the handle of a vector of either class.
#[derive(Clone, Copy, Debug)]
pub struct Take {
    irq: Vector,
}

impl Take {
    /// The vector that is asked for.
    pub closed spec fn irq_spec(&self) -> Vector {
        self.irq
    }

    /// A request for the handle of `irq`.
    pub fn new(irq: Vector) -> (request: Self)
        ensures
            request.irq_spec() == irq,
    {
        Take { irq }
    }

    /// The handle of the vector, from `registry`.  Building changes nothing:
    /// a request can be built any number of times.
    pub fn build<H>(&self, registry: &VectorRegistry<H>) -> (handle: RegistrationToken)
        ensures
            handle.vector_spec() == self.irq_spec(),
            handle.handle_vector() == self.irq_spec(),
    {
        registry.take(self.irq)
    }
}

/// A request for a core exception.
#[derive(Clone, Copy, Debug)]
pub struct TakeException {
    exception: Vector,
}

/// What building a request for the exception `vector` yields.
pub open spec fn take_exception_spec(vector: Vector) -> Result<Exception, InterruptError> {
    match vector {
        Vector::Interrupt(_) => Err(InterruptError::UnsupportedVectorClass),
        Vector::Exception(Exception::HardFault) => Err(InterruptError::ReservedException),
        Vector::Exception(exception) => Ok(exception),
    }
}

impl TakeException {
    /// The vector that is asked for.
    pub closed spec fn exception_spec(&self) -> Vector {
        self.exception
    }

    /// A request for the exception `exception`.
    pub fn new(exception: Vector) -> (request: Self)
        ensures
            request.exception_spec() == exception,
    {
        TakeException { exception }
    }

    /// The registration of the exception.
    ///
    /// An interrupt line is refused, and so is the hard fault, which cannot
    /// be given a handler this way.
    pub fn build(&self) -> (registration: Result<CoreException, InterruptError>)
        ensures
            match take_exception_spec(self.exception_spec()) {
                Ok(exception) => registration matches Ok(taken) && taken.exception_spec()
                    == exception && taken.vector_spec() == self.exception_spec()
                    && taken.handle_vector() == self.exception_spec(),
                Err(e) => registration matches Err(refusal) && refusal == e,
            },
    {
        match self.exception {
            Vector::Interrupt(_) => Err(InterruptError::UnsupportedVectorClass),
            Vector::Exception(exception) => {
                match exception {
                    Exception::HardFault => Err(InterruptError::ReservedException),
                    _ => Ok(CoreException::for_exception(exception)),
                }
            },
        }
    }
}

/// A request for an interrupt line of the controller, with its priority.
#[derive(Clone, Copy, Debug)]
pub struct TakeNvicInterrupt {
    interrupt_path: Vector,
    priority: u8,
}

/// The priority that a request with the number `priority` asks for.
pub open spec fn requested_priority(priority: u8, use_logical_priority: bool) -> Priority {
    if use_logical_priority {
        Priority::Logical(priority)
    } else {
        Priority::Raw(priority)
    }
}

/// What building a request for the line `vector` at `priority` yields.
pub open spec fn take_nvic_interrupt_spec(vector: Vector, priority: Priority) -> Result<
    (u16, Priority),
    InterruptError,
> {
    match vector {
        Vector::Exception(_) => Err(InterruptError::UnsupportedVectorClass),
        Vector::Interrupt(number) => if priority == Priority::Logical(0) {
            Err(InterruptError::PriorityOutOfRange)
        } else {
            Ok((number, priority))
        },
    }
}

impl TakeNvicInterrupt {
    /// The vector that is asked for.
    pub closed spec fn interrupt_spec(&self) -> Vector {
        self.interrupt_path
    }

    /// The number that stands for the priority.
    pub closed spec fn priority_spec(&self) -> u8 {
        self.priority
    }

    /// A request for the line `interrupt_path` at `priority`.
    pub fn new(interrupt_path: Vector, priority: u8) -> (request: Self)
        ensures
            request.interrupt_spec() == interrupt_path,
            request.priority_spec() == priority,
    {
        TakeNvicInterrupt { interrupt_path, priority }
    }

    /// The registration of the line.  The priority is a logical level if
    /// `use_logical_priority` says so, else the raw byte for the field.
    ///
    /// A core exception is refused, and so is the logical priority zero.
    /// Whether a logical priority is within the levels of the controller is
    /// found out when the registration is occupied.  A raw priority is not
    /// validated at all.
    pub fn build(&self, use_logical_priority: bool) -> (registration: Result<
        NvicInterrupt,
        InterruptError,
    >)
        ensures
            match take_nvic_interrupt_spec(
                self.interrupt_spec(),
                requested_priority(self.priority_spec(), use_logical_priority),
            ) {
                Ok((number, priority)) => registration matches Ok(taken) && taken.number_spec()
                    == number && taken.priority_spec() == priority && taken.vector_spec()
                    == self.interrupt_spec(),
                Err(e) => registration matches Err(refusal) && refusal == e,
            },
    {
        match self.interrupt_path {
            Vector::Exception(_) => Err(InterruptError::UnsupportedVectorClass),
            Vector::Interrupt(number) => {
                if use_logical_priority {
                    if self.priority == 0 {
                        return Err(InterruptError::PriorityOutOfRange);
                    }
                    Ok(NvicInterrupt::for_line(number, Priority::Logical(self.priority)))
                } else {
                    Ok(NvicInterrupt::for_line(number, Priority::Raw(self.priority)))
                }
            },
        }
    }
}

/// Take a registration for the interrupt line `vector`, to run at
/// `priority`.
///
/// A core exception is refused, and so is the logical priority zero.
pub fn take_nvic_interrupt(vector: Vector, priority: Priority) -> (registration: Result<
    NvicInterrupt,
    InterruptError,
>)
    ensures
        match take_nvic_interrupt_spec(vector, priority) {
            Ok((number, prio)) => registration matches Ok(taken) && taken.number_spec() == number
                && taken.priority_spec() == prio && taken.vector_spec() == vector,
            Err(e) => registration matches Err(refusal) && refusal == e,
        },
{
    match priority {
        Priority::Logical(level) => TakeNvicInterrupt::new(vector, level).build(true),
        Priority::Raw(byte) => TakeNvicInterrupt::new(vector, byte).build(false),
    }
}

/// Take a registration for the core exception `vector`.
///
/// An interrupt line is refused, and so is the hard fault.
pub fn take_exception(vector: Vector) -> (registration: Result<CoreException, InterruptError>)
    ensures
        match take_exception_spec(vector) {
            Ok(exception) => registration matches Ok(taken) && taken.exception_spec() == exception
                && taken.vector_spec() == vector && taken.handle_vector() == vector,
            Err(e) => registration matches Err(refusal) && refusal == e,
        },
{
    TakeException::new(vector).build()
}

} // verus!
