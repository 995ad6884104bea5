//! External-interrupt lines: which vector serves which pin, the register
//! arithmetic of a line, and a line as an event source.
//!
//! The peripheral has a mask register and a pending register, with one bit
//! per line in each.  A line raises its interrupt while both of its bits are
//! set.

use vstd::prelude::*;
use crate::future::AsyncIrqPin;
use crate::future::EventSource;
use crate::future::TriggerEvent;

verus! {

/// The vectors that serve the external-interrupt lines.  The first five
/// lines have a vector each; the others share two.
#[allow(non_camel_case_types)]
#[derive(Clone, Copy, Debug, PartialEq, Eq, Structural)]
pub enum ExtiInterrupt {
    EXTI0,
    EXTI1,
    EXTI2,
    EXTI3,
    EXTI4,
    EXTI9_5,
    EXTI15_10,
}

/// The vector that serves the line of pin `pin`.
pub open spec fn exti_interrupt_spec(pin: u8) -> ExtiInterrupt
    recommends
        pin < 16,
{
    if pin == 0 {
        ExtiInterrupt::EXTI0
    } else if pin == 1 {
        ExtiInterrupt::EXTI1
    } else if pin == 2 {
        ExtiInterrupt::EXTI2
    } else if pin == 3 {
        ExtiInterrupt::EXTI3
    } else if pin == 4 {
        ExtiInterrupt::EXTI4
    } else if pin <= 9 {
        ExtiInterrupt::EXTI9_5
    } else {
        ExtiInterrupt::EXTI15_10
    }
}

/// The vector that serves the line of pin `pin`; none for a pin without a
/// line.
pub fn exti_interrupt(pin: u8) -> (vector: Option<ExtiInterrupt>)
    ensures
        pin < 16 ==> vector == Some(exti_interrupt_spec(pin)),
        pin >= 16 ==> vector is None,
{
    match pin {
        0 => Some(ExtiInterrupt::EXTI0),
        1 => Some(ExtiInterrupt::EXTI1),
        2 => Some(ExtiInterrupt::EXTI2),
        3 => Some(ExtiInterrupt::EXTI3),
        4 => Some(ExtiInterrupt::EXTI4),
        5..=9 => Some(ExtiInterrupt::EXTI9_5),
        10..=15 => Some(ExtiInterrupt::EXTI15_10),
        _ => None,
    }
}

/// Whether the bit of line `line` is set in the register value `bits`.
pub open spec fn line_flag(bits: u32, line: u8) -> bool
    recommends
        line < 32,
{
    bits & (1u32 << line) != 0
}

/// The register value that sets the bit of line `line` and leaves every
/// other line as `imr` has it.
pub fn unmask_line(imr: u32, line: u8) -> (bits: u32)
    requires
        line < 32,
    ensures
        bits == imr | (1u32 << line),
        line_flag(bits, line),
        forall|other: u8| other < 32 && other != line ==> line_flag(bits, other) == line_flag(imr, other),
{
    let bits: u32 = imr | (1u32 << line);
    assert(bits & (1u32 << line) != 0) by (bit_vector)
        requires
            line < 32,
            bits == imr | (1u32 << line),
    ;
    assert forall|other: u8| other < 32 && other != line implies line_flag(bits, other)
        == line_flag(imr, other) by {
        assert((bits & (1u32 << other) != 0) == (imr & (1u32 << other) != 0)) by (bit_vector)
            requires
                line < 32,
                other < 32,
                other != line,
                bits == imr | (1u32 << line),
        ;
    }
    bits
}

/// The register value that clears the bit of line `line` and leaves every
/// other line as `imr` has it.
pub fn mask_line(imr: u32, line: u8) -> (bits: u32)
    requires
        line < 32,
    ensures
        bits == imr & !(1u32 << line),
        !line_flag(bits, line),
        forall|other: u8| other < 32 && other != line ==> line_flag(bits, other) == line_flag(imr, other),
{
    let bits: u32 = imr & !(1u32 << line);
    assert(bits & (1u32 << line) == 0) by (bit_vector)
        requires
            line < 32,
            bits == imr & !(1u32 << line),
    ;
    assert forall|other: u8| other < 32 && other != line implies line_flag(bits, other)
        == line_flag(imr, other) by {
        assert((bits & (1u32 << other) != 0) == (imr & (1u32 << other) != 0)) by (bit_vector)
            requires
                line < 32,
                other < 32,
                other != line,
                bits == imr & !(1u32 << line),
        ;
    }
    bits
}

/// The registers of the peripheral as one line sees them, as contracts see
/// them.
pub struct ExtiState {
    /// The number of the line.
    pub line: u8,
    /// The mask register.
    pub imr: u32,
    /// The pending register.
    pub pr: u32,
}

/// One line of the peripheral, with the values of the mask register and the
/// pending register.
pub struct ExtiLine {
    line: u8,
    imr: u32,
    pr: u32,
}

impl View for ExtiLine {
    type V = ExtiState;

    closed spec fn view(&self) -> ExtiState {
        ExtiState { line: self.line, imr: self.imr, pr: self.pr }
    }
}

impl ExtiLine {
    #[verifier::type_invariant]
    spec fn line_exists(self) -> bool {
        self.line < 16
    }

    /// Line `line`, with the register values `imr` and `pr`; none for a pin
    /// without a line.
    pub fn new(line: u8, imr: u32, pr: u32) -> (exti: Option<Self>)
        ensures
            line < 16 ==> (exti matches Some(l) && l@ == (ExtiState { line, imr, pr })),
            line >= 16 ==> exti is None,
    {
        if line < 16 {
            Some(ExtiLine { line, imr, pr })
        } else {
            None
        }
    }

    /// The number of the line.
    pub fn line(&self) -> (line: u8)
        ensures
            line == self@.line,
            line < 16,
    {
        proof {
            use_type_invariant(self);
        }
        self.line
    }

    /// The value of the mask register.
    pub fn imr(&self) -> (bits: u32)
        ensures
            bits == self@.imr,
    {
        self.imr
    }

    /// The value of the pending register.
    pub fn pr(&self) -> (bits: u32)
        ensures
            bits == self@.pr,
    {
        self.pr
    }

    /// The vector that serves the line.
    pub fn interrupt(&self) -> (vector: ExtiInterrupt)
        ensures
            vector == exti_interrupt_spec(self@.line),
    {
        proof {
            use_type_invariant(self);
        }
        match exti_interrupt(self.line) {
            Some(vector) => vector,
            None => ExtiInterrupt::EXTI15_10,
        }
    }
}

impl EventSource for ExtiLine {
    open spec fn interrupt_enabled(&self) -> bool {
        line_flag(self@.imr, self@.line)
    }

    open spec fn event_pending(&self) -> bool {
        line_flag(self@.pr, self@.line)
    }

    /// Unmask the line.
    fn enable_interrupt(&mut self)
        ensures
            final(self)@ == (ExtiState {
                imr: old(self)@.imr | (1u32 << old(self)@.line),
                ..old(self)@
            }),
    {
        proof {
            use_type_invariant(&*self);
        }
        self.imr = unmask_line(self.imr, self.line);
    }

    /// Mask the line.
    fn disable_interrupt(&mut self)
        ensures
            final(self)@ == (ExtiState {
                imr: old(self)@.imr & !(1u32 << old(self)@.line),
                ..old(self)@
            }),
    {
        proof {
            use_type_invariant(&*self);
        }
        self.imr = mask_line(self.imr, self.line);
    }

    /// Whether the pending bit of the line is set.
    fn is_event_triggered(&self) -> (triggered: bool) {
        proof {
            use_type_invariant(self);
        }
        self.pr & (1u32 << self.line) != 0
    }

    /// Whether the line is unmasked.
    fn is_interrupt_enabled(&self) -> (enabled: bool) {
        proof {
            use_type_invariant(self);
        }
        self.imr & (1u32 << self.line) != 0
    }

    /// Clear the pending bit of the line.
    fn reset_events(&mut self)
        ensures
            final(self)@ == (ExtiState {
                pr: old(self)@.pr & !(1u32 << old(self)@.line),
                ..old(self)@
            }),
    {
        proof {
            use_type_invariant(&*self);
        }
        self.pr = mask_line(self.pr, self.line);
    }
}

/// An external-interrupt line whose event can be awaited.
pub type AsyncExtiPin<W> = AsyncIrqPin<ExtiLine, W>;

impl TriggerEvent for ExtiLine {
    /// The watched edge arrives on the pin: the pending bit of the line is
    /// set.
    fn trigger_event(&mut self) -> (raised: bool)
        ensures
            final(self)@ == (ExtiState {
                pr: old(self)@.pr | (1u32 << old(self)@.line),
                ..old(self)@
            }),
    {
        proof {
            use_type_invariant(&*self);
        }
        self.pr = unmask_line(self.pr, self.line);
        self.imr & (1u32 << self.line) != 0
    }
}

} // verus!
