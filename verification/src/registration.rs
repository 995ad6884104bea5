//! Registrations: a vector, taken once, waiting to be occupied by a handler.

use vstd::prelude::*;
use crate::controller::Nvic;
use crate::controller::NvicState;
use crate::controller::implemented_bits;
use crate::nvic::lemma_hardware_priority_bounds;
use crate::error::InterruptError;
use crate::nvic::logical2hw;
use crate::nvic::logical2hw_spec;
use crate::probe::determine_prio_bits;
use crate::registry::ExceptionHandle;
use crate::registry::InterruptHandle;
use crate::registry::VectorRegistry;
use crate::registry::register_spec;
use crate::vector::Exception;
use crate::vector::Vector;

verus! {

/// A registration for one vector.  This trait is implemented by whatever
/// stands for a vector that a driver asks for.
pub trait InterruptRegistration {
    /// The vector of the registration.
    spec fn vector_spec(&self) -> Vector;

    /// The vector of the registration.
    fn vector(&self) -> (vector: Vector)
        ensures
            vector == self.vector_spec(),
    ;
}

/// A registration for an interrupt line of the controller.
pub trait NvicInterruptRegistration: InterruptRegistration {
    /// The interrupt number that this registration is associated with.
    fn number(&self) -> (number: u16)
        ensures
            self.vector_spec() == Vector::Interrupt(number),
    ;
}

/// A registration for an interrupt caused by a core exception.
pub trait ExceptionRegistration: InterruptRegistration {
    /// The exception that this registration is associated with.
    fn exception(&self) -> (exception: Exception)
        ensures
            self.vector_spec() == Vector::Exception(exception),
    ;
}

/// Marks a token type as covering the vector of the driver `Peripheral`.
pub trait InterruptToken<Peripheral> {

}

/// An interrupt occupation: what runs when the vector fires.
pub trait InterruptOccupation {
    fn execute();
}

/// A marker trait that indicates that a registration is already occupied.
pub trait OccupiedRegistration<T: InterruptOccupation>: InterruptRegistration {

}

/// A priority, on the logical scale or as the raw hardware byte.
#[derive(Clone, Copy, Debug, PartialEq, Eq, Structural)]
pub enum Priority {
    /// A level from `1`, least urgent, to `2^N`, most urgent.
    Logical(u8),
    /// The byte for the priority field, taken as it is.
    Raw(u8),
}

/// The byte to write to the priority field for `priority` on a controller
/// with `nvic_prio_bits` implemented bits.  A raw priority is not validated.
pub open spec fn encode_priority_spec(priority: Priority, nvic_prio_bits: u8) -> Result<
    u8,
    InterruptError,
> {
    match priority {
        Priority::Raw(byte) => Ok(byte),
        Priority::Logical(level) => match logical2hw_spec(level, nvic_prio_bits) {
            Some(byte) => Ok(byte),
            None => Err(InterruptError::PriorityOutOfRange),
        },
    }
}

/// The byte to write to the priority field for `priority`.
pub fn encode_priority(priority: Priority, nvic_prio_bits: u8) -> (byte: Result<u8, InterruptError>)
    requires
        nvic_prio_bits <= 8,
    ensures
        byte == encode_priority_spec(priority, nvic_prio_bits),
{
    match priority {
        Priority::Raw(byte) => Ok(byte),
        Priority::Logical(level) => match logical2hw(level, nvic_prio_bits) {
            Some(byte) => Ok(byte),
            None => Err(InterruptError::PriorityOutOfRange),
        },
    }
}

/// The byte of a logical priority has no bit outside the implemented ones:
/// the priority field stores it whole.
pub proof fn lemma_logical_priority_is_stored_whole(logical: u8, nvic_prio_bits: u8)
    requires
        nvic_prio_bits <= 8,
        logical2hw_spec(logical, nvic_prio_bits) is Some,
    ensures
        implemented_bits(logical2hw_spec(logical, nvic_prio_bits).unwrap(), nvic_prio_bits as nat)
            == logical2hw_spec(logical, nvic_prio_bits).unwrap(),
{
    lemma_hardware_priority_bounds(logical as int, nvic_prio_bits as nat);
}

/// One step of occupying an interrupt line.
#[derive(Clone, Copy, Debug, PartialEq, Eq, Structural)]
pub enum OccupationStep {
    /// Mask the line at the controller.
    Mask(u16),
    /// Write the callback into the handler slot.
    StoreHandler,
    /// Make the write visible before anything that follows.
    ReleaseFence,
    /// Write the byte to the priority field of the line.
    SetPriority(u16, u8),
    /// Unmask the line at the controller.
    Unmask(u16),
}

/// The steps that occupy line `number` at hardware priority `byte`, in
/// order: the handler is stored while the line is masked, and a release
/// fence stands between the store and the unmasking.
pub open spec fn occupation_plan(number: u16, byte: u8) -> Seq<OccupationStep> {
    seq![
        OccupationStep::Mask(number),
        OccupationStep::StoreHandler,
        OccupationStep::ReleaseFence,
        OccupationStep::SetPriority(number, byte),
        OccupationStep::Unmask(number),
    ]
}

/// The controller after one step.
pub open spec fn apply_step(state: NvicState, step: OccupationStep) -> NvicState {
    match step {
        OccupationStep::Mask(number) => state.with_enabled(number, false),
        OccupationStep::SetPriority(number, byte) => state.with_priority(number, byte),
        OccupationStep::Unmask(number) => state.with_enabled(number, true),
        OccupationStep::StoreHandler => state,
        OccupationStep::ReleaseFence => state,
    }
}

/// The controller after all steps of `plan`, first to last.
pub open spec fn run_plan(state: NvicState, plan: Seq<OccupationStep>) -> NvicState
    decreases plan.len(),
{
    if plan.len() == 0 {
        state
    } else {
        run_plan(apply_step(state, plan[0]), plan.drop_first())
    }
}

/// The steps that occupy line `number` at hardware priority `byte`.
pub fn occupation_steps(number: u16, byte: u8) -> (steps: Vec<OccupationStep>)
    ensures
        steps@ == occupation_plan(number, byte),
{
    let mut steps: Vec<OccupationStep> = Vec::new();
    steps.push(OccupationStep::Mask(number));
    steps.push(OccupationStep::StoreHandler);
    steps.push(OccupationStep::ReleaseFence);
    steps.push(OccupationStep::SetPriority(number, byte));
    steps.push(OccupationStep::Unmask(number));
    assert(steps@ =~= occupation_plan(number, byte));
    steps
}

/// The handler slot is written before the line is unmasked, with a release
/// fence in between, and the line is masked before the write.
pub proof fn lemma_store_fence_unmask_order(number: u16, byte: u8)
    ensures
        occupation_plan(number, byte).len() == 5,
        forall|m: int, s: int, f: int, u: int|
            #![trigger occupation_plan(number, byte)[m], occupation_plan(number, byte)[s], occupation_plan(number, byte)[f], occupation_plan(number, byte)[u]]
            0 <= m < 5 && 0 <= s < 5 && 0 <= f < 5 && 0 <= u < 5 && occupation_plan(
                number,
                byte,
            )[m] is Mask && occupation_plan(number, byte)[s] is StoreHandler && occupation_plan(
                number,
                byte,
            )[f] is ReleaseFence && occupation_plan(number, byte)[u] is Unmask ==> m < s < f < u,
{
}

/// The controller once line `number` is occupied at hardware priority
/// `byte`: the line is unmasked and holds the implemented bits of the byte;
/// nothing else has changed.
pub open spec fn occupied(state: NvicState, number: u16, byte: u8) -> NvicState {
    state.with_enabled(number, false).with_priority(number, byte).with_enabled(number, true)
}

/// Running the plan step by step occupies the line.
pub proof fn lemma_run_occupation_plan(state: NvicState, number: u16, byte: u8)
    ensures
        run_plan(state, occupation_plan(number, byte)) == occupied(state, number, byte),
{
    let plan = occupation_plan(number, byte);
    let after_one = apply_step(state, plan[0]);
    let rest_one = plan.drop_first();
    let after_two = apply_step(after_one, rest_one[0]);
    let rest_two = rest_one.drop_first();
    let after_three = apply_step(after_two, rest_two[0]);
    let rest_three = rest_two.drop_first();
    let after_four = apply_step(after_three, rest_three[0]);
    let rest_four = rest_three.drop_first();
    let after_five = apply_step(after_four, rest_four[0]);
    let rest_five = rest_four.drop_first();
    assert(rest_five.len() == 0);
    assert(run_plan(after_five, rest_five) == after_five);
    assert(run_plan(after_four, rest_four) == after_five);
    assert(run_plan(after_three, rest_three) == after_five);
    assert(run_plan(after_two, rest_two) == after_five);
    assert(run_plan(after_one, rest_one) == after_five);
    assert(run_plan(state, plan) == after_five);
}

/// The width that probing line `number` reveals: the implemented bits, or
/// nothing on a line that the controller does not implement.
pub open spec fn probed_width(state: NvicState, number: u16) -> u8 {
    if number < state.priorities.len() {
        state.width as u8
    } else {
        0
    }
}

/// The bindings and the controller after an attempt to occupy line `number`
/// at `priority` with `callback`, and the outcome of the attempt.  A refused
/// attempt changes nothing.
pub open spec fn occupy_spec<H>(
    bindings: Map<Vector, Seq<H>>,
    state: NvicState,
    number: u16,
    priority: Priority,
    callback: H,
) -> (Map<Vector, Seq<H>>, NvicState, Result<(), InterruptError>) {
    if bindings.dom().contains(Vector::Interrupt(number)) {
        (bindings, state, Err(InterruptError::DoubleRegistration))
    } else {
        match encode_priority_spec(priority, probed_width(state, number)) {
            Err(e) => (bindings, state, Err(e)),
            Ok(byte) => (
                register_spec(bindings, Vector::Interrupt(number), seq![callback]).0,
                occupied(state, number, byte),
                Ok(()),
            ),
        }
    }
}

/// Whether every line that is unmasked at the controller has its handler.
pub open spec fn unmasked_lines_are_bound<H>(
    bindings: Map<Vector, Seq<H>>,
    state: NvicState,
) -> bool {
    forall|number: u16| #[trigger]
        state.is_enabled(number) ==> bindings.dom().contains(Vector::Interrupt(number))
}

/// No line is ever unmasked without a handler: if every unmasked line had its
/// handler before an attempt to occupy a line, every unmasked line has it
/// afterwards, whatever the outcome.
pub proof fn lemma_occupy_keeps_unmasked_lines_bound<H>(
    bindings: Map<Vector, Seq<H>>,
    state: NvicState,
    number: u16,
    priority: Priority,
    callback: H,
)
    requires
        unmasked_lines_are_bound(bindings, state),
    ensures
        unmasked_lines_are_bound(
            occupy_spec(bindings, state, number, priority, callback).0,
            occupy_spec(bindings, state, number, priority, callback).1,
        ),
{
    let after = occupy_spec(bindings, state, number, priority, callback);
    assert forall|line: u16| #[trigger] after.1.is_enabled(line) implies after.0.dom().contains(
        Vector::Interrupt(line),
    ) by {
        if line != number {
            assert(state.is_enabled(line));
        }
    }
}

/// A registration for an interrupt line, with the priority it will run at.
#[derive(Debug)]
pub struct NvicInterrupt {
    number: u16,
    priority: Priority,
}

/// A registration for a core exception.
#[derive(Debug)]
pub struct CoreException {
    exception: Exception,
}

impl NvicInterrupt {
    /// A registration for line `number` at `priority`.
    pub(crate) fn for_line(number: u16, priority: Priority) -> (registration: Self)
        ensures
            registration.number_spec() == number,
            registration.priority_spec() == priority,
            registration.vector_spec() == Vector::Interrupt(number),
    {
        NvicInterrupt { number, priority }
    }

    /// The number of the line.
    pub closed spec fn number_spec(&self) -> u16 {
        self.number
    }

    /// The priority that the line will run at.
    pub closed spec fn priority_spec(&self) -> Priority {
        self.priority
    }

    /// The priority that the line will run at.
    pub fn priority(&self) -> (priority: Priority)
        ensures
            priority == self.priority_spec(),
    {
        self.priority
    }

    /// Occupy the line with `f`.
    ///
    /// The line is masked, `f` is written into its handler slot, the priority
    /// is set and the line is unmasked.  A line that already has its handler
    /// is refused, and so is a logical priority outside the levels of the
    /// controller; the registry and the controller are then left untouched.
    pub fn occupy<H>(self, registry: &mut VectorRegistry<H>, nvic: &mut Nvic, f: H) -> (outcome:
        Result<(), InterruptError>)
        requires
            old(registry).wf(),
            old(nvic).wf(),
        ensures
            final(registry).wf(),
            final(nvic).wf(),
            (final(registry)@, final(nvic)@, outcome) == occupy_spec(
                old(registry)@,
                old(nvic)@,
                self.number_spec(),
                self.priority_spec(),
                f,
            ),
    {
        let number: u16 = self.number;
        let vector: Vector = Vector::Interrupt(number);
        if registry.is_registered(vector) {
            return Err(InterruptError::DoubleRegistration);
        }
        let prio_bits: u8 = determine_prio_bits(nvic, number);
        let byte: u8 = match encode_priority(self.priority, prio_bits) {
            Ok(byte) => byte,
            Err(e) => {
                return Err(e);
            },
        };
        nvic.mask(number);
        let token = registry.take(vector);
        let stored = registry.register(token, f);
        nvic.set_priority(number, byte);
        nvic.unmask(number);
        stored
    }
}

impl InterruptRegistration for NvicInterrupt {
    closed spec fn vector_spec(&self) -> Vector {
        Vector::Interrupt(self.number)
    }

    fn vector(&self) -> (vector: Vector) {
        Vector::Interrupt(self.number)
    }
}

impl NvicInterruptRegistration for NvicInterrupt {
    fn number(&self) -> (number: u16)
        ensures
            number == self.number_spec(),
    {
        self.number
    }
}

impl CoreException {
    /// A registration for `exception`.
    pub(crate) fn for_exception(exception: Exception) -> (registration: Self)
        ensures
            registration.exception_spec() == exception,
            registration.vector_spec() == Vector::Exception(exception),
            registration.handle_vector() == Vector::Exception(exception),
    {
        CoreException { exception }
    }

    /// The exception of the registration.
    pub closed spec fn exception_spec(&self) -> Exception {
        self.exception
    }

    /// The exception of the registration.
    pub fn exception(&self) -> (exception: Exception)
        ensures
            exception == self.exception_spec(),
    {
        self.exception
    }

    /// Occupy the exception with `f`.  An exception that already has its
    /// handler is refused, and the registry is then left untouched.
    pub fn occupy<H>(self, registry: &mut VectorRegistry<H>, f: H) -> (outcome: Result<
        (),
        InterruptError,
    >)
        requires
            old(registry).wf(),
        ensures
            final(registry).wf(),
            (final(registry)@, outcome) == register_spec(
                old(registry)@,
                Vector::Exception(self.exception_spec()),
                seq![f],
            ),
    {
        let token = registry.take(Vector::Exception(self.exception));
        registry.register(token, f)
    }
}

impl InterruptRegistration for CoreException {
    closed spec fn vector_spec(&self) -> Vector {
        Vector::Exception(self.exception)
    }

    fn vector(&self) -> (vector: Vector) {
        Vector::Exception(self.exception)
    }
}

impl InterruptHandle for CoreException {
    closed spec fn handle_vector(&self) -> Vector {
        Vector::Exception(self.exception)
    }

    fn register<H>(self, registry: &mut VectorRegistry<H>, f: H) -> (outcome: Result<
        (),
        InterruptError,
    >) {
        self.occupy(registry, f)
    }
}

impl ExceptionHandle for CoreException {
    fn exception(&self) -> (exception: Exception) {
        self.exception
    }
}

impl ExceptionRegistration for CoreException {
    fn exception(&self) -> (exception: Exception) {
        self.exception
    }
}

} // verus!
