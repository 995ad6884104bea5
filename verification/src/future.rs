//! A pollable wait for a peripheral event.
//!
//! The wait works on any event source that can enable and disable its
//! interrupt and read and clear its sticky event flag.  The waiting task and
//! the interrupt handler meet in a single-slot queue.
//! `poll` is the task side: it acknowledges the event flag, and either
//! completes or publishes its waker and only then lets the source raise its
//! interrupt.  `on_interrupt` is the handler side: it silences the source at
//! once, takes the waker out of the queue and hands it back to be woken.

use vstd::prelude::*;
use crate::ssq::SingleSlotQueue;
use crate::ssq::after_enqueue;
use crate::ssq::after_dequeue;

verus! {

/// The outcome of a poll.
#[derive(Clone, Copy, Debug, PartialEq, Eq, Structural)]
pub enum Poll {
    /// The event was observed.
    Ready,
    /// The event has not happened yet; the waker will be woken when it does.
    Pending,
}

/// What an event source must offer for its event to be awaited: a sticky
/// event flag that can be read and cleared, and interrupt generation that can
/// be switched on and off.  Neither switch touches the other.
pub trait EventSource {
    /// Whether the source may raise its interrupt.
    spec fn interrupt_enabled(&self) -> bool;

    /// Whether the event flag is set.
    spec fn event_pending(&self) -> bool;

    /// Enable interrupt generation.
    fn enable_interrupt(&mut self)
        ensures
            final(self).interrupt_enabled(),
            final(self).event_pending() == old(self).event_pending(),
    ;

    /// Disable interrupt generation.
    fn disable_interrupt(&mut self)
        ensures
            !final(self).interrupt_enabled(),
            final(self).event_pending() == old(self).event_pending(),
    ;

    /// Whether the event flag is set.
    fn is_event_triggered(&self) -> (triggered: bool)
        ensures
            triggered == self.event_pending(),
    ;

    /// Whether the source may raise its interrupt.
    fn is_interrupt_enabled(&self) -> (enabled: bool)
        ensures
            enabled == self.interrupt_enabled(),
    ;

    /// Clear the event flag.
    fn reset_events(&mut self)
        ensures
            !final(self).event_pending(),
            final(self).interrupt_enabled() == old(self).interrupt_enabled(),
    ;
}

/// An event source whose event can be made to happen.
pub trait TriggerEvent: EventSource {
    /// The event happens: the flag is set.  Returns whether the source
    /// raises its interrupt.
    fn trigger_event(&mut self) -> (raised: bool)
        ensures
            final(self).event_pending(),
            final(self).interrupt_enabled() == old(self).interrupt_enabled(),
            raised == old(self).interrupt_enabled(),
    ;
}

/// The event source and the waker slot, as contracts see them.
pub struct PinState<W> {
    /// Whether the source may raise its interrupt.
    pub interrupt_enabled: bool,
    /// Whether the event flag is set.
    pub event: bool,
    /// The waker that waits in the queue, if any.
    pub waker: Option<W>,
}

impl<W> PinState<W> {
    /// The source may raise its interrupt only while a waker waits for it.
    pub open spec fn quiet_unless_awaited(self) -> bool {
        self.interrupt_enabled ==> self.waker is Some
    }
}

/// A poll with `waker`.  The event flag is cleared in any case.  If it was
/// set, the source is silenced and the poll is ready.  If not, the waker is
/// published, interrupt generation is enabled, and the poll is pending.
pub open spec fn poll_spec<W>(state: PinState<W>, waker: W) -> (PinState<W>, Poll) {
    if state.event {
        (PinState { event: false, interrupt_enabled: false, waker: state.waker }, Poll::Ready)
    } else {
        (
            PinState {
                event: false,
                interrupt_enabled: true,
                waker: after_enqueue(state.waker, waker),
            },
            Poll::Pending,
        )
    }
}

/// One step of a poll, as firmware carries it out on the peripheral.
#[derive(Clone, Copy, Debug, PartialEq, Eq, Structural)]
pub enum PollStep {
    /// Clear the event flag.
    ClearEvent,
    /// Stop the source from raising its interrupt.
    DisableInterrupt,
    /// Store the waker in the queue.
    PublishWaker,
    /// Let the source raise its interrupt.
    EnableInterrupt,
}

/// The steps of a poll that found the event flag as `event_was_set` says, in
/// order.  The flag is cleared first in any case, and the interrupt is
/// enabled only after the waker has been published.
pub open spec fn poll_plan(event_was_set: bool) -> Seq<PollStep> {
    if event_was_set {
        seq![PollStep::ClearEvent, PollStep::DisableInterrupt]
    } else {
        seq![PollStep::ClearEvent, PollStep::PublishWaker, PollStep::EnableInterrupt]
    }
}

/// The outcome of a poll that found the event flag as `event_was_set` says.
pub open spec fn poll_outcome(event_was_set: bool) -> Poll {
    if event_was_set {
        Poll::Ready
    } else {
        Poll::Pending
    }
}

/// The source and the slot after one step of a poll with `waker`.
pub open spec fn apply_poll_step<W>(state: PinState<W>, step: PollStep, waker: W) -> PinState<W> {
    match step {
        PollStep::ClearEvent => PinState { event: false, ..state },
        PollStep::DisableInterrupt => PinState { interrupt_enabled: false, ..state },
        PollStep::PublishWaker => PinState { waker: after_enqueue(state.waker, waker), ..state },
        PollStep::EnableInterrupt => PinState { interrupt_enabled: true, ..state },
    }
}

/// The source and the slot after all steps of `plan`, first to last.
pub open spec fn run_poll_plan<W>(state: PinState<W>, plan: Seq<PollStep>, waker: W) -> PinState<W>
    decreases plan.len(),
{
    if plan.len() == 0 {
        state
    } else {
        run_poll_plan(apply_poll_step(state, plan[0], waker), plan.drop_first(), waker)
    }
}

/// The steps and the outcome of a poll that found the event flag as
/// `event_was_set` says.
pub fn poll_steps(event_was_set: bool) -> (plan: (Vec<PollStep>, Poll))
    ensures
        plan.0@ == poll_plan(event_was_set),
        plan.1 == poll_outcome(event_was_set),
{
    let mut steps: Vec<PollStep> = Vec::new();
    steps.push(PollStep::ClearEvent);
    if event_was_set {
        steps.push(PollStep::DisableInterrupt);
        assert(steps@ =~= poll_plan(event_was_set));
        (steps, Poll::Ready)
    } else {
        steps.push(PollStep::PublishWaker);
        steps.push(PollStep::EnableInterrupt);
        assert(steps@ =~= poll_plan(event_was_set));
        (steps, Poll::Pending)
    }
}

/// Running the plan of a poll step by step is the poll.
pub proof fn lemma_run_poll_plan<W>(state: PinState<W>, waker: W)
    ensures
        run_poll_plan(state, poll_plan(state.event), waker) == poll_spec(state, waker).0,
        poll_outcome(state.event) == poll_spec(state, waker).1,
{
    let plan = poll_plan(state.event);
    let after_one = apply_poll_step(state, plan[0], waker);
    let rest_one = plan.drop_first();
    let after_two = apply_poll_step(after_one, rest_one[0], waker);
    let rest_two = rest_one.drop_first();
    if state.event {
        assert(rest_two.len() == 0);
        assert(run_poll_plan(after_two, rest_two, waker) == after_two);
        assert(run_poll_plan(after_one, rest_one, waker) == after_two);
        assert(run_poll_plan(state, plan, waker) == after_two);
    } else {
        let after_three = apply_poll_step(after_two, rest_two[0], waker);
        let rest_three = rest_two.drop_first();
        assert(rest_three.len() == 0);
        assert(run_poll_plan(after_three, rest_three, waker) == after_three);
        assert(run_poll_plan(after_two, rest_two, waker) == after_three);
        assert(run_poll_plan(after_one, rest_one, waker) == after_three);
        assert(run_poll_plan(state, plan, waker) == after_three);
    }
}

/// Every poll clears the event flag before anything else, and a pending poll
/// enables the interrupt strictly after it has published the waker.
pub proof fn lemma_publish_before_enable(event_was_set: bool)
    ensures
        poll_plan(event_was_set)[0] == PollStep::ClearEvent,
        forall|p: int, e: int|
            #![trigger poll_plan(event_was_set)[p], poll_plan(event_was_set)[e]]
            0 <= p < poll_plan(event_was_set).len() && 0 <= e < poll_plan(event_was_set).len()
                && poll_plan(event_was_set)[p] == PollStep::PublishWaker && poll_plan(
                event_was_set,
            )[e] == PollStep::EnableInterrupt ==> p < e,
        forall|e: int|
            0 <= e < poll_plan(event_was_set).len() && #[trigger] poll_plan(event_was_set)[e]
                == PollStep::EnableInterrupt ==> exists|p: int|
                0 <= p < e && #[trigger] poll_plan(event_was_set)[p] == PollStep::PublishWaker,
{
    if !event_was_set {
        assert(poll_plan(event_was_set)[1] == PollStep::PublishWaker);
    }
}

/// One run of the interrupt handler: the source is silenced, the slot is
/// emptied, and the waker that was in it, if any, is to be woken.
pub open spec fn interrupt_spec<W>(state: PinState<W>) -> (PinState<W>, Option<W>) {
    (
        PinState { interrupt_enabled: false, waker: after_dequeue(state.waker).1, ..state },
        after_dequeue(state.waker).0,
    )
}

/// The watched edge arrives: the event flag is set, and the handler runs if
/// the source may raise its interrupt.
pub open spec fn event_spec<W>(state: PinState<W>) -> (PinState<W>, Option<W>) {
    let flagged = PinState { event: true, ..state };
    if state.interrupt_enabled {
        interrupt_spec(flagged)
    } else {
        (flagged, None)
    }
}

/// An event that can be awaited.
pub struct AsyncIrqPin<E: EventSource, W> {
    send_waker: SingleSlotQueue<W>,
    irq: E,
}

impl<E: EventSource, W> View for AsyncIrqPin<E, W> {
    type V = PinState<W>;

    closed spec fn view(&self) -> PinState<W> {
        PinState {
            interrupt_enabled: self.irq.interrupt_enabled(),
            event: self.irq.event_pending(),
            waker: self.send_waker@,
        }
    }
}

impl<E: EventSource, W> AsyncIrqPin<E, W> {
    /// Wait on `irq`, exchanging wakers through `waker_queue`.  The source is
    /// silenced until the first poll.
    pub fn new(waker_queue: SingleSlotQueue<W>, irq: E) -> (pin: Self)
        ensures
            pin@ == (PinState {
                interrupt_enabled: false,
                event: irq.event_pending(),
                waker: waker_queue@,
            }),
            pin@.quiet_unless_awaited(),
    {
        let mut irq = irq;
        irq.disable_interrupt();
        AsyncIrqPin { send_waker: waker_queue, irq }
    }

    /// Poll for the event on behalf of the task that `waker` wakes.
    pub fn poll(&mut self, waker: W) -> (outcome: Poll)
        ensures
            (final(self)@, outcome) == poll_spec(old(self)@, waker),
            outcome == Poll::Ready <==> old(self)@.event,
            final(self)@.quiet_unless_awaited(),
    {
        let triggered: bool = self.irq.is_event_triggered();
        self.irq.reset_events();
        if triggered {
            self.irq.disable_interrupt();
            Poll::Ready
        } else {
            self.send_waker.enqueue(waker);
            self.irq.enable_interrupt();
            Poll::Pending
        }
    }

    /// The interrupt handler of the event.  Returns the waker to wake; none
    /// if no task was waiting, which is tolerated.
    pub fn on_interrupt(&mut self) -> (woken: Option<W>)
        ensures
            (final(self)@, woken) == interrupt_spec(old(self)@),
            woken == old(self)@.waker,
            final(self)@.quiet_unless_awaited(),
    {
        self.irq.disable_interrupt();
        self.send_waker.dequeue()
    }

    /// Give up waiting.  The source is silenced and the waker that may still
    /// wait in the queue is dropped, so that nothing is left enabled with
    /// nobody to wake.  Dropping the value without this call changes neither
    /// the source nor the queue.
    pub fn cancel(self) -> (parts: (SingleSlotQueue<W>, E))
        ensures
            parts.0@ is None,
            !parts.1.interrupt_enabled(),
            parts.1.event_pending() == self@.event,
    {
        let mut irq = self.irq;
        let mut send_waker = self.send_waker;
        irq.disable_interrupt();
        let _ = send_waker.dequeue();
        (send_waker, irq)
    }

    /// Whether the source may raise its interrupt.
    pub fn is_interrupt_enabled(&self) -> (enabled: bool)
        ensures
            enabled == self@.interrupt_enabled,
    {
        self.irq.is_interrupt_enabled()
    }

    /// Whether the event flag is set.
    pub fn is_event_triggered(&self) -> (triggered: bool)
        ensures
            triggered == self@.event,
    {
        self.irq.is_event_triggered()
    }

    /// Whether a waker waits in the queue.
    pub fn has_waker(&self) -> (waiting: bool)
        ensures
            waiting == (self@.waker is Some),
    {
        !self.send_waker.is_empty()
    }
}

impl<E: TriggerEvent, W> AsyncIrqPin<E, W> {
    /// The event happens.  The handler runs if the source may raise its
    /// interrupt; the waker it took is returned.
    pub fn trigger_event(&mut self) -> (woken: Option<W>)
        ensures
            (final(self)@, woken) == event_spec(old(self)@),
            final(self)@.event,
            old(self)@.quiet_unless_awaited() ==> final(self)@.quiet_unless_awaited(),
    {
        let raised: bool = self.irq.trigger_event();
        if raised {
            self.on_interrupt()
        } else {
            None
        }
    }
}

/// No wakeup is lost.  A poll that finds the event flag clear is pending and
/// leaves its waker published with the interrupt enabled; the next event then
/// wakes exactly that waker and silences the source; and the poll after that
/// is ready, with the flag cleared and the source still silent.
pub proof fn lemma_pending_poll_is_woken<W>(state: PinState<W>, waker: W, next_waker: W)
    requires
        !state.event,
    ensures
        poll_spec(state, waker).1 == Poll::Pending,
        poll_spec(state, waker).0.interrupt_enabled,
        poll_spec(state, waker).0.waker == Some(waker),
        event_spec(poll_spec(state, waker).0).1 == Some(waker),
        !event_spec(poll_spec(state, waker).0).0.interrupt_enabled,
        event_spec(poll_spec(state, waker).0).0.waker is None,
        poll_spec(event_spec(poll_spec(state, waker).0).0, next_waker).1 == Poll::Ready,
        !poll_spec(event_spec(poll_spec(state, waker).0).0, next_waker).0.event,
        !poll_spec(event_spec(poll_spec(state, waker).0).0, next_waker).0.interrupt_enabled,
{
}

/// The interrupt of an event source is level-sensitive: while the event flag is
/// set and interrupt generation is enabled, the handler is due.
pub open spec fn interrupt_due<W>(state: PinState<W>) -> bool {
    state.event && state.interrupt_enabled
}

/// The handler runs if it is due.
pub open spec fn serve_if_due<W>(state: PinState<W>) -> (PinState<W>, Option<W>) {
    if interrupt_due(state) {
        interrupt_spec(state)
    } else {
        (state, None)
    }
}

/// The point of a pending poll at which the watched edge arrives.
pub enum Arrival {
    /// After the flag was cleared, before the waker is published.
    BeforePublish,
    /// After the waker was published, before the interrupt is enabled.
    BeforeEnable,
    /// After the poll has returned.
    AfterPoll,
}

/// The wakers woken, in order, when the watched edge arrives at `arrival`
/// during a pending poll with `waker` whose flag check has just been made.
/// After each step the handler runs if it is due.
pub open spec fn woken_during_pending_poll<W>(
    state: PinState<W>,
    waker: W,
    arrival: Arrival,
) -> Seq<Option<W>> {
    let cleared = apply_poll_step(state, PollStep::ClearEvent, waker);
    let first = if arrival is BeforePublish {
        event_spec(cleared)
    } else {
        (cleared, None)
    };
    let published = apply_poll_step(first.0, PollStep::PublishWaker, waker);
    let second = if arrival is BeforeEnable {
        event_spec(published)
    } else {
        (published, None)
    };
    let enabled = serve_if_due(apply_poll_step(second.0, PollStep::EnableInterrupt, waker));
    let third = if arrival is AfterPoll {
        event_spec(enabled.0)
    } else {
        (enabled.0, None)
    };
    seq![first.1, second.1, enabled.1, third.1]
}

/// No wakeup is lost to preemption.  Wherever the watched edge arrives once
/// the flag check of a pending poll has been made, the waker of that poll is
/// woken: because the flag is sticky and the interrupt is enabled only after
/// the waker has been published, the handler finds it.
pub proof fn lemma_no_lost_wakeup<W>(state: PinState<W>, waker: W, arrival: Arrival)
    requires
        !state.event,
    ensures
        exists|i: int|
            0 <= i < 4 && #[trigger] woken_during_pending_poll(state, waker, arrival)[i] == Some(
                waker,
            ),
{
    let woken = woken_during_pending_poll(state, waker, arrival);
    match arrival {
        Arrival::BeforePublish => {
            assert(woken[2] == Some(waker));
        },
        Arrival::BeforeEnable => {
            if state.interrupt_enabled {
                assert(woken[1] == Some(waker));
            } else {
                assert(woken[2] == Some(waker));
            }
        },
        Arrival::AfterPoll => {
            assert(woken[3] == Some(waker));
        },
    }
}

/// Interrupt generation is enabled only while a waker waits: polls, handler
/// runs and events all keep it so.
pub proof fn lemma_quiet_unless_awaited_is_kept<W>(state: PinState<W>, waker: W)
    requires
        state.quiet_unless_awaited(),
    ensures
        poll_spec(state, waker).0.quiet_unless_awaited(),
        interrupt_spec(state).0.quiet_unless_awaited(),
        event_spec(state).0.quiet_unless_awaited(),
{
}

/// A handler run with no waiting task does nothing but silence the source,
/// and wakes nobody.
pub proof fn lemma_spurious_interrupt_is_benign<W>(state: PinState<W>)
    requires
        state.waker is None,
    ensures
        interrupt_spec(state).1 is None,
        interrupt_spec(state).0 == (PinState::<W> {
            interrupt_enabled: false,
            waker: None,
            ..state
        }),
{
}

} // verus!
