//! Event channels of a pin-event peripheral, with owning semantics.
//!
//! A channel watches one input pin.  Its event flag is sticky: an edge on the
//! pin sets it, and it stays set until it is reset.  The channel raises its
//! interrupt while the flag is set and interrupt generation is enabled.

use vstd::prelude::*;
use crate::future::EventSource;
use crate::future::TriggerEvent;

verus! {

/// Uninit state for a channel.
pub struct Uninit;

/// Configured state for a channel.
pub struct Configured;

/// The edge of the input that sets the event flag.
#[derive(Clone, Copy, Debug, PartialEq, Eq, Structural)]
pub enum EventPolarity {
    Disabled,
    HiToLo,
    LoToHi,
    Toggle,
}

/// What a channel holds, as contracts see it.
pub struct ChannelState {
    /// The pin that the channel watches.
    pub pin: u8,
    /// The edge that sets the event flag.
    pub polarity: EventPolarity,
    /// Whether the channel may raise its interrupt.
    pub interrupt_enabled: bool,
    /// The sticky event flag.
    pub event: bool,
}

/// A channel of the peripheral.
pub struct Channel<const CH: usize, T> {
    pin: u8,
    polarity: EventPolarity,
    interrupt_enabled: bool,
    event: bool,
    state: T,
}

impl<const CH: usize, T> View for Channel<CH, T> {
    type V = ChannelState;

    closed spec fn view(&self) -> ChannelState {
        ChannelState {
            pin: self.pin,
            polarity: self.polarity,
            interrupt_enabled: self.interrupt_enabled,
            event: self.event,
        }
    }
}

/// The state in which every channel starts: watching nothing, silent.
pub open spec fn reset_state() -> ChannelState {
    ChannelState { pin: 0, polarity: EventPolarity::Disabled, interrupt_enabled: false, event: false }
}

/// Split the peripheral into its channels.
pub fn new() -> (channels: (
    Channel<0, Uninit>,
    Channel<1, Uninit>,
    Channel<2, Uninit>,
    Channel<3, Uninit>,
    Channel<4, Uninit>,
    Channel<5, Uninit>,
    Channel<6, Uninit>,
    Channel<7, Uninit>,
))
    ensures
        channels.0@ == reset_state(),
        channels.1@ == reset_state(),
        channels.2@ == reset_state(),
        channels.3@ == reset_state(),
        channels.4@ == reset_state(),
        channels.5@ == reset_state(),
        channels.6@ == reset_state(),
        channels.7@ == reset_state(),
{
    (
        Channel::<0, Uninit>::reset(),
        Channel::<1, Uninit>::reset(),
        Channel::<2, Uninit>::reset(),
        Channel::<3, Uninit>::reset(),
        Channel::<4, Uninit>::reset(),
        Channel::<5, Uninit>::reset(),
        Channel::<6, Uninit>::reset(),
        Channel::<7, Uninit>::reset(),
    )
}

impl<const CH: usize> Channel<CH, Uninit> {
    fn reset() -> (channel: Self)
        ensures
            channel@ == reset_state(),
    {
        Channel {
            pin: 0,
            polarity: EventPolarity::Disabled,
            interrupt_enabled: false,
            event: false,
            state: Uninit,
        }
    }

    /// Configure a channel to watch `input_pin` for `trigger_mode`.
    pub fn configure(self, input_pin: u8, trigger_mode: EventPolarity) -> (channel: Channel<
        CH,
        Configured,
    >)
        ensures
            channel@ == (ChannelState { pin: input_pin, polarity: trigger_mode, ..self@ }),
    {
        Channel {
            pin: input_pin,
            polarity: trigger_mode,
            interrupt_enabled: self.interrupt_enabled,
            event: self.event,
            state: Configured,
        }
    }
}

impl<const CH: usize> Channel<CH, Configured> {
    /// Enable interrupts from this channel.
    pub fn enable_interrupt(&mut self)
        ensures
            final(self)@ == (ChannelState { interrupt_enabled: true, ..old(self)@ }),
    {
        self.interrupt_enabled = true;
    }

    /// Disable interrupts from this channel.
    pub fn disable_interrupt(&mut self)
        ensures
            final(self)@ == (ChannelState { interrupt_enabled: false, ..old(self)@ }),
    {
        self.interrupt_enabled = false;
    }

    /// Checks if the event is triggered on this channel.
    pub fn is_event_triggered(&self) -> (triggered: bool)
        ensures
            triggered == self@.event,
    {
        self.event
    }

    /// Whether the channel may raise its interrupt.
    pub fn is_interrupt_enabled(&self) -> (enabled: bool)
        ensures
            enabled == self@.interrupt_enabled,
    {
        self.interrupt_enabled
    }

    /// Resets the event on this channel.
    pub fn reset_events(&mut self)
        ensures
            final(self)@ == (ChannelState { event: false, ..old(self)@ }),
    {
        self.event = false;
    }

    /// The watched edge arrives on the pin: the event flag is set.  Returns
    /// whether the channel raises its interrupt.
    pub fn trigger_event(&mut self) -> (raised: bool)
        ensures
            final(self)@ == (ChannelState { event: true, ..old(self)@ }),
            raised == old(self)@.interrupt_enabled,
    {
        self.event = true;
        self.interrupt_enabled
    }
}

impl<const CH: usize> EventSource for Channel<CH, Configured> {
    open spec fn interrupt_enabled(&self) -> bool {
        self@.interrupt_enabled
    }

    open spec fn event_pending(&self) -> bool {
        self@.event
    }

    fn enable_interrupt(&mut self)
        ensures
            final(self)@ == (ChannelState { interrupt_enabled: true, ..old(self)@ }),
    {
        Channel::<CH, Configured>::enable_interrupt(self)
    }

    fn disable_interrupt(&mut self)
        ensures
            final(self)@ == (ChannelState { interrupt_enabled: false, ..old(self)@ }),
    {
        Channel::<CH, Configured>::disable_interrupt(self)
    }

    fn is_event_triggered(&self) -> (triggered: bool) {
        Channel::<CH, Configured>::is_event_triggered(self)
    }

    fn is_interrupt_enabled(&self) -> (enabled: bool) {
        Channel::<CH, Configured>::is_interrupt_enabled(self)
    }

    fn reset_events(&mut self)
        ensures
            final(self)@ == (ChannelState { event: false, ..old(self)@ }),
    {
        Channel::<CH, Configured>::reset_events(self)
    }
}

impl<const CH: usize> TriggerEvent for Channel<CH, Configured> {
    fn trigger_event(&mut self) -> (raised: bool)
        ensures
            final(self)@ == (ChannelState { event: true, ..old(self)@ }),
    {
        Channel::<CH, Configured>::trigger_event(self)
    }
}

} // verus!
