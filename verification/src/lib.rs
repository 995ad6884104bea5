//! Verified core of an interrupt-binding toolkit for Cortex-M class firmware.
//!
//! The crate models three tightly coupled pieces and proves their contracts:
//! the one-time binding of callbacks to interrupt vectors, the probing of the
//! priority width and the mapping from logical priorities to the hardware
//! priority byte, and the single-slot bridge through which a suspended task
//! hands its waker to an interrupt handler.
//!
//! Nothing here touches a register.  The controller and the event channels
//! are models that hold what the hardware holds; firmware mirrors them onto
//! the registers and runs the steps that the library plans.

pub mod controller;
pub mod error;
pub mod exti;
pub mod future;
pub mod gpiote;
pub mod nvic;
pub mod probe;
pub mod register_interrupt;
pub mod registration;
pub mod registry;
pub mod ssq;
pub mod take;
pub mod vector;

pub use controller::Nvic;
pub use error::InterruptError;
pub use future::AsyncIrqPin;
pub use future::EventSource;
pub use future::Poll;
pub use future::TriggerEvent;
pub use gpiote::Channel;
pub use gpiote::Configured;
pub use gpiote::Uninit;
pub use nvic::logical2hw;
pub use probe::determine_prio_bits;
pub use probe::prio_bits_from_readback;
pub use register_interrupt::RegisterInterrupt;
pub use registration::ExceptionRegistration;
pub use registration::InterruptOccupation;
pub use registration::InterruptRegistration;
pub use registration::InterruptToken;
pub use registration::NvicInterruptRegistration;
pub use registration::OccupiedRegistration;
pub use registration::Priority;
pub use registry::bind_check;
pub use registry::ExceptionHandle;
pub use registry::InterruptHandle;
pub use registry::RegistrationToken;
pub use registry::VectorRegistry;
pub use ssq::SingleSlotQueue;
pub use take::take_exception;
pub use take::take_nvic_interrupt;
pub use take::Take;
pub use take::TakeException;
pub use take::TakeNvicInterrupt;
pub use vector::Exception;
pub use vector::Vector;
