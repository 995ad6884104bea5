use cortex_m_interrupt::bind_check;
use cortex_m_interrupt::registration::occupation_steps;
use cortex_m_interrupt::registration::OccupationStep;
use cortex_m_interrupt::take_exception;
use cortex_m_interrupt::Take;
use cortex_m_interrupt::TakeException;
use cortex_m_interrupt::TakeNvicInterrupt;
use cortex_m_interrupt::take_nvic_interrupt;
use cortex_m_interrupt::Exception;
use cortex_m_interrupt::ExceptionRegistration;
use cortex_m_interrupt::InterruptError;
use cortex_m_interrupt::InterruptHandle;
use cortex_m_interrupt::InterruptRegistration;
use cortex_m_interrupt::Nvic;
use cortex_m_interrupt::NvicInterruptRegistration;
use cortex_m_interrupt::Priority;
use cortex_m_interrupt::Vector;
use cortex_m_interrupt::VectorRegistry;

const EXTI1: Vector = Vector::Interrupt(7);
const EXTI15_10: Vector = Vector::Interrupt(40);
const SYSTICK: Vector = Vector::Exception(Exception::SysTick);

#[test]
fn second_registration_is_refused() {
    let mut registry: VectorRegistry<u32> = VectorRegistry::new();
    let first = registry.take(EXTI1);
    let second = registry.take(EXTI1);
    assert_eq!(registry.register(first, 1), Ok(()));
    assert_eq!(
        registry.register(second, 2),
        Err(InterruptError::DoubleRegistration)
    );
    // The first binding is the one that stays.
    assert_eq!(registry.dispatch(EXTI1), &[1]);
}

#[test]
fn take_has_no_side_effects() {
    let mut registry: VectorRegistry<u32> = VectorRegistry::new();
    for _ in 0..10 {
        let token = registry.take(EXTI1);
        assert_eq!(token.vector(), EXTI1);
        assert!(!registry.is_registered(EXTI1));
    }
    let token = registry.take(EXTI1);
    assert_eq!(registry.register(token, 9), Ok(()));
    assert!(registry.is_registered(EXTI1));
    for _ in 0..10 {
        let _ = registry.take(EXTI1);
        assert_eq!(registry.dispatch(EXTI1), &[9]);
    }
}

#[test]
fn vectors_are_independent() {
    let mut registry: VectorRegistry<&str> = VectorRegistry::new();
    let a = registry.take(EXTI1);
    let b = registry.take(EXTI15_10);
    let c = registry.take(SYSTICK);
    assert_eq!(registry.register(a, "exti1"), Ok(()));
    assert_eq!(registry.register(b, "exti15_10"), Ok(()));
    assert_eq!(registry.register(c, "systick"), Ok(()));
    assert_eq!(registry.dispatch(EXTI1), &["exti1"]);
    assert_eq!(registry.dispatch(EXTI15_10), &["exti15_10"]);
    assert_eq!(registry.dispatch(SYSTICK), &["systick"]);
    assert!(registry.dispatch(Vector::Interrupt(8)).is_empty());
    assert!(!registry.is_registered(Vector::Exception(Exception::PendSV)));
}

#[test]
fn shared_vector_dispatches_in_declaration_order() {
    let mut registry: VectorRegistry<u32> = VectorRegistry::new();
    let token = registry.take(EXTI15_10);
    assert_eq!(registry.register_shared(token, vec![30, 10, 20]), Ok(()));
    assert_eq!(registry.dispatch(EXTI15_10), &[30, 10, 20]);
    let again = registry.take(EXTI15_10);
    assert_eq!(
        registry.register_shared(again, vec![1]),
        Err(InterruptError::DoubleRegistration)
    );
    assert_eq!(registry.dispatch(EXTI15_10), &[30, 10, 20]);
}

#[test]
fn shared_registration_needs_a_callback() {
    let mut registry: VectorRegistry<u32> = VectorRegistry::new();
    let token = registry.take(EXTI1);
    assert_eq!(
        registry.register_shared(token, Vec::new()),
        Err(InterruptError::NoDrivers)
    );
    assert!(!registry.is_registered(EXTI1));
    let token = registry.take(EXTI1);
    assert_eq!(registry.register(token, 4), Ok(()));
}

#[test]
fn callbacks_can_be_function_pointers() {
    fn on_exti() -> u8 {
        17
    }
    let mut registry: VectorRegistry<fn() -> u8> = VectorRegistry::new();
    let token = registry.take(EXTI1);
    assert!(registry.register(token, on_exti).is_ok());
    let results: Vec<u8> = registry.dispatch(EXTI1).iter().map(|f| f()).collect();
    assert_eq!(results, vec![17]);
}

#[test]
fn handle_registers_through_the_trait() {
    let mut registry: VectorRegistry<u32> = VectorRegistry::new();
    let handle = registry.take(SYSTICK);
    assert_eq!(InterruptHandle::register(handle, &mut registry, 5), Ok(()));
    let handle = registry.take(SYSTICK);
    assert_eq!(
        InterruptHandle::register(handle, &mut registry, 6),
        Err(InterruptError::DoubleRegistration)
    );
    assert_eq!(registry.dispatch(SYSTICK), &[5]);
}

#[test]
fn bind_check_accepts_equal_vectors_only() {
    assert_eq!(bind_check(3, EXTI1, EXTI1), Ok(()));
    assert_eq!(
        bind_check(3, EXTI1, EXTI15_10),
        Err(InterruptError::BindingMismatch {
            driver: 3,
            declared: EXTI1,
            used: EXTI15_10
        })
    );
    assert_eq!(
        bind_check(9, SYSTICK, Vector::Exception(Exception::PendSV)),
        Err(InterruptError::BindingMismatch {
            driver: 9,
            declared: SYSTICK,
            used: Vector::Exception(Exception::PendSV)
        })
    );
}

#[test]
fn take_nvic_interrupt_refuses_exceptions_and_level_zero() {
    assert!(matches!(
        take_nvic_interrupt(SYSTICK, Priority::Logical(4)),
        Err(InterruptError::UnsupportedVectorClass)
    ));
    assert!(matches!(
        take_nvic_interrupt(EXTI1, Priority::Logical(0)),
        Err(InterruptError::PriorityOutOfRange)
    ));
    let registration = take_nvic_interrupt(EXTI15_10, Priority::Logical(5)).unwrap();
    assert_eq!(registration.number(), 40);
    assert_eq!(registration.vector(), EXTI15_10);
    assert_eq!(registration.priority(), Priority::Logical(5));
    let raw = take_nvic_interrupt(EXTI1, Priority::Raw(0)).unwrap();
    assert_eq!(raw.priority(), Priority::Raw(0));
}

#[test]
fn take_exception_refuses_interrupts_and_hard_fault() {
    assert!(matches!(
        take_exception(EXTI1),
        Err(InterruptError::UnsupportedVectorClass)
    ));
    assert!(matches!(
        take_exception(Vector::Exception(Exception::HardFault)),
        Err(InterruptError::ReservedException)
    ));
    let registration = take_exception(SYSTICK).unwrap();
    assert_eq!(registration.exception(), Exception::SysTick);
    assert_eq!(ExceptionRegistration::exception(&registration), Exception::SysTick);
    assert_eq!(registration.vector(), SYSTICK);
}

#[test]
fn occupy_binds_sets_priority_and_unmasks() {
    let mut registry: VectorRegistry<u32> = VectorRegistry::new();
    let mut nvic = Nvic::new(4, 64);
    let registration = take_nvic_interrupt(EXTI15_10, Priority::Logical(5)).unwrap();
    assert_eq!(registration.occupy(&mut registry, &mut nvic, 77), Ok(()));
    assert_eq!(registry.dispatch(EXTI15_10), &[77]);
    assert_eq!(nvic.get_priority(40), 0xB0);
    assert!(nvic.is_enabled(40));
    // Nothing else was touched.
    assert_eq!(nvic.get_priority(39), 0);
    assert!(!nvic.is_enabled(39));
}

#[test]
fn occupy_twice_is_a_double_registration() {
    let mut registry: VectorRegistry<u32> = VectorRegistry::new();
    let mut nvic = Nvic::new(4, 64);
    let first = take_nvic_interrupt(EXTI1, Priority::Logical(16)).unwrap();
    let second = take_nvic_interrupt(EXTI1, Priority::Logical(1)).unwrap();
    assert_eq!(first.occupy(&mut registry, &mut nvic, 1), Ok(()));
    assert_eq!(
        second.occupy(&mut registry, &mut nvic, 2),
        Err(InterruptError::DoubleRegistration)
    );
    assert_eq!(registry.dispatch(EXTI1), &[1]);
    assert_eq!(nvic.get_priority(7), 0x00);
    assert!(nvic.is_enabled(7));
}

#[test]
fn occupy_with_priority_out_of_range_changes_nothing() {
    let mut registry: VectorRegistry<u32> = VectorRegistry::new();
    let mut nvic = Nvic::new(3, 64);
    nvic.set_priority(7, 0x60);
    let registration = take_nvic_interrupt(EXTI1, Priority::Logical(9)).unwrap();
    assert_eq!(
        registration.occupy(&mut registry, &mut nvic, 1),
        Err(InterruptError::PriorityOutOfRange)
    );
    assert!(!registry.is_registered(EXTI1));
    assert_eq!(nvic.get_priority(7), 0x60);
    assert!(!nvic.is_enabled(7));
}

#[test]
fn occupy_with_raw_priority_keeps_implemented_bits() {
    let mut registry: VectorRegistry<u32> = VectorRegistry::new();
    let mut nvic = Nvic::new(4, 64);
    let registration = take_nvic_interrupt(EXTI1, Priority::Raw(0b1111_0000)).unwrap();
    assert_eq!(registration.occupy(&mut registry, &mut nvic, 1), Ok(()));
    assert_eq!(nvic.get_priority(7), 0xF0);
    let other = take_nvic_interrupt(Vector::Interrupt(8), Priority::Raw(0x3C)).unwrap();
    assert_eq!(other.occupy(&mut registry, &mut nvic, 2), Ok(()));
    assert_eq!(nvic.get_priority(8), 0x30);
}

#[test]
fn exception_occupy_binds_once() {
    let mut registry: VectorRegistry<u32> = VectorRegistry::new();
    let first = take_exception(SYSTICK).unwrap();
    let second = take_exception(SYSTICK).unwrap();
    assert_eq!(first.occupy(&mut registry, 1), Ok(()));
    assert_eq!(
        second.occupy(&mut registry, 2),
        Err(InterruptError::DoubleRegistration)
    );
    assert_eq!(registry.dispatch(SYSTICK), &[1]);
}

#[test]
fn occupation_steps_store_before_unmask() {
    assert_eq!(
        occupation_steps(40, 0xB0),
        vec![
            OccupationStep::Mask(40),
            OccupationStep::StoreHandler,
            OccupationStep::ReleaseFence,
            OccupationStep::SetPriority(40, 0xB0),
            OccupationStep::Unmask(40),
        ]
    );
}

#[test]
fn take_builds_any_number_of_handles() {
    let mut registry: VectorRegistry<u32> = VectorRegistry::new();
    let request = Take::new(SYSTICK);
    let first = request.build(&registry);
    let second = request.build(&registry);
    assert_eq!(first.vector(), SYSTICK);
    assert_eq!(second.vector(), SYSTICK);
    assert!(!registry.is_registered(SYSTICK));
    assert_eq!(registry.register(second, 2), Ok(()));
    assert_eq!(
        registry.register(first, 1),
        Err(InterruptError::DoubleRegistration)
    );
    assert_eq!(registry.dispatch(SYSTICK), &[2]);
}

#[test]
fn take_exception_request_builds_the_registration() {
    let registration = TakeException::new(Vector::Exception(Exception::PendSV))
        .build()
        .unwrap();
    assert_eq!(registration.exception(), Exception::PendSV);
    assert!(matches!(
        TakeException::new(Vector::Exception(Exception::HardFault)).build(),
        Err(InterruptError::ReservedException)
    ));
    assert!(matches!(
        TakeException::new(Vector::Interrupt(0)).build(),
        Err(InterruptError::UnsupportedVectorClass)
    ));
}

#[test]
fn take_nvic_interrupt_request_builds_logical_or_raw() {
    let request = TakeNvicInterrupt::new(EXTI15_10, 5);
    assert_eq!(request.build(true).unwrap().priority(), Priority::Logical(5));
    assert_eq!(request.build(false).unwrap().priority(), Priority::Raw(5));
    let zero = TakeNvicInterrupt::new(EXTI15_10, 0);
    assert!(matches!(
        zero.build(true),
        Err(InterruptError::PriorityOutOfRange)
    ));
    assert_eq!(zero.build(false).unwrap().priority(), Priority::Raw(0));
    assert!(matches!(
        TakeNvicInterrupt::new(SYSTICK, 5).build(true),
        Err(InterruptError::UnsupportedVectorClass)
    ));
    assert!(matches!(
        TakeNvicInterrupt::new(SYSTICK, 5).build(false),
        Err(InterruptError::UnsupportedVectorClass)
    ));
}
