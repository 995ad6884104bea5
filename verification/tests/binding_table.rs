use cortex_m_interrupt::exti::exti_interrupt;
use cortex_m_interrupt::exti::mask_line;
use cortex_m_interrupt::exti::unmask_line;
use cortex_m_interrupt::exti::ExtiInterrupt;
use cortex_m_interrupt::register_interrupt::check_bindings;
use cortex_m_interrupt::register_interrupt::into_callbacks;
use cortex_m_interrupt::register_interrupt::Binding;
use cortex_m_interrupt::register_interrupt::Driver;
use cortex_m_interrupt::Exception;
use cortex_m_interrupt::InterruptError;
use cortex_m_interrupt::InterruptRegistration;
use cortex_m_interrupt::RegisterInterrupt;
use cortex_m_interrupt::Vector;
use cortex_m_interrupt::VectorRegistry;

const TIM1_BRK: Vector = Vector::Interrupt(24);
const TIM1_UP: Vector = Vector::Interrupt(25);
const TIM1_TRG_COM: Vector = Vector::Interrupt(26);
const TIM1_CC: Vector = Vector::Interrupt(27);
const UART2: Vector = Vector::Interrupt(38);
const SYSTICK: Vector = Vector::Exception(Exception::SysTick);

fn line(interrupt: Vector, id: u32, declared: Vector) -> Binding<&'static str> {
    let name = match id {
        1 => "brk",
        2 => "cc",
        3 => "trg",
        4 => "com",
        5 => "up",
        6 => "systick",
        _ => "other",
    };
    Binding {
        interrupt,
        driver: Driver {
            id,
            vector: declared,
            on_interrupt: name,
        },
    }
}

fn mega_timer() -> Vec<Binding<&'static str>> {
    vec![
        line(TIM1_BRK, 1, TIM1_BRK),
        line(TIM1_CC, 2, TIM1_CC),
        line(TIM1_TRG_COM, 3, TIM1_TRG_COM),
        line(TIM1_TRG_COM, 4, TIM1_TRG_COM),
        line(TIM1_UP, 5, TIM1_UP),
    ]
}

fn ids(drivers: &[Driver<&'static str>]) -> Vec<u32> {
    drivers.iter().map(|d| d.id).collect()
}

#[test]
fn empty_table_is_refused() {
    let built: Result<RegisterInterrupt<u8>, InterruptError> = RegisterInterrupt::new(Vec::new());
    assert!(matches!(built, Err(InterruptError::NoDrivers)));
}

#[test]
fn mismatched_driver_is_refused_and_named() {
    let bindings = vec![
        line(TIM1_BRK, 1, TIM1_BRK),
        line(TIM1_CC, 7, UART2),
        line(TIM1_UP, 8, TIM1_CC),
    ];
    assert_eq!(
        check_bindings(&bindings),
        Err(InterruptError::BindingMismatch {
            driver: 7,
            declared: UART2,
            used: TIM1_CC
        })
    );
    match RegisterInterrupt::new(bindings) {
        Err(e) => assert_eq!(
            e,
            InterruptError::BindingMismatch {
                driver: 7,
                declared: UART2,
                used: TIM1_CC
            }
        ),
        Ok(_) => panic!("a mismatched binding was accepted"),
    }
}

#[test]
fn drivers_are_grouped_by_vector_in_listed_order() {
    let table = RegisterInterrupt::new(mega_timer()).ok().unwrap();
    assert_eq!(ids(table.hal_drivers(TIM1_BRK)), vec![1]);
    assert_eq!(ids(table.hal_drivers(TIM1_CC)), vec![2]);
    assert_eq!(ids(table.hal_drivers(TIM1_TRG_COM)), vec![3, 4]);
    assert_eq!(ids(table.hal_drivers(TIM1_UP)), vec![5]);
    assert!(table.hal_drivers(UART2).is_empty());
}

#[test]
fn interleaved_lines_keep_their_order_per_vector() {
    let bindings = vec![
        line(TIM1_UP, 10, TIM1_UP),
        line(TIM1_CC, 11, TIM1_CC),
        line(TIM1_UP, 12, TIM1_UP),
        line(TIM1_CC, 13, TIM1_CC),
        line(TIM1_UP, 14, TIM1_UP),
    ];
    let table = RegisterInterrupt::new(bindings).ok().unwrap();
    assert_eq!(ids(table.hal_drivers(TIM1_UP)), vec![10, 12, 14]);
    assert_eq!(ids(table.hal_drivers(TIM1_CC)), vec![11, 13]);
}

#[test]
fn token_covers_listed_drivers_only() {
    let table = RegisterInterrupt::new(mega_timer()).ok().unwrap();
    for id in 1..=5 {
        assert!(table.grants(id));
    }
    assert!(!table.grants(0));
    assert!(!table.grants(6));
}

#[test]
fn install_binds_every_vector() {
    let mut registry: VectorRegistry<&'static str> = VectorRegistry::new();
    let table = RegisterInterrupt::new(mega_timer()).ok().unwrap();
    assert_eq!(table.install(&mut registry), Ok(()));
    assert_eq!(registry.dispatch(TIM1_BRK), &["brk"]);
    assert_eq!(registry.dispatch(TIM1_CC), &["cc"]);
    assert_eq!(registry.dispatch(TIM1_TRG_COM), &["trg", "com"]);
    assert_eq!(registry.dispatch(TIM1_UP), &["up"]);
    assert!(registry.dispatch(UART2).is_empty());
}

#[test]
fn install_on_a_bound_vector_binds_nothing() {
    let mut registry: VectorRegistry<&'static str> = VectorRegistry::new();
    let token = registry.take(TIM1_UP);
    assert_eq!(registry.register(token, "earlier"), Ok(()));
    let table = RegisterInterrupt::new(mega_timer()).ok().unwrap();
    assert_eq!(
        table.install(&mut registry),
        Err(InterruptError::DoubleRegistration)
    );
    assert_eq!(registry.dispatch(TIM1_UP), &["earlier"]);
    assert!(!registry.is_registered(TIM1_BRK));
    assert!(!registry.is_registered(TIM1_CC));
    assert!(!registry.is_registered(TIM1_TRG_COM));
}

#[test]
fn install_twice_is_a_double_registration() {
    let mut registry: VectorRegistry<&'static str> = VectorRegistry::new();
    let first = RegisterInterrupt::new(vec![line(SYSTICK, 6, SYSTICK)]).ok().unwrap();
    let second = RegisterInterrupt::new(vec![line(SYSTICK, 6, SYSTICK)]).ok().unwrap();
    assert_eq!(first.install(&mut registry), Ok(()));
    assert_eq!(
        second.install(&mut registry),
        Err(InterruptError::DoubleRegistration)
    );
    assert_eq!(registry.dispatch(SYSTICK), &["systick"]);
}

#[test]
fn driver_reports_its_declared_vector() {
    let driver = Driver {
        id: 1,
        vector: UART2,
        on_interrupt: (),
    };
    assert_eq!(driver.vector(), UART2);
}

#[test]
fn callbacks_keep_driver_order() {
    let drivers = vec![
        Driver { id: 1, vector: UART2, on_interrupt: 'a' },
        Driver { id: 2, vector: UART2, on_interrupt: 'b' },
        Driver { id: 3, vector: UART2, on_interrupt: 'c' },
    ];
    assert_eq!(into_callbacks(drivers), vec!['a', 'b', 'c']);
    let none: Vec<Driver<char>> = Vec::new();
    assert!(into_callbacks(none).is_empty());
}

#[test]
fn exti_lines_map_to_their_vectors() {
    assert_eq!(exti_interrupt(0), Some(ExtiInterrupt::EXTI0));
    assert_eq!(exti_interrupt(1), Some(ExtiInterrupt::EXTI1));
    assert_eq!(exti_interrupt(2), Some(ExtiInterrupt::EXTI2));
    assert_eq!(exti_interrupt(3), Some(ExtiInterrupt::EXTI3));
    assert_eq!(exti_interrupt(4), Some(ExtiInterrupt::EXTI4));
    for pin in 5..=9 {
        assert_eq!(exti_interrupt(pin), Some(ExtiInterrupt::EXTI9_5));
    }
    for pin in 10..=15 {
        assert_eq!(exti_interrupt(pin), Some(ExtiInterrupt::EXTI15_10));
    }
    assert_eq!(exti_interrupt(16), None);
    assert_eq!(exti_interrupt(255), None);
}

#[test]
fn mask_register_arithmetic() {
    assert_eq!(unmask_line(0, 1), 0b10);
    assert_eq!(unmask_line(0b10, 1), 0b10);
    assert_eq!(unmask_line(0b0101, 3), 0b1101);
    assert_eq!(unmask_line(0, 31), 0x8000_0000);
    assert_eq!(mask_line(0b1111, 1), 0b1101);
    assert_eq!(mask_line(0b1101, 1), 0b1101);
    assert_eq!(mask_line(0xFFFF_FFFF, 31), 0x7FFF_FFFF);
    assert_eq!(mask_line(unmask_line(0x1234, 15), 15), 0x1234 & !(1 << 15));
}
