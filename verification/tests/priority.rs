use core::num::NonZeroU8;

use cortex_m_interrupt::controller::keep_implemented;
use cortex_m_interrupt::determine_prio_bits;
use cortex_m_interrupt::logical2hw;
use cortex_m_interrupt::prio_bits_from_readback;
use cortex_m_interrupt::registration::encode_priority;
use cortex_m_interrupt::InterruptError;
use cortex_m_interrupt::Nvic;
use cortex_m_interrupt::Priority;

#[test]
fn nvic_test() {
    for i in 1..=24 {
        if i <= 16 {
            // Every level of a four-bit controller gets its hardware byte.
            assert_eq!(
                logical2hw(NonZeroU8::new(i).unwrap().get(), 4),
                Some(((1u8 << 4) - i) << (8 - 4))
            );
        } else {
            // Above the number of levels nothing is returned.
            assert_eq!(logical2hw(NonZeroU8::new(i).unwrap().get(), 4), None);
        }
    }
}

#[test]
fn four_bit_controller_end_to_end() {
    assert_eq!(logical2hw(1, 4), Some(0xF0));
    assert_eq!(logical2hw(16, 4), Some(0x00));
    assert_eq!(logical2hw(17, 4), None);
}

#[test]
fn logical_zero_is_rejected_for_every_width() {
    for width in 0..=8u8 {
        assert_eq!(logical2hw(0, width), None);
    }
}

#[test]
fn narrowest_and_widest_controllers() {
    // No implemented bit: one level, encoded as zero.
    assert_eq!(logical2hw(1, 0), Some(0));
    assert_eq!(logical2hw(2, 0), None);
    // One bit: two levels.
    assert_eq!(logical2hw(1, 1), Some(0x80));
    assert_eq!(logical2hw(2, 1), Some(0x00));
    assert_eq!(logical2hw(3, 1), None);
    // Three bits.
    assert_eq!(logical2hw(1, 3), Some(0xE0));
    assert_eq!(logical2hw(5, 3), Some(0x60));
    assert_eq!(logical2hw(8, 3), Some(0x00));
    assert_eq!(logical2hw(9, 3), None);
    // All eight bits: every non-zero byte is a level.
    assert_eq!(logical2hw(1, 8), Some(255));
    assert_eq!(logical2hw(200, 8), Some(56));
    assert_eq!(logical2hw(255, 8), Some(1));
}

#[test]
fn hardware_byte_strictly_decreases_as_logical_rises() {
    for width in 0..=8u8 {
        let levels: u16 = 1u16 << width;
        let mut previous: Option<u8> = None;
        for logical in 1..=255u8 {
            if (logical as u16) > levels {
                break;
            }
            let hw = logical2hw(logical, width).unwrap();
            if let Some(p) = previous {
                assert!(hw < p, "width {} logical {}", width, logical);
            }
            previous = Some(hw);
        }
    }
}

#[test]
fn out_of_range_is_reported_for_every_width() {
    for width in 0..=7u8 {
        let levels: u16 = 1u16 << width;
        for logical in 1..=255u8 {
            if (logical as u16) > levels {
                assert_eq!(logical2hw(logical, width), None);
            } else {
                assert!(logical2hw(logical, width).is_some());
            }
        }
    }
}

#[test]
fn hardware_byte_uses_only_implemented_bits() {
    for width in 0..=8u8 {
        for logical in 1..=255u8 {
            if let Some(hw) = logical2hw(logical, width) {
                assert_eq!(keep_implemented(hw, width), hw);
            }
        }
    }
}

#[test]
fn readback_width_is_leading_ones() {
    assert_eq!(prio_bits_from_readback(0x00), 0);
    assert_eq!(prio_bits_from_readback(0x7F), 0);
    assert_eq!(prio_bits_from_readback(0x80), 1);
    assert_eq!(prio_bits_from_readback(0xC0), 2);
    assert_eq!(prio_bits_from_readback(0xE0), 3);
    assert_eq!(prio_bits_from_readback(0xF0), 4);
    assert_eq!(prio_bits_from_readback(0xF7), 4);
    assert_eq!(prio_bits_from_readback(0xF8), 5);
    assert_eq!(prio_bits_from_readback(0xFC), 6);
    assert_eq!(prio_bits_from_readback(0xFE), 7);
    assert_eq!(prio_bits_from_readback(0xFF), 8);
    for byte in 0..=255u8 {
        assert_eq!(prio_bits_from_readback(byte) as u32, byte.leading_ones());
    }
}

#[test]
fn keep_implemented_drops_low_bits() {
    assert_eq!(keep_implemented(0xFF, 0), 0x00);
    assert_eq!(keep_implemented(0xFF, 1), 0x80);
    assert_eq!(keep_implemented(0xFF, 3), 0xE0);
    assert_eq!(keep_implemented(0xFF, 4), 0xF0);
    assert_eq!(keep_implemented(0xFF, 8), 0xFF);
    assert_eq!(keep_implemented(0x5A, 4), 0x50);
    assert_eq!(keep_implemented(0x5A, 8), 0x5A);
    assert_eq!(keep_implemented(0x5A, 2), 0x40);
}

#[test]
fn probe_reveals_width_and_restores_priority() {
    for width in 0..=8u8 {
        let mut nvic = Nvic::new(width, 32);
        nvic.set_priority(7, 0xFF);
        let before = nvic.get_priority(7);
        nvic.unmask(7);
        assert_eq!(determine_prio_bits(&mut nvic, 7), width);
        assert_eq!(nvic.get_priority(7), before);
        assert!(nvic.is_enabled(7));
        assert_eq!(nvic.prio_bits(), width);
    }
}

#[test]
fn probe_on_missing_line_reveals_nothing() {
    let mut nvic = Nvic::new(4, 8);
    assert_eq!(determine_prio_bits(&mut nvic, 8), 0);
    assert_eq!(determine_prio_bits(&mut nvic, 500), 0);
    assert_eq!(determine_prio_bits(&mut nvic, 3), 4);
}

#[test]
fn controller_model_registers() {
    let mut nvic = Nvic::new(3, 4);
    for irq in 0..4u16 {
        assert_eq!(nvic.get_priority(irq), 0);
        assert!(!nvic.is_enabled(irq));
    }
    nvic.set_priority(2, 0xAB);
    assert_eq!(nvic.get_priority(2), 0xA0);
    assert_eq!(nvic.get_priority(1), 0);
    nvic.unmask(2);
    assert!(nvic.is_enabled(2));
    assert!(!nvic.is_enabled(1));
    nvic.mask(2);
    assert!(!nvic.is_enabled(2));
    // Lines that do not exist ignore writes and read as zero.
    nvic.set_priority(4, 0xFF);
    nvic.unmask(4);
    assert_eq!(nvic.get_priority(4), 0);
    assert!(!nvic.is_enabled(4));
}

#[test]
fn raw_priority_is_not_validated() {
    for byte in 0..=255u8 {
        assert_eq!(encode_priority(Priority::Raw(byte), 4), Ok(byte));
    }
}

#[test]
fn logical_priority_is_validated() {
    assert_eq!(encode_priority(Priority::Logical(1), 4), Ok(0xF0));
    assert_eq!(encode_priority(Priority::Logical(7), 4), Ok(0x90));
    assert_eq!(encode_priority(Priority::Logical(16), 4), Ok(0x00));
    assert_eq!(
        encode_priority(Priority::Logical(17), 4),
        Err(InterruptError::PriorityOutOfRange)
    );
    assert_eq!(
        encode_priority(Priority::Logical(0), 4),
        Err(InterruptError::PriorityOutOfRange)
    );
}
