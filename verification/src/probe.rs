//! Discovery of the implemented priority width.

use vstd::prelude::*;
use vstd::std_specs::bits::u8_leading_ones;
use vstd::std_specs::bits::u8_leading_zeros;
use vstd::std_specs::bits::axiom_u8_leading_zeros;
use vstd::arithmetic::power2::lemma2_to64;
use crate::controller::Nvic;
use crate::controller::implemented_bits;
use crate::controller::lemma_all_ones_readback;

verus! {

/// Number of leading one-bits of a byte, by the thresholds at which each
/// further high bit is set.
pub open spec fn leading_ones_of(byte: u8) -> nat {
    if byte == 0xFF {
        8
    } else if byte >= 0xFE {
        7
    } else if byte >= 0xFC {
        6
    } else if byte >= 0xF8 {
        5
    } else if byte >= 0xF0 {
        4
    } else if byte >= 0xE0 {
        3
    } else if byte >= 0xC0 {
        2
    } else if byte >= 0x80 {
        1
    } else {
        0
    }
}

/// The count of leading ones that the machine reports is the count by
/// thresholds.
pub proof fn lemma_leading_ones_thresholds(byte: u8)
    ensures
        u8_leading_ones(byte) == leading_ones_of(byte),
{
    let inverted: u8 = !byte;
    let zeros = u8_leading_zeros(inverted);
    axiom_u8_leading_zeros(inverted);
    if zeros == 8 {
        assert(inverted == 0);
        assert(byte == 0xFF) by (bit_vector)
            requires
                inverted == !byte,
                inverted == 0,
        ;
    } else {
        let count: u8 = zeros as u8;
        let top: u8 = (7 - count) as u8;
        let above: u8 = (8 - count) as u8;
        assert((inverted >> top) & 1u8 != 0u8);
        assert(inverted >> above == 0);
        assert(leading_ones_of(byte) == count) by (bit_vector)
            requires
                inverted == !byte,
                count < 8,
                top == 7 - count,
                above == 8 - count,
                (inverted >> top) & 1u8 != 0u8,
                inverted >> above == 0,
        ;
    }
}

/// The priority width that a read-back of the all-ones byte reveals: the
/// number of its leading one-bits.
pub fn prio_bits_from_readback(readback: u8) -> (width: u8)
    ensures
        width == leading_ones_of(readback),
        width <= 8,
{
    proof {
        lemma_leading_ones_thresholds(readback);
    }
    let ones: u32 = readback.leading_ones();
    ones as u8
}

/// On a controller with `width` implemented bits, the all-ones byte reads
/// back with `width` leading ones.
pub proof fn lemma_probe_reveals_width(width: nat)
    requires
        width <= 8,
    ensures
        leading_ones_of(implemented_bits(0xFF, width)) == width,
{
    lemma_all_ones_readback(width);
    lemma2_to64();
}

/// Determine the number of priority bits that the controller implements.
///
/// The priority of `placeholder_interrupt` is saved, the all-ones byte is
/// written and read back, and the saved priority is restored.  The leading
/// ones of the read-back are the implemented bits.  A placeholder that the
/// controller does not implement reads back as zero and reveals nothing.
pub fn determine_prio_bits(nvic: &mut Nvic, placeholder_interrupt: u16) -> (width: u8)
    requires
        old(nvic).wf(),
    ensures
        final(nvic).wf(),
        final(nvic)@ == old(nvic)@,
        placeholder_interrupt < old(nvic)@.priorities.len() ==> width == old(nvic)@.width,
        placeholder_interrupt >= old(nvic)@.priorities.len() ==> width == 0,
{
    let saved: u8 = nvic.get_priority(placeholder_interrupt);
    nvic.set_priority(placeholder_interrupt, 0xFF);
    let written_prio: u8 = nvic.get_priority(placeholder_interrupt);
    nvic.set_priority(placeholder_interrupt, saved);
    proof {
        lemma_probe_reveals_width(old(nvic)@.width);
        assert(nvic@.priorities =~= old(nvic)@.priorities);
    }
    prio_bits_from_readback(written_prio)
}

} // verus!
