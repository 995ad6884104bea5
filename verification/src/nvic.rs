//! Priority arithmetic of the interrupt controller.
//!
//! A controller implements only the `N` most significant bits of each 8-bit
//! priority field.  Logical priorities run from `1` (least urgent) to `2^N`
//! (most urgent); the hardware encoding runs the other way and lives in the
//! implemented high bits.

use vstd::prelude::*;
use vstd::arithmetic::power2::pow2;
use vstd::arithmetic::power2::lemma2_to64;
use vstd::arithmetic::power2::lemma_pow2_adds;
use vstd::arithmetic::power2::lemma_pow2_pos;

verus! {

/// Number of priority levels of a controller that implements `width` bits.
pub open spec fn priority_levels(width: nat) -> nat {
    pow2(width)
}

/// Whether `logical` names a priority level of a controller with `width`
/// implemented bits.
pub open spec fn logical_in_range(logical: int, width: nat) -> bool {
    1 <= logical <= priority_levels(width)
}

/// The hardware priority byte of the level `logical`: the distance from the
/// most urgent level, placed in the implemented high bits of the field.
pub open spec fn hardware_priority(logical: int, width: nat) -> int
    recommends
        width <= 8,
        logical_in_range(logical, width),
{
    (priority_levels(width) - logical) * pow2((8 - width) as nat)
}

/// The value that [`logical2hw`] reports: the hardware byte for a level in
/// range, nothing for any other level.
pub open spec fn logical2hw_spec(logical: u8, nvic_prio_bits: u8) -> Option<u8>
    recommends
        nvic_prio_bits <= 8,
{
    if logical_in_range(logical as int, nvic_prio_bits as nat) {
        Some(hardware_priority(logical as int, nvic_prio_bits as nat) as u8)
    } else {
        None
    }
}

/// Every hardware priority of a level in range fits the 8-bit field, and is a
/// multiple of the weight of the lowest implemented bit.
pub proof fn lemma_hardware_priority_bounds(logical: int, width: nat)
    requires
        width <= 8,
        logical_in_range(logical, width),
    ensures
        0 <= hardware_priority(logical, width) <= 256 - pow2((8 - width) as nat),
        hardware_priority(logical, width) <= 255,
        hardware_priority(logical, width) % (pow2((8 - width) as nat) as int) == 0,
{
    let unit = pow2((8 - width) as nat) as int;
    let levels = pow2(width) as int;
    lemma_pow2_pos((8 - width) as nat);
    lemma_pow2_adds(width, (8 - width) as nat);
    lemma2_to64();
    assert(levels * unit == 256);
    assert((levels - logical) * unit == levels * unit - logical * unit) by (nonlinear_arith);
    assert(logical * unit >= unit) by (nonlinear_arith)
        requires
            logical >= 1,
            unit >= 1,
    ;
    assert((levels - logical) * unit >= 0) by (nonlinear_arith)
        requires
            levels - logical >= 0,
            unit >= 1,
    ;
    assert(((levels - logical) * unit) % unit == 0) by (nonlinear_arith)
        requires
            unit >= 1,
    ;
}

/// `2^exponent` as a machine integer, for the exponents a priority field
/// allows.
fn pow2_u16(exponent: u8) -> (r: u16)
    requires
        exponent <= 8,
    ensures
        r == pow2(exponent as nat),
        1 <= r <= 256,
{
    proof {
        lemma2_to64();
        vstd::bits::lemma_u16_shl_is_mul(1u16, exponent as u16);
    }
    1u16 << (exponent as u16)
}

/// Convert a logical priority (where a higher number means a more urgent
/// level) to a hardware priority byte (where a lower number means a more
/// urgent level).
///
/// `None` is returned if `logical` is zero or greater than the number of
/// levels of a controller with `nvic_prio_bits` implemented bits.
#[inline]
#[must_use]
pub fn logical2hw(logical: u8, nvic_prio_bits: u8) -> (hw: Option<u8>)
    requires
        nvic_prio_bits <= 8,
    ensures
        hw == logical2hw_spec(logical, nvic_prio_bits),
        hw is Some <==> 1 <= logical <= pow2(nvic_prio_bits as nat),
        hw matches Some(byte) ==> byte as int == (pow2(nvic_prio_bits as nat) - logical) * pow2(
            (8 - nvic_prio_bits) as nat,
        ),
{
    let levels: u16 = pow2_u16(nvic_prio_bits);
    let unit: u16 = pow2_u16(8 - nvic_prio_bits);
    let level: u16 = logical as u16;
    if 1 <= level && level <= levels {
        proof {
            lemma_hardware_priority_bounds(logical as int, nvic_prio_bits as nat);
        }
        let distance: u16 = levels - level;
        let byte: u16 = distance * unit;
        Some(byte as u8)
    } else {
        None
    }
}

/// Logical priorities are inverted relative to the hardware encoding: as the
/// logical level rises through the levels of a controller, the hardware byte
/// strictly falls.
pub proof fn lemma_logical2hw_strictly_decreasing(lower: u8, higher: u8, nvic_prio_bits: u8)
    requires
        nvic_prio_bits <= 8,
        1 <= lower < higher <= pow2(nvic_prio_bits as nat),
    ensures
        logical2hw_spec(lower, nvic_prio_bits) is Some,
        logical2hw_spec(higher, nvic_prio_bits) is Some,
        logical2hw_spec(lower, nvic_prio_bits).unwrap() > logical2hw_spec(
            higher,
            nvic_prio_bits,
        ).unwrap(),
{
    let width = nvic_prio_bits as nat;
    let unit = pow2((8 - width) as nat) as int;
    let levels = pow2(width) as int;
    lemma_hardware_priority_bounds(lower as int, width);
    lemma_hardware_priority_bounds(higher as int, width);
    lemma_pow2_pos((8 - width) as nat);
    assert((levels - lower) * unit > (levels - higher) * unit) by (nonlinear_arith)
        requires
            levels - lower > levels - higher,
            unit >= 1,
    ;
}

/// A logical priority above the number of levels is never mapped, whatever the
/// width of the controller.
pub proof fn lemma_logical2hw_out_of_range(logical: u8, nvic_prio_bits: u8)
    requires
        logical > pow2(nvic_prio_bits as nat),
    ensures
        logical2hw_spec(logical, nvic_prio_bits) is None,
{
}

/// Logical priority zero is never mapped.
pub proof fn lemma_logical2hw_rejects_zero(nvic_prio_bits: u8)
    ensures
        logical2hw_spec(0, nvic_prio_bits) is None,
{
}

} // verus!
