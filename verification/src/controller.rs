//! A model of the priority-aware interrupt controller.
//!
//! The model keeps, for each interrupt line, what the register file of a
//! conformant controller keeps: an enable bit and an 8-bit priority field of
//! which only the implemented high bits can be set.  Lines that the controller
//! does not implement read as zero and ignore writes.

use vstd::prelude::*;
use vstd::arithmetic::power2::pow2;
use vstd::arithmetic::power2::lemma2_to64;
use vstd::arithmetic::power2::lemma_pow2_pos;
use vstd::arithmetic::div_mod::lemma_fundamental_div_mod;

verus! {

/// What a priority field holds after `byte` is written to it on a controller
/// with `width` implemented bits: the unimplemented low bits are dropped.
pub open spec fn implemented_bits(byte: u8, width: nat) -> u8
    recommends
        width <= 8,
{
    (byte - (byte as int) % (pow2((8 - width) as nat) as int)) as u8
}

/// The state of a controller, as contracts see it.
pub struct NvicState {
    /// Number of implemented priority bits.
    pub width: nat,
    /// The priority field of each implemented line.
    pub priorities: Seq<u8>,
    /// The enable bit of each implemented line.
    pub enabled: Seq<bool>,
}

impl NvicState {
    /// The priority field of `irq`; zero for a line that is not implemented.
    pub open spec fn priority(self, irq: u16) -> u8 {
        if irq < self.priorities.len() {
            self.priorities[irq as int]
        } else {
            0
        }
    }

    /// Whether `irq` is unmasked; never for a line that is not implemented.
    pub open spec fn is_enabled(self, irq: u16) -> bool {
        irq < self.enabled.len() && self.enabled[irq as int]
    }

    /// The state after `byte` is written to the priority field of `irq`.
    pub open spec fn with_priority(self, irq: u16, byte: u8) -> NvicState {
        if irq < self.priorities.len() {
            NvicState {
                priorities: self.priorities.update(irq as int, implemented_bits(byte, self.width)),
                ..self
            }
        } else {
            self
        }
    }

    /// The state after the enable bit of `irq` is set to `on`.
    pub open spec fn with_enabled(self, irq: u16, on: bool) -> NvicState {
        if irq < self.enabled.len() {
            NvicState { enabled: self.enabled.update(irq as int, on), ..self }
        } else {
            self
        }
    }
}

/// The interrupt controller.
pub struct Nvic {
    prio_bits: u8,
    priorities: Vec<u8>,
    enabled: Vec<bool>,
}

impl View for Nvic {
    type V = NvicState;

    closed spec fn view(&self) -> NvicState {
        NvicState {
            width: self.prio_bits as nat,
            priorities: self.priorities@,
            enabled: self.enabled@,
        }
    }
}

impl Nvic {
    /// A controller is well formed when its width fits the field, every line
    /// has both registers, and no priority field holds an unimplemented bit.
    pub open spec fn wf(&self) -> bool {
        &&& self@.width <= 8
        &&& self@.priorities.len() == self@.enabled.len()
        &&& forall|i: int|
            0 <= i < self@.priorities.len() ==> implemented_bits(
                #[trigger] self@.priorities[i],
                self@.width,
            ) == self@.priorities[i]
    }

    /// A controller with `prio_bits` implemented priority bits and `lines`
    /// interrupt lines, all masked and at priority zero.
    pub fn new(prio_bits: u8, lines: u16) -> (nvic: Nvic)
        requires
            prio_bits <= 8,
        ensures
            nvic.wf(),
            nvic@.width == prio_bits,
            nvic@.priorities == Seq::new(lines as nat, |i: int| 0u8),
            nvic@.enabled == Seq::new(lines as nat, |i: int| false),
    {
        let mut priorities: Vec<u8> = Vec::new();
        let mut enabled: Vec<bool> = Vec::new();
        let mut i: u16 = 0;
        while i < lines
            invariant
                i <= lines,
                priorities@ == Seq::new(i as nat, |k: int| 0u8),
                enabled@ == Seq::new(i as nat, |k: int| false),
            decreases lines - i,
        {
            priorities.push(0u8);
            enabled.push(false);
            i = i + 1;
            assert(priorities@ =~= Seq::new(i as nat, |k: int| 0u8));
            assert(enabled@ =~= Seq::new(i as nat, |k: int| false));
        }
        proof {
            lemma_pow2_pos((8 - prio_bits) as nat);
            assert(0int % (pow2((8 - prio_bits) as nat) as int) == 0) by (nonlinear_arith)
                requires
                    pow2((8 - prio_bits) as nat) > 0,
            ;
        }
        Nvic { prio_bits, priorities, enabled }
    }

    /// Number of implemented priority bits.
    pub fn prio_bits(&self) -> (width: u8)
        ensures
            width == self@.width,
    {
        self.prio_bits
    }

    /// Read the priority field of `irq`.
    pub fn get_priority(&self, irq: u16) -> (byte: u8)
        ensures
            byte == self@.priority(irq),
    {
        if (irq as usize) < self.priorities.len() {
            self.priorities[irq as usize]
        } else {
            0
        }
    }

    /// Write `prio` to the priority field of `irq`.  Only the implemented
    /// bits are kept.
    pub fn set_priority(&mut self, irq: u16, prio: u8)
        requires
            old(self).wf(),
        ensures
            final(self).wf(),
            final(self)@ == old(self)@.with_priority(irq, prio),
    {
        if (irq as usize) < self.priorities.len() {
            let kept: u8 = keep_implemented(prio, self.prio_bits);
            proof {
                lemma_implemented_bits_idempotent(prio, self.prio_bits as nat);
            }
            self.priorities.set(irq as usize, kept);
        }
    }

    /// Mask `irq` at the controller.
    pub fn mask(&mut self, irq: u16)
        requires
            old(self).wf(),
        ensures
            final(self).wf(),
            final(self)@ == old(self)@.with_enabled(irq, false),
    {
        if (irq as usize) < self.enabled.len() {
            self.enabled.set(irq as usize, false);
        }
    }

    /// Unmask `irq` at the controller.
    pub fn unmask(&mut self, irq: u16)
        requires
            old(self).wf(),
        ensures
            final(self).wf(),
            final(self)@ == old(self)@.with_enabled(irq, true),
    {
        if (irq as usize) < self.enabled.len() {
            self.enabled.set(irq as usize, true);
        }
    }

    /// Whether `irq` is unmasked.
    pub fn is_enabled(&self, irq: u16) -> (on: bool)
        ensures
            on == self@.is_enabled(irq),
    {
        if (irq as usize) < self.enabled.len() {
            self.enabled[irq as usize]
        } else {
            false
        }
    }
}

/// Drop the bits of `byte` that a controller with `width` priority bits does
/// not implement.
pub fn keep_implemented(byte: u8, width: u8) -> (kept: u8)
    requires
        width <= 8,
    ensures
        kept == implemented_bits(byte, width as nat),
{
    if width == 0 {
        proof {
            lemma2_to64();
            assert(pow2(8) == 256);
            assert((byte as int) % 256 == byte as int);
        }
        0
    } else {
        let low: u8 = 8 - width;
        proof {
            lemma2_to64();
            lemma_pow2_pos(low as nat);
            vstd::bits::lemma_u8_shl_is_mul(1u8, low);
            lemma_fundamental_div_mod(byte as int, pow2(low as nat) as int);
        }
        let unit: u8 = 1u8 << low;
        assert((byte / unit) * unit == unit * (byte / unit)) by (nonlinear_arith);
        (byte / unit) * unit
    }
}

/// Writing what a field already holds leaves it as it is.
pub proof fn lemma_implemented_bits_idempotent(byte: u8, width: nat)
    requires
        width <= 8,
    ensures
        implemented_bits(implemented_bits(byte, width), width) == implemented_bits(byte, width),
{
    let unit = pow2((8 - width) as nat) as int;
    lemma_pow2_pos((8 - width) as nat);
    lemma_fundamental_div_mod(byte as int, unit);
    let value = byte as int;
    let kept = value - value % unit;
    assert(0 <= value % unit <= value) by (nonlinear_arith)
        requires
            unit > 0,
            value >= 0,
    ;
    assert(kept == unit * (value / unit));
    assert((unit * (value / unit)) % unit == 0) by (nonlinear_arith)
        requires
            unit > 0,
    ;
}

/// The all-ones byte, written to a field with `width` implemented bits, reads
/// back with exactly `width` leading ones.
pub proof fn lemma_all_ones_readback(width: nat)
    requires
        width <= 8,
    ensures
        implemented_bits(0xFF, width) == 256 - pow2((8 - width) as nat),
{
    let unit = pow2((8 - width) as nat) as int;
    lemma2_to64();
    assert(unit == 1 || unit == 2 || unit == 4 || unit == 8 || unit == 16 || unit == 32 || unit
        == 64 || unit == 128 || unit == 256);
}

} // verus!
