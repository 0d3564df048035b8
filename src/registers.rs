//! A model of the GPIO controller's register block.
//!
//! Every register is a plain word here. The set and clear registers keep
//! the last value written to them, and each pin's output is wired back to
//! its input: writing 1s to a set register raises the level of those lines,
//! writing 1s to a clear register lowers it, and 0 bits leave a line alone.
use vstd::prelude::*;
use vstd::array::spec_array_update;
use crate::bits::{bank, bank_bit, bit_of, bit_shift, field_of, register_index, with_field, MAX_PIN};

verus! {

/// The register groups of the controller, in their hardware order.
#[derive(Clone, Copy)]
pub struct Registers {
    /// Function select: 3 bits per pin, 10 pins per register.
    pub fsel: [u32; 6],
    /// Output set: the last word written to each register.
    pub set: [u32; 2],
    /// Output clear: the last word written to each register.
    pub clr: [u32; 2],
    /// Pin level: one bit per pin.
    pub lev: [u32; 2],
    /// Event detect status.
    pub eds: [u32; 2],
    /// Rising edge detect enable.
    pub ren: [u32; 2],
    /// Falling edge detect enable.
    pub fen: [u32; 2],
    /// High level detect enable.
    pub hen: [u32; 2],
    /// Low level detect enable.
    pub len: [u32; 2],
    /// Asynchronous rising edge detect enable.
    pub aren: [u32; 2],
    /// Asynchronous falling edge detect enable.
    pub afen: [u32; 2],
    /// Pull-up / pull-down enable.
    pub pud: u32,
    /// Pull-up / pull-down enable clock.
    pub pudclk: [u32; 2],
}

/// The block after `v` is written to function-select register `i`.
pub open spec fn with_fsel(r: Registers, i: int, v: u32) -> Registers {
    Registers { fsel: spec_array_update(r.fsel, i, v), ..r }
}

/// The block after `v` is written to set register `b`: the lines of the
/// 1 bits go high.
pub open spec fn after_set_write(r: Registers, b: int, v: u32) -> Registers {
    Registers {
        set: spec_array_update(r.set, b, v),
        lev: spec_array_update(r.lev, b, r.lev[b] | v),
        ..r
    }
}

/// The block after `v` is written to clear register `b`: the lines of the
/// 1 bits go low.
pub open spec fn after_clear_write(r: Registers, b: int, v: u32) -> Registers {
    Registers {
        clr: spec_array_update(r.clr, b, v),
        lev: spec_array_update(r.lev, b, r.lev[b] & !v),
        ..r
    }
}

/// The block after the function-select field of `pin` is set to `code`.
pub open spec fn after_select(r: Registers, pin: nat, code: u32) -> Registers {
    let i = register_index(pin) as int;
    with_fsel(r, i, with_field(r.fsel[i], bit_shift(pin) as u32, code))
}

/// The function-select field of `pin` in the block.
pub open spec fn pin_function(r: Registers, pin: nat) -> u32 {
    field_of(r.fsel[register_index(pin) as int], bit_shift(pin) as u32)
}

/// The word with only the bit of `pin` set.
pub open spec fn pin_mask(pin: nat) -> u32 {
    (1u32 << (bank_bit(pin) as u32)) as u32
}

/// The block after `pin` is driven high.
pub open spec fn after_set_pin(r: Registers, pin: nat) -> Registers {
    after_set_write(r, bank(pin) as int, pin_mask(pin))
}

/// The block after `pin` is driven low.
pub open spec fn after_clear_pin(r: Registers, pin: nat) -> Registers {
    after_clear_write(r, bank(pin) as int, pin_mask(pin))
}

/// The level of `pin` in the block.
pub open spec fn pin_level(r: Registers, pin: nat) -> bool {
    bit_of(r.lev[bank(pin) as int], bank_bit(pin) as u32)
}

impl Registers {
    /// A block with every register at zero.
    pub fn new() -> (r: Registers)
        ensures
            forall|i: int| 0 <= i < 6 ==> r.fsel[i] == 0,
            forall|i: int| 0 <= i < 2 ==> r.set[i] == 0 && r.clr[i] == 0 && r.lev[i] == 0,
            forall|i: int|
                0 <= i < 2 ==> r.eds[i] == 0 && r.ren[i] == 0 && r.fen[i] == 0 && r.hen[i] == 0
                    && r.len[i] == 0 && r.aren[i] == 0 && r.afen[i] == 0 && r.pudclk[i] == 0,
            r.pud == 0,
    {
        Registers {
            fsel: [0u32; 6],
            set: [0u32; 2],
            clr: [0u32; 2],
            lev: [0u32; 2],
            eds: [0u32; 2],
            ren: [0u32; 2],
            fen: [0u32; 2],
            hen: [0u32; 2],
            len: [0u32; 2],
            aren: [0u32; 2],
            afen: [0u32; 2],
            pud: 0,
            pudclk: [0u32; 2],
        }
    }

    /// Reads function-select register `i`.
    pub fn read_fsel(&self, i: usize) -> (r: u32)
        requires
            i < 6,
        ensures
            r == self.fsel[i as int],
    {
        self.fsel[i]
    }

    /// Writes `v` to function-select register `i`.
    pub fn write_fsel(&mut self, i: usize, v: u32)
        requires
            i < 6,
        ensures
            *final(self) == with_fsel(*old(self), i as int, v),
    {
        self.fsel[i] = v;
    }

    /// Writes `v` to set register `b`.
    pub fn write_set(&mut self, b: usize, v: u32)
        requires
            b < 2,
        ensures
            *final(self) == after_set_write(*old(self), b as int, v),
    {
        self.set[b] = v;
        self.lev[b] = self.lev[b] | v;
    }

    /// Writes `v` to clear register `b`.
    pub fn write_clr(&mut self, b: usize, v: u32)
        requires
            b < 2,
        ensures
            *final(self) == after_clear_write(*old(self), b as int, v),
    {
        self.clr[b] = v;
        self.lev[b] = self.lev[b] & !v;
    }

    /// Reads level register `b`.
    pub fn read_lev(&self, b: usize) -> (r: u32)
        requires
            b < 2,
        ensures
            r == self.lev[b as int],
    {
        self.lev[b]
    }
}

/// Selecting a function for a pin puts its code in the pin's field, keeps
/// every other bit of that register, and leaves every other register as it
/// was.
pub proof fn lemma_select_keeps_other_bits(r: Registers, pin: nat, code: u32, b: u32)
    requires
        pin <= MAX_PIN,
        code < 8,
        b < 32,
        b < bit_shift(pin) || b >= bit_shift(pin) + 3,
    ensures
        pin_function(after_select(r, pin, code), pin) == code,
        bit_of(after_select(r, pin, code).fsel[register_index(pin) as int], b) == bit_of(
            r.fsel[register_index(pin) as int],
            b,
        ),
        forall|j: int|
            0 <= j < 6 && j != register_index(pin) ==> after_select(r, pin, code).fsel[j]
                == r.fsel[j],
        after_select(r, pin, code).set == r.set,
        after_select(r, pin, code).clr == r.clr,
        after_select(r, pin, code).lev == r.lev,
{
    crate::bits::lemma_fsel_position_in_range(pin);
    crate::bits::lemma_replace_keeps_other_bits(
        r.fsel[register_index(pin) as int],
        bit_shift(pin) as u32,
        code,
        b,
    );
}

/// Driving a pin high and then reading it gives high; driving it low and
/// then reading it gives low.
pub proof fn lemma_level_follows_output(r: Registers, pin: nat)
    requires
        pin <= MAX_PIN,
    ensures
        pin_level(after_set_pin(r, pin), pin),
        !pin_level(after_clear_pin(r, pin), pin),
{
    let b = bank(pin) as int;
    let k = bank_bit(pin) as u32;
    let x = r.lev[b];
    assert(((x | ((1u32 << k) as u32)) >> k) & 1u32 == 1u32) by (bit_vector)
        requires
            k < 32,
    ;
    assert(((x & !((1u32 << k) as u32)) >> k) & 1u32 != 1u32) by (bit_vector)
        requires
            k < 32,
    ;
}

/// Driving a pin high twice leaves the block as driving it high once.
pub proof fn lemma_set_idempotent(r: Registers, pin: nat)
    requires
        pin <= MAX_PIN,
    ensures
        after_set_pin(after_set_pin(r, pin), pin) == after_set_pin(r, pin),
{
    let b = bank(pin) as int;
    let m = pin_mask(pin);
    let x = r.lev[b];
    assert((x | m) | m == x | m) by (bit_vector);
    let once = after_set_pin(r, pin);
    let twice = after_set_pin(once, pin);
    assert(twice.set =~= once.set);
    assert(twice.lev =~= once.lev);
}

/// Driving a pin low twice leaves the block as driving it low once.
pub proof fn lemma_clear_idempotent(r: Registers, pin: nat)
    requires
        pin <= MAX_PIN,
    ensures
        after_clear_pin(after_clear_pin(r, pin), pin) == after_clear_pin(r, pin),
{
    let b = bank(pin) as int;
    let m = pin_mask(pin);
    let x = r.lev[b];
    assert((x & !m) & !m == x & !m) by (bit_vector);
    let once = after_clear_pin(r, pin);
    let twice = after_clear_pin(once, pin);
    assert(twice.clr =~= once.clr);
    assert(twice.lev =~= once.lev);
}

} // verus!
