//! Where each pin's bits live in the GPIO register groups.
use vstd::prelude::*;

verus! {

/// The largest pin number the controller has.
pub const MAX_PIN: u8 = 53;

/// Which function-select register holds the field of `pin`.
pub open spec fn register_index(pin: nat) -> nat {
    pin / 10
}

/// The lowest bit of the 3-bit function-select field of `pin`.
pub open spec fn bit_shift(pin: nat) -> nat {
    ((pin - register_index(pin) * 10) as nat) * 3
}

/// Which of the two set / clear / level registers holds the bit of `pin`.
pub open spec fn bank(pin: nat) -> nat {
    pin / 32
}

/// The bit of `pin` within its set / clear / level register.
pub open spec fn bank_bit(pin: nat) -> nat {
    pin % 32
}

/// The mask that covers a 3-bit field starting at `shift`.
pub open spec fn field_mask(shift: u32) -> u32 {
    (7u32 << shift) as u32
}

/// The 3-bit field of `v` that starts at `shift`.
pub open spec fn field_of(v: u32, shift: u32) -> u32 {
    ((v >> shift) & 7u32) as u32
}

/// Whether bit `b` of `v` is set.
pub open spec fn bit_of(v: u32, b: u32) -> bool {
    (v >> b) & 1u32 == 1u32
}

/// `v` with its 3-bit field at `shift` replaced by `code`.
pub open spec fn with_field(v: u32, shift: u32, code: u32) -> u32 {
    (v & !field_mask(shift)) | ((code << shift) as u32)
}

/// The function-select register and the bit shift of `pin`'s field.
pub fn fsel_position(pin: u8) -> (r: (usize, usize))
    requires
        pin <= MAX_PIN,
    ensures
        r.0 == register_index(pin as nat),
        r.1 == bit_shift(pin as nat),
        r.0 <= 5,
        r.1 <= 27,
        r.1 % 3 == 0,
{
    let index: usize = (pin / 10) as usize;
    let shift: usize = (pin as usize - index * 10) * 3;
    (index, shift)
}

/// The bank and the bit of `pin` in the set / clear / level registers.
pub fn bank_position(pin: u8) -> (r: (usize, usize))
    requires
        pin <= MAX_PIN,
    ensures
        r.0 == bank(pin as nat),
        r.1 == bank_bit(pin as nat),
        r.0 <= 1,
        r.1 <= 31,
{
    ((pin / 32) as usize, (pin % 32) as usize)
}

/// Replaces the 3-bit field of `v` at `shift` by `code`, keeping every
/// other bit.
pub fn replace_field(v: u32, shift: u32, code: u32) -> (r: u32)
    requires
        shift <= 29,
        code < 8,
    ensures
        r == with_field(v, shift, code),
        field_of(r, shift) == code,
        r & !field_mask(shift) == v & !field_mask(shift),
{
    let r: u32 = v & !(7u32 << shift) | (code << shift);
    proof {
        lemma_with_field(v, shift, code);
    }
    r
}

proof fn lemma_with_field(v: u32, shift: u32, code: u32)
    requires
        shift <= 29,
        code < 8,
    ensures
        field_of(with_field(v, shift, code), shift) == code,
        with_field(v, shift, code) & !field_mask(shift) == v & !field_mask(shift),
{
    assert(((((v & !((7u32 << shift) as u32)) | ((code << shift) as u32)) >> shift) & 7u32)
        == code) by (bit_vector)
        requires
            shift <= 29,
            code < 8,
    ;
    assert((((v & !((7u32 << shift) as u32)) | ((code << shift) as u32)) & !((7u32
        << shift) as u32)) == v & !((7u32 << shift) as u32)) by (bit_vector)
        requires
            shift <= 29,
            code < 8,
    ;
}

/// For every pin, its function-select field lies in one of the six
/// registers and ends within the 32 bits of that register.
pub proof fn lemma_fsel_position_in_range(pin: nat)
    requires
        pin <= 53,
    ensures
        register_index(pin) <= 5,
        bit_shift(pin) <= 27,
        bit_shift(pin) + 3 <= 32,
{
}

/// For every pin, its bank is 0 or 1 and its bit is below 32.
pub proof fn lemma_bank_position_in_range(pin: nat)
    requires
        pin <= 53,
    ensures
        bank(pin) <= 1,
        bank_bit(pin) <= 31,
{
}

/// Replacing a field keeps every bit of the register outside
/// `[shift, shift + 3)`, and the field then holds the new code.
pub proof fn lemma_replace_keeps_other_bits(v: u32, shift: u32, code: u32, b: u32)
    requires
        shift <= 29,
        code < 8,
        b < 32,
        b < shift || b >= shift + 3,
    ensures
        bit_of(with_field(v, shift, code), b) == bit_of(v, b),
        field_of(with_field(v, shift, code), shift) == code,
{
    lemma_with_field(v, shift, code);
    assert((((v & !((7u32 << shift) as u32)) | ((code << shift) as u32)) >> b) & 1u32 == (v >> b)
        & 1u32) by (bit_vector)
        requires
            shift <= 29,
            code < 8,
            b < 32,
            b < shift || b >= shift + 3,
    ;
}

} // verus!
