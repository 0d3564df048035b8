//! GPIO pins whose type records the function they were configured for.
//!
//! A pin starts `Uninitialized` and is turned, once, into an `Input`, an
//! `Output` or an `Alt` pin. Only an output pin can be driven and only an
//! input pin can be read. Every operation acts on the register block that
//! the caller passes in.
use vstd::prelude::*;
use core::marker::PhantomData;
use crate::bits::{bank_position, fsel_position, replace_field, MAX_PIN};
use crate::registers::{after_clear_pin, after_select, after_set_pin, pin_function, pin_level, Registers};

verus! {

/// A function a pin can take, each with its fixed 3-bit hardware code.
#[derive(Clone, Copy, Debug, PartialEq, Eq, Structural)]
pub enum Function {
    Input,
    Output,
    Alt0,
    Alt1,
    Alt2,
    Alt3,
    Alt4,
    Alt5,
}

impl Function {
    /// The 3-bit code that selects this function.
    pub open spec fn code_spec(self) -> u32 {
        match self {
            Function::Input => 0b000,
            Function::Output => 0b001,
            Function::Alt0 => 0b100,
            Function::Alt1 => 0b101,
            Function::Alt2 => 0b110,
            Function::Alt3 => 0b111,
            Function::Alt4 => 0b011,
            Function::Alt5 => 0b010,
        }
    }

    /// The 3-bit code that selects this function.
    #[verifier::when_used_as_spec(code_spec)]
    pub fn code(self) -> (r: u32)
        ensures
            r == self.code_spec(),
            r < 8,
    {
        match self {
            Function::Input => 0b000,
            Function::Output => 0b001,
            Function::Alt0 => 0b100,
            Function::Alt1 => 0b101,
            Function::Alt2 => 0b110,
            Function::Alt3 => 0b111,
            Function::Alt4 => 0b011,
            Function::Alt5 => 0b010,
        }
    }
}

/// The state of a pin that has not been configured yet.
pub struct Uninitialized;

/// The state of a pin configured as an input.
pub struct Input;

/// The state of a pin configured as an output.
pub struct Output;

/// The state of a pin configured for an alternate function.
pub struct Alt;

/// GPIO pin `pin` in state `State`.
pub struct Gpio<State> {
    pin: u8,
    state: PhantomData<State>,
}

impl<State> Gpio<State> {
    #[verifier::type_invariant]
    spec fn inv(self) -> bool {
        self.pin <= MAX_PIN
    }

    /// The number of this pin.
    pub closed spec fn index(self) -> nat {
        self.pin as nat
    }

    /// The number of this pin.
    pub fn pin(&self) -> (r: u8)
        ensures
            r as nat == self.index(),
            r <= MAX_PIN,
    {
        proof {
            use_type_invariant(self);
        }
        self.pin
    }

    /// The same pin in state `S`.
    fn transition<S>(self) -> (r: Gpio<S>)
        ensures
            r.index() == self.index(),
    {
        proof {
            use_type_invariant(&self);
        }
        Gpio { pin: self.pin, state: PhantomData }
    }
}

impl Gpio<Uninitialized> {
    /// Pin number `pin`, not configured yet. Touches no register.
    pub fn new(pin: u8) -> (r: Gpio<Uninitialized>)
        requires
            pin <= MAX_PIN,
        ensures
            r.index() == pin,
    {
        Gpio { pin, state: PhantomData }
    }

    /// Pin number `pin`, or `None` where the controller has no such pin.
    pub fn try_new(pin: u8) -> (r: Option<Gpio<Uninitialized>>)
        ensures
            r.is_some() <==> pin <= MAX_PIN,
            r matches Some(g) ==> g.index() == pin,
    {
        if pin <= MAX_PIN {
            Some(Gpio::new(pin))
        } else {
            None
        }
    }

    /// Selects `function` for this pin by one read and one write of its
    /// function-select register; every other bit is kept.
    pub fn into_alt(self, regs: &mut Registers, function: Function) -> (r: Gpio<Alt>)
        ensures
            r.index() == self.index(),
            *final(regs) == after_select(*old(regs), self.index(), function.code()),
            pin_function(*final(regs), self.index()) == function.code(),
    {
        proof {
            use_type_invariant(&self);
        }
        let (index, shift) = fsel_position(self.pin);
        let read: u32 = regs.read_fsel(index);
        let value: u32 = replace_field(read, shift as u32, function.code());
        regs.write_fsel(index, value);
        self.transition()
    }

    /// Makes this pin an output.
    pub fn into_output(self, regs: &mut Registers) -> (r: Gpio<Output>)
        ensures
            r.index() == self.index(),
            *final(regs) == after_select(*old(regs), self.index(), Function::Output.code()),
            pin_function(*final(regs), self.index()) == Function::Output.code(),
    {
        self.into_alt(regs, Function::Output).transition()
    }

    /// Makes this pin an input.
    pub fn into_input(self, regs: &mut Registers) -> (r: Gpio<Input>)
        ensures
            r.index() == self.index(),
            *final(regs) == after_select(*old(regs), self.index(), Function::Input.code()),
            pin_function(*final(regs), self.index()) == Function::Input.code(),
    {
        self.into_alt(regs, Function::Input).transition()
    }
}

impl Gpio<Output> {
    /// Drives the pin high by writing its bit to the set register of its
    /// bank.
    pub fn set(&mut self, regs: &mut Registers)
        ensures
            *final(self) == *old(self),
            *final(regs) == after_set_pin(*old(regs), old(self).index()),
    {
        proof {
            use_type_invariant(&*self);
        }
        let (bank, bit) = bank_position(self.pin);
        regs.write_set(bank, 1u32 << bit as u32);
    }

    /// Drives the pin low by writing its bit to the clear register of its
    /// bank.
    pub fn clear(&mut self, regs: &mut Registers)
        ensures
            *final(self) == *old(self),
            *final(regs) == after_clear_pin(*old(regs), old(self).index()),
    {
        proof {
            use_type_invariant(&*self);
        }
        let (bank, bit) = bank_position(self.pin);
        regs.write_clr(bank, 1u32 << bit as u32);
    }
}

impl Gpio<Input> {
    /// Whether the pin's level is high.
    pub fn level(&mut self, regs: &Registers) -> (r: bool)
        ensures
            *final(self) == *old(self),
            r == pin_level(*regs, old(self).index()),
    {
        proof {
            use_type_invariant(&*self);
        }
        let (bank, bit) = bank_position(self.pin);
        (regs.read_lev(bank) >> bit as u32) & 1u32 == 1u32
    }
}

} // verus!
