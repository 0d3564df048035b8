use pi::bits::{bank_position, fsel_position, replace_field, MAX_PIN};
use pi::gpio::{Function, Gpio};
use pi::registers::Registers;

fn field(v: u32, shift: usize) -> u32 {
    (v >> shift) & 0b111
}

#[test]
fn fsel_position_stays_in_range_for_every_pin() {
    for pin in 0..=MAX_PIN {
        let (index, shift) = fsel_position(pin);
        assert_eq!(index, (pin / 10) as usize);
        assert_eq!(shift, (pin as usize - index * 10) * 3);
        assert!(index <= 5);
        assert!(shift <= 27);
        assert!(shift + 3 <= 32);
    }
}

#[test]
fn bank_position_stays_in_range_for_every_pin() {
    for pin in 0..=MAX_PIN {
        let (bank, bit) = bank_position(pin);
        assert_eq!(bank, (pin / 32) as usize);
        assert_eq!(bit, (pin % 32) as usize);
        assert!(bank <= 1);
        assert!(bit <= 31);
    }
    assert_eq!(bank_position(0), (0, 0));
    assert_eq!(bank_position(31), (0, 31));
    assert_eq!(bank_position(32), (1, 0));
    assert_eq!(bank_position(53), (1, 21));
}

#[test]
fn function_codes_are_the_hardware_values() {
    assert_eq!(Function::Input.code(), 0b000);
    assert_eq!(Function::Output.code(), 0b001);
    assert_eq!(Function::Alt0.code(), 0b100);
    assert_eq!(Function::Alt1.code(), 0b101);
    assert_eq!(Function::Alt2.code(), 0b110);
    assert_eq!(Function::Alt3.code(), 0b111);
    assert_eq!(Function::Alt4.code(), 0b011);
    assert_eq!(Function::Alt5.code(), 0b010);
}

#[test]
fn replace_field_exact_value() {
    assert_eq!(replace_field(0xFFFF_FFFF, 27, 0b001), 0xC7FF_FFFF | (1 << 27));
    assert_eq!(replace_field(0, 15, 0b111), 0b111 << 15);
    assert_eq!(replace_field(0b101_000, 3, 0b010), 0b010_000);
}

#[test]
fn into_alt_keeps_unrelated_bits() {
    let mut regs = Registers::new();
    regs.fsel = [0xFFFF_FFFF; 6];
    regs.set = [0x1234_5678, 0x9ABC_DEF0];
    let _pin = Gpio::new(9).into_output(&mut regs);
    assert_eq!(regs.fsel[0], (0xFFFF_FFFF & !(0b111 << 27)) | (0b001 << 27));
    for i in 1..6 {
        assert_eq!(regs.fsel[i], 0xFFFF_FFFF);
    }
    assert_eq!(regs.set, [0x1234_5678, 0x9ABC_DEF0]);

    let mut regs = Registers::new();
    regs.fsel[2] = 0b101 << 12;
    let _pin = Gpio::new(23).into_alt(&mut regs, Function::Alt5);
    assert_eq!(field(regs.fsel[2], 9), 0b010);
    assert_eq!(field(regs.fsel[2], 12), 0b101);
}

#[test]
fn pin_nine_as_output() {
    assert_eq!(fsel_position(9), (0, 27));
    let mut regs = Registers::new();
    let pin = Gpio::new(9).into_output(&mut regs);
    assert_eq!(pin.pin(), 9);
    assert_eq!(field(regs.fsel[0], 27), 0b001);
    assert_eq!(regs.fsel[0], 1 << 27);
}

#[test]
fn pin_thirty_five_as_alt3_then_output() {
    assert_eq!(fsel_position(35), (3, 15));
    let mut regs = Registers::new();
    let _alt = Gpio::new(35).into_alt(&mut regs, Function::Alt3);
    assert_eq!(field(regs.fsel[3], 15), 0b111);

    let mut out = Gpio::new(35).into_output(&mut regs);
    assert_eq!(field(regs.fsel[3], 15), 0b001);
    assert_eq!(bank_position(35), (1, 3));
    out.set(&mut regs);
    assert_eq!(regs.set[1], 1 << 3);
    assert_eq!(regs.set[0], 0);
}

#[test]
fn input_sets_field_to_zero() {
    let mut regs = Registers::new();
    regs.fsel[5] = 0xFFFF_FFFF;
    let _pin = Gpio::new(53).into_input(&mut regs);
    assert_eq!(field(regs.fsel[5], 9), 0b000);
    assert_eq!(regs.fsel[5], 0xFFFF_FFFF & !(0b111 << 9));
}

#[test]
fn level_follows_set_and_clear_on_looped_pin() {
    let mut regs = Registers::new();
    let mut out = Gpio::new(35).into_output(&mut regs);
    let mut inp = Gpio::new(35).into_input(&mut regs);
    out.set(&mut regs);
    assert!(inp.level(&regs));
    out.clear(&mut regs);
    assert!(!inp.level(&regs));
    assert_eq!(regs.clr[1], 1 << 3);
}

#[test]
fn set_leaves_other_pins_alone() {
    let mut regs = Registers::new();
    regs.lev = [0, 0b1];
    let mut out = Gpio::new(33).into_output(&mut regs);
    out.set(&mut regs);
    assert_eq!(regs.lev, [0, 0b11]);
    out.clear(&mut regs);
    assert_eq!(regs.lev, [0, 0b01]);
}

#[test]
fn level_reads_preset_register() {
    let mut regs = Registers::new();
    regs.lev[0] = 1 << 17;
    let mut high = Gpio::new(17).into_input(&mut regs);
    let mut low = Gpio::new(16).into_input(&mut regs);
    assert!(high.level(&regs));
    assert!(!low.level(&regs));
}

#[test]
fn set_twice_same_as_once() {
    let mut once = Registers::new();
    once.lev = [0xF0F0_0000, 0x0000_0F0F];
    let mut twice = once;
    let mut a = Gpio::new(4).into_output(&mut once);
    a.set(&mut once);
    let mut b = Gpio::new(4).into_output(&mut twice);
    b.set(&mut twice);
    b.set(&mut twice);
    assert_eq!(once.fsel, twice.fsel);
    assert_eq!(once.set, twice.set);
    assert_eq!(once.clr, twice.clr);
    assert_eq!(once.lev, twice.lev);
    assert_eq!(twice.set[0], 1 << 4);
}

#[test]
fn construction_bounds() {
    let last = Gpio::try_new(53);
    assert!(last.is_some());
    assert_eq!(last.unwrap().pin(), 53);
    assert!(Gpio::try_new(54).is_none());
    assert!(Gpio::try_new(255).is_none());
    assert_eq!(Gpio::new(0).pin(), 0);
    assert_eq!(Gpio::new(53).pin(), 53);
}

#[test]
fn new_registers_are_zero() {
    let regs = Registers::new();
    assert_eq!(regs.fsel, [0; 6]);
    assert_eq!(regs.set, [0; 2]);
    assert_eq!(regs.clr, [0; 2]);
    assert_eq!(regs.lev, [0; 2]);
    assert_eq!(regs.pud, 0);
}

#[test]
fn register_access_methods() {
    let mut regs = Registers::new();
    regs.write_fsel(4, 0xABCD);
    assert_eq!(regs.read_fsel(4), 0xABCD);
    regs.write_set(0, 0b1010);
    assert_eq!(regs.read_lev(0), 0b1010);
    regs.write_clr(0, 0b0010);
    assert_eq!(regs.read_lev(0), 0b1000);
}

#[test]
fn clear_twice_same_as_once() {
    let mut once = Registers::new();
    once.lev = [0xFFFF_FFFF, 0xFFFF_FFFF];
    let mut twice = once;
    let mut a = Gpio::new(40).into_output(&mut once);
    a.clear(&mut once);
    let mut b = Gpio::new(40).into_output(&mut twice);
    b.clear(&mut twice);
    b.clear(&mut twice);
    assert_eq!(once.clr, twice.clr);
    assert_eq!(once.lev, twice.lev);
    assert_eq!(twice.clr[1], 1 << 8);
    assert_eq!(twice.lev[1], 0xFFFF_FFFF & !(1 << 8));
}
