use vstd::prelude::*;

use crate::flagsregister::FlagsRegister;
use crate::instructions::ArithmeticRegisters;

verus! {

/// The register file: seven 8-bit general registers and the flags register.
/// The accumulator `a` is the implicit first operand and the sole
/// destination of every arithmetic result.
pub struct Registers {
    pub a: u8,
    pub b: u8,
    pub c: u8,
    pub d: u8,
    pub e: u8,
    pub f: FlagsRegister,
    pub h: u8,
    pub l: u8,
}

/// The state a freshly constructed register file is in: every register
/// zero, every flag clear.
pub open spec fn initial_registers() -> Registers {
    Registers {
        a: 0,
        b: 0,
        c: 0,
        d: 0,
        e: 0,
        f: FlagsRegister { zero: false, substraction: false, half_carry: false, carry: false },
        h: 0,
        l: 0,
    }
}

/// The value the named register holds.
pub open spec fn reg_value(r: Registers, reg: ArithmeticRegisters) -> u8 {
    match reg {
        ArithmeticRegisters::A => r.a,
        ArithmeticRegisters::B => r.b,
        ArithmeticRegisters::C => r.c,
        ArithmeticRegisters::D => r.d,
        ArithmeticRegisters::E => r.e,
        ArithmeticRegisters::H => r.h,
        ArithmeticRegisters::L => r.l,
    }
}

impl Registers {
    pub fn new() -> (r: Self)
        ensures
            r == initial_registers(),
    {
        Self {
            a: 0,
            b: 0,
            c: 0,
            d: 0,
            e: 0,
            f: FlagsRegister::new(),
            h: 0,
            l: 0,
        }
    }

    pub fn load(&self, reg: ArithmeticRegisters) -> (value: u8)
        ensures
            value == reg_value(*self, reg),
    {
        match reg {
            ArithmeticRegisters::A => self.a,
            ArithmeticRegisters::B => self.b,
            ArithmeticRegisters::C => self.c,
            ArithmeticRegisters::D => self.d,
            ArithmeticRegisters::E => self.e,
            ArithmeticRegisters::H => self.h,
            ArithmeticRegisters::L => self.l,
        }
    }
}

impl Default for Registers {
    fn default() -> (r: Self)
        ensures
            r == initial_registers(),
    {
        Registers::new()
    }
}

} // verus!
