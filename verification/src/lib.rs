pub mod flagsregister;
pub mod instructions;
pub mod registers;

use vstd::prelude::*;

use crate::flagsregister::FlagsRegister;
use crate::instructions::{ArithmeticRegisters, Instruction};
use crate::registers::{initial_registers, reg_value, Registers};

verus! {

/// A total reduced to eight bits. Every operation of the engine wraps at
/// most once, so the total is never farther than one step outside the range.
pub open spec fn wrap8(v: int) -> u8
    recommends
        -256 <= v < 512,
{
    if v < 0 {
        (v + 256) as u8
    } else if v > 255 {
        (v - 256) as u8
    } else {
        v as u8
    }
}

/// The carry flag as the 0/1 addend it contributes to a with-carry
/// operation.
pub open spec fn carry_bit(c: bool) -> int {
    if c {
        1
    } else {
        0
    }
}

/// The register file after an addition: the accumulator takes the wrapped
/// total of accumulator, operand and carry-in; the flags record a zero
/// result, that the operation was not a subtraction, a carry out of the low
/// nibble, and unsigned overflow at either step; every other register keeps
/// its value.
pub open spec fn add_step(r: Registers, x: u8, cin: int) -> Registers {
    Registers {
        a: wrap8(r.a + x + cin),
        b: r.b,
        c: r.c,
        d: r.d,
        e: r.e,
        f: FlagsRegister {
            zero: wrap8(r.a + x + cin) == 0,
            substraction: false,
            half_carry: (r.a & 0xF) + (x & 0xF) + cin > 0xF,
            carry: r.a + x + cin > 255,
        },
        h: r.h,
        l: r.l,
    }
}

/// The register file after a subtraction: the accumulator takes the wrapped
/// difference of accumulator, operand and carry-in; the carry flag records
/// unsigned underflow at either step. The half-carry flag uses the same
/// addition-style nibble check as the addition families rather than a
/// borrow check; this diverges from the conventional borrow semantics and
/// is deliberately left as the engine computes it until it is confirmed
/// against a processor manual, since decimal-adjust support would depend
/// on the choice.
pub open spec fn sub_step(r: Registers, x: u8, cin: int) -> Registers {
    Registers {
        a: wrap8(r.a - x - cin),
        b: r.b,
        c: r.c,
        d: r.d,
        e: r.e,
        f: FlagsRegister {
            zero: wrap8(r.a - x - cin) == 0,
            substraction: true,
            half_carry: (r.a & 0xF) + (x & 0xF) + cin > 0xF,
            carry: r.a < x + cin,
        },
        h: r.h,
        l: r.l,
    }
}

/// The transition the engine makes on one instruction: register forms
/// resolve their operand from the register file, immediate forms carry it
/// inline, with-carry forms fold in the current carry flag, and every other
/// variant leaves the state untouched.
pub open spec fn step(r: Registers, instruction: Instruction) -> Registers {
    match instruction {
        Instruction::ADD(reg) => add_step(r, reg_value(r, reg), 0),
        Instruction::ADDI(x) => add_step(r, x, 0),
        Instruction::ADC(reg) => add_step(r, reg_value(r, reg), carry_bit(r.f.carry)),
        Instruction::ADCI(x) => add_step(r, x, carry_bit(r.f.carry)),
        Instruction::SUB(reg) => sub_step(r, reg_value(r, reg), 0),
        Instruction::SUBI(x) => sub_step(r, x, 0),
        Instruction::SBC(reg) => sub_step(r, reg_value(r, reg), carry_bit(r.f.carry)),
        Instruction::SBCI(x) => sub_step(r, x, carry_bit(r.f.carry)),
        _ => r,
    }
}

/// The instruction is one of the implemented addition forms.
pub open spec fn is_addition(instruction: Instruction) -> bool {
    instruction matches Instruction::ADD(_) || instruction matches Instruction::ADDI(_)
        || instruction matches Instruction::ADC(_) || instruction matches Instruction::ADCI(_)
}

/// The instruction is one of the implemented subtraction forms.
pub open spec fn is_subtraction(instruction: Instruction) -> bool {
    instruction matches Instruction::SUB(_) || instruction matches Instruction::SUBI(_)
        || instruction matches Instruction::SBC(_) || instruction matches Instruction::SBCI(_)
}

/// The instruction is one the engine implements; everything else is a
/// deliberate no-op.
pub open spec fn is_implemented(instruction: Instruction) -> bool {
    is_addition(instruction) || is_subtraction(instruction)
}

/// The execution engine: owns the register file and applies one decoded
/// instruction at a time to it.
pub struct CPU {
    pub registers: Registers,
}

impl CPU {
    pub fn new() -> (cpu: Self)
        ensures
            cpu.registers == initial_registers(),
    {
        CPU { registers: Registers::new() }
    }

    /// Applies one instruction to the register file. The whole effect is
    /// the `step` transition; no instruction fails.
    pub fn execute(&mut self, instruction: Instruction)
        ensures
            final (self).registers == step(old(self).registers, instruction),
    {
        match instruction {
            Instruction::ADD(reg) => {
                self.execute_add_reg(reg);
            },
            Instruction::ADDI(immediate) => {
                self.execute_add_immediate(immediate);
            },
            Instruction::ADC(reg) => {
                self.execute_adc_reg(reg);
            },
            Instruction::ADCI(immediate) => {
                self.execute_adc_immediate(immediate);
            },
            Instruction::SUB(reg) => {
                self.execute_sub_reg(reg);
            },
            Instruction::SUBI(immediate) => {
                self.execute_sub_immediate(immediate);
            },
            Instruction::SBC(reg) => {
                self.execute_sbc_reg(reg);
            },
            Instruction::SBCI(immediate) => {
                self.execute_sbc_immediate(immediate);
            },
            _ => {
                // Instructions outside the implemented arithmetic families
                // are accepted and deliberately leave the state unchanged.
            },
        }
    }

    pub fn execute_add_reg(&mut self, source: ArithmeticRegisters)
        ensures
            final (self).registers == add_step(
                old(self).registers,
                reg_value(old(self).registers, source),
                0,
            ),
    {
        let source_value = self.registers.load(source);
        self.execute_add_immediate(source_value);
    }

    pub fn execute_add_immediate(&mut self, immediate: u8)
        ensures
            final (self).registers == add_step(old(self).registers, immediate, 0),
    {
        let a = self.registers.a;
        let new_value = a.wrapping_add(immediate);
        let overflow = (a as u16) + (immediate as u16) > 255;
        proof {
            assert(a & 0xF <= 0xF) by (bit_vector);
            assert(immediate & 0xF <= 0xF) by (bit_vector);
        }
        self.registers.f.zero = new_value == 0;
        self.registers.f.substraction = false;
        self.registers.f.half_carry = (a & 0xF) + (immediate & 0xF) > 0xF;
        self.registers.f.carry = overflow;
        self.registers.a = new_value;
    }

    /// Reserved for memory-indirect addition; inert until a memory bus
    /// collaborator exists.
    pub fn execute_add_relative(&mut self, _source: ArithmeticRegisters)
        ensures
            *final (self) == *old(self),
    {
    }

    pub fn execute_adc_reg(&mut self, source: ArithmeticRegisters)
        ensures
            final (self).registers == add_step(
                old(self).registers,
                reg_value(old(self).registers, source),
                carry_bit(old(self).registers.f.carry),
            ),
    {
        let source_value = self.registers.load(source);
        self.execute_adc_immediate(source_value);
    }

    pub fn execute_adc_immediate(&mut self, immediate: u8)
        ensures
            final (self).registers == add_step(
                old(self).registers,
                immediate,
                carry_bit(old(self).registers.f.carry),
            ),
    {
        let a = self.registers.a;
        let carry_in: u8 = if self.registers.f.carry {
            1
        } else {
            0
        };
        let partial = a.wrapping_add(immediate);
        let overflow_1 = (a as u16) + (immediate as u16) > 255;
        let new_value = partial.wrapping_add(carry_in);
        let overflow_2 = (partial as u16) + (carry_in as u16) > 255;
        proof {
            assert(a & 0xF <= 0xF) by (bit_vector);
            assert(immediate & 0xF <= 0xF) by (bit_vector);
        }
        self.registers.f.zero = new_value == 0;
        self.registers.f.substraction = false;
        self.registers.f.half_carry = (a & 0xF) + (immediate & 0xF) + carry_in > 0xF;
        self.registers.f.carry = overflow_1 || overflow_2;
        self.registers.a = new_value;
    }

    /// Reserved for memory-indirect addition with carry; inert until a
    /// memory bus collaborator exists.
    pub fn execute_adc_relative(&mut self, _source: ArithmeticRegisters)
        ensures
            *final (self) == *old(self),
    {
    }

    pub fn execute_sub_reg(&mut self, source: ArithmeticRegisters)
        ensures
            final (self).registers == sub_step(
                old(self).registers,
                reg_value(old(self).registers, source),
                0,
            ),
    {
        let source_value = self.registers.load(source);
        self.execute_sub_immediate(source_value);
    }

    pub fn execute_sub_immediate(&mut self, immediate: u8)
        ensures
            final (self).registers == sub_step(old(self).registers, immediate, 0),
    {
        let a = self.registers.a;
        let new_value = a.wrapping_sub(immediate);
        let underflow = a < immediate;
        proof {
            assert(a & 0xF <= 0xF) by (bit_vector);
            assert(immediate & 0xF <= 0xF) by (bit_vector);
        }
        self.registers.f.zero = new_value == 0;
        self.registers.f.substraction = true;
        self.registers.f.half_carry = (a & 0xF) + (immediate & 0xF) > 0xF;
        self.registers.f.carry = underflow;
        self.registers.a = new_value;
    }

    /// Reserved for memory-indirect subtraction; inert until a memory bus
    /// collaborator exists.
    pub fn execute_sub_relative(&mut self, _source: ArithmeticRegisters)
        ensures
            *final (self) == *old(self),
    {
    }

    pub fn execute_sbc_reg(&mut self, source: ArithmeticRegisters)
        ensures
            final (self).registers == sub_step(
                old(self).registers,
                reg_value(old(self).registers, source),
                carry_bit(old(self).registers.f.carry),
            ),
    {
        let source_value = self.registers.load(source);
        self.execute_sbc_immediate(source_value);
    }

    pub fn execute_sbc_immediate(&mut self, immediate: u8)
        ensures
            final (self).registers == sub_step(
                old(self).registers,
                immediate,
                carry_bit(old(self).registers.f.carry),
            ),
    {
        let a = self.registers.a;
        let carry_in: u8 = if self.registers.f.carry {
            1
        } else {
            0
        };
        let partial = a.wrapping_sub(immediate);
        let underflow_1 = a < immediate;
        let new_value = partial.wrapping_sub(carry_in);
        let underflow_2 = partial < carry_in;
        proof {
            assert(a & 0xF <= 0xF) by (bit_vector);
            assert(immediate & 0xF <= 0xF) by (bit_vector);
        }
        self.registers.f.zero = new_value == 0;
        self.registers.f.substraction = true;
        self.registers.f.half_carry = (a & 0xF) + (immediate & 0xF) + carry_in > 0xF;
        self.registers.f.carry = underflow_1 || underflow_2;
        self.registers.a = new_value;
    }

    /// Reserved for memory-indirect subtraction with carry; inert until a
    /// memory bus collaborator exists.
    pub fn execute_scb_relative(&mut self, _source: ArithmeticRegisters)
        ensures
            *final (self) == *old(self),
    {
    }
}

/// Executing an instruction the engine does not implement leaves every
/// register and every flag exactly as it was.
pub proof fn lemma_unimplemented_is_noop(r: Registers, instruction: Instruction)
    requires
        !is_implemented(instruction),
    ensures
        step(r, instruction) == r,
{
}

/// Addition forms always clear the subtraction flag; subtraction forms
/// always set it, whatever the operands.
pub proof fn lemma_subtraction_flag(r: Registers, instruction: Instruction)
    ensures
        is_addition(instruction) ==> !step(r, instruction).f.substraction,
        is_subtraction(instruction) ==> step(r, instruction).f.substraction,
{
}

/// A register-form instruction behaves exactly as the immediate form
/// carrying the value that register holds: the immediate handlers are the
/// single source of truth for each family's arithmetic and flags.
pub proof fn lemma_register_form_matches_immediate(r: Registers, reg: ArithmeticRegisters)
    ensures
        step(r, Instruction::ADD(reg)) == step(r, Instruction::ADDI(reg_value(r, reg))),
        step(r, Instruction::ADC(reg)) == step(r, Instruction::ADCI(reg_value(r, reg))),
        step(r, Instruction::SUB(reg)) == step(r, Instruction::SUBI(reg_value(r, reg))),
        step(r, Instruction::SBC(reg)) == step(r, Instruction::SBCI(reg_value(r, reg))),
{
}

} // verus!
