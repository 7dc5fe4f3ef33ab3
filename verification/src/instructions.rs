use vstd::prelude::*;

verus! {

/// The arithmetic instruction family. Each opcode comes in a register form,
/// an immediate form (suffix I) carrying the operand inline, and a reserved
/// memory-indirect form (suffix R) that stays inert until a memory bus
/// exists. AND, OR and XOR are recognized but not yet implemented by the
/// engine.
pub enum Instruction {
    ADD(ArithmeticRegisters),
    ADDI(u8),
    ADDR(),
    ADC(ArithmeticRegisters),
    ADCI(u8),
    ADCR(),
    SUB(ArithmeticRegisters),
    SUBI(u8),
    SUBR(),
    SBC(ArithmeticRegisters),
    SBCI(u8),
    SBCR(),
    AND(ArithmeticRegisters),
    ANDI(u8),
    ANDR(),
    OR(ArithmeticRegisters),
    ORI(u8),
    ORR(),
    XOR(ArithmeticRegisters),
    XORI(u8),
    XORR(),
}

/// The seven general-purpose registers an arithmetic operand can name.
pub enum ArithmeticRegisters {
    A,
    B,
    C,
    D,
    E,
    H,
    L,
}

} // verus!
