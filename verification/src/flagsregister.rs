use vstd::prelude::*;

verus! {

pub const ZERO_FLAG_POSITION: u8 = 7;
pub const OPERATION_FLAG_POSITION: u8 = 6;
pub const HALF_CARRY_FLAG_POSITION: u8 = 5;
pub const CARRY_FLAG_POSITION: u8 = 4;

/// The four status flags of the processor, recomputed by every arithmetic
/// instruction.
pub struct FlagsRegister {
    pub zero: bool,
    pub substraction: bool,
    pub half_carry: bool,
    pub carry: bool,
}

/// The byte encoding of the flags: zero at bit 7, subtraction at bit 6,
/// half-carry at bit 5, carry at bit 4; the low nibble is always zero.
pub open spec fn flags_to_byte(f: FlagsRegister) -> u8 {
    ((if f.zero {
        128int
    } else {
        0int
    }) + (if f.substraction {
        64int
    } else {
        0int
    }) + (if f.half_carry {
        32int
    } else {
        0int
    }) + (if f.carry {
        16int
    } else {
        0int
    })) as u8
}

/// The flags read back from a byte: each field is the bit at its position;
/// the low nibble is ignored.
pub open spec fn byte_to_flags(b: u8) -> FlagsRegister {
    FlagsRegister {
        zero: b / 128 % 2 == 1,
        substraction: b / 64 % 2 == 1,
        half_carry: b / 32 % 2 == 1,
        carry: b / 16 % 2 == 1,
    }
}

impl FlagsRegister {
    pub fn new() -> (r: Self)
        ensures
            !r.zero,
            !r.substraction,
            !r.half_carry,
            !r.carry,
    {
        FlagsRegister { zero: false, substraction: false, half_carry: false, carry: false }
    }
}

impl Default for FlagsRegister {
    fn default() -> (r: Self)
        ensures
            !r.zero,
            !r.substraction,
            !r.half_carry,
            !r.carry,
    {
        FlagsRegister::new()
    }
}

impl vstd::std_specs::convert::FromSpecImpl<FlagsRegister> for u8 {
    open spec fn obeys_from_spec() -> bool {
        true
    }

    open spec fn from_spec(flag: FlagsRegister) -> u8 {
        flags_to_byte(flag)
    }
}

impl core::convert::From<FlagsRegister> for u8 {
    fn from(flag: FlagsRegister) -> (byte: u8)
        ensures
            byte == flags_to_byte(flag),
    {
        let byte = (if flag.zero {
            1u8
        } else {
            0u8
        }) << ZERO_FLAG_POSITION | (if flag.substraction {
            1u8
        } else {
            0u8
        }) << OPERATION_FLAG_POSITION | (if flag.half_carry {
            1u8
        } else {
            0u8
        }) << HALF_CARRY_FLAG_POSITION | (if flag.carry {
            1u8
        } else {
            0u8
        }) << CARRY_FLAG_POSITION;
        proof {
            let zb: u8 = if flag.zero { 1 } else { 0 };
            let sb: u8 = if flag.substraction { 1 } else { 0 };
            let hb: u8 = if flag.half_carry { 1 } else { 0 };
            let cb: u8 = if flag.carry { 1 } else { 0 };
            assert((zb << 7) | (sb << 6) | (hb << 5) | (cb << 4) == (128 * zb + 64 * sb + 32 * hb
                + 16 * cb) as u8) by (bit_vector)
                requires
                    zb <= 1,
                    sb <= 1,
                    hb <= 1,
                    cb <= 1,
            ;
        }
        byte
    }
}

impl vstd::std_specs::convert::FromSpecImpl<u8> for FlagsRegister {
    open spec fn obeys_from_spec() -> bool {
        true
    }

    open spec fn from_spec(byte: u8) -> FlagsRegister {
        byte_to_flags(byte)
    }
}

impl core::convert::From<u8> for FlagsRegister {
    fn from(byte: u8) -> (r: Self)
        ensures
            r == byte_to_flags(byte),
    {
        let r = FlagsRegister {
            zero: (byte >> ZERO_FLAG_POSITION) & 1 != 0,
            substraction: (byte >> OPERATION_FLAG_POSITION) & 1 != 0,
            half_carry: (byte >> HALF_CARRY_FLAG_POSITION) & 1 != 0,
            carry: (byte >> CARRY_FLAG_POSITION) & 1 != 0,
        };
        proof {
            assert(((byte >> 7) & 1 != 0) == (byte / 128 % 2 == 1)) by (bit_vector);
            assert(((byte >> 6) & 1 != 0) == (byte / 64 % 2 == 1)) by (bit_vector);
            assert(((byte >> 5) & 1 != 0) == (byte / 32 % 2 == 1)) by (bit_vector);
            assert(((byte >> 4) & 1 != 0) == (byte / 16 % 2 == 1)) by (bit_vector);
        }
        r
    }
}

/// Decoding the byte an arbitrary flags value encodes to gives back that
/// value: the encoding is lossless.
pub proof fn lemma_decode_encode(f: FlagsRegister)
    ensures
        byte_to_flags(flags_to_byte(f)) == f,
{
    let zb: u8 = if f.zero { 1 } else { 0 };
    let sb: u8 = if f.substraction { 1 } else { 0 };
    let hb: u8 = if f.half_carry { 1 } else { 0 };
    let cb: u8 = if f.carry { 1 } else { 0 };
    let b: u8 = (128 * zb + 64 * sb + 32 * hb + 16 * cb) as u8;
    assert(b / 128 % 2 == zb && b / 64 % 2 == sb && b / 32 % 2 == hb && b / 16 % 2 == cb)
        by (bit_vector)
        requires
            zb <= 1,
            sb <= 1,
            hb <= 1,
            cb <= 1,
            b == (128 * zb + 64 * sb + 32 * hb + 16 * cb) as u8,
    ;
}

/// Encoding the flags an arbitrary byte decodes to gives back the byte's
/// high nibble: only the four flag bits carry information.
pub proof fn lemma_encode_decode(b: u8)
    ensures
        flags_to_byte(byte_to_flags(b)) == b & 0xF0,
{
    assert(((if b / 128 % 2 == 1 {
        128int
    } else {
        0int
    }) + (if b / 64 % 2 == 1 {
        64int
    } else {
        0int
    }) + (if b / 32 % 2 == 1 {
        32int
    } else {
        0int
    }) + (if b / 16 % 2 == 1 {
        16int
    } else {
        0int
    })) as u8 == b & 0xF0) by (bit_vector);
}

} // verus!
