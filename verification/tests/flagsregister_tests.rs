use gb_cpu::flagsregister::{
    FlagsRegister, CARRY_FLAG_POSITION, HALF_CARRY_FLAG_POSITION, OPERATION_FLAG_POSITION,
    ZERO_FLAG_POSITION,
};

#[test]
fn test_convert_u8_to_flagsregister_with_all_flags_set() {
    let byte: u8 = (1 << ZERO_FLAG_POSITION)
        | (1 << OPERATION_FLAG_POSITION)
        | (1 << HALF_CARRY_FLAG_POSITION)
        | (1 << CARRY_FLAG_POSITION);
    let flag_reg = FlagsRegister::from(byte);

    assert_eq!(flag_reg.zero, true);
    assert_eq!(flag_reg.substraction, true);
    assert_eq!(flag_reg.half_carry, true);
    assert_eq!(flag_reg.carry, true);
}

#[test]
fn test_convert_u8_to_flagsregister_with_no_flags_set() {
    let byte: u8 = 0;
    let flag_reg = FlagsRegister::from(byte);

    assert_eq!(flag_reg.zero, false);
    assert_eq!(flag_reg.substraction, false);
    assert_eq!(flag_reg.half_carry, false);
    assert_eq!(flag_reg.carry, false);
}

#[test]
fn test_convert_flagsregister_to_u8_with_no_flags_set() {
    let flag_reg = FlagsRegister::new();

    let byte = u8::from(flag_reg);

    assert_eq!(byte, 0);
}

#[test]
fn test_convert_flagsregister_to_u8_with_all_flags_set() {
    let flag_reg = FlagsRegister {
        zero: true,
        substraction: true,
        half_carry: true,
        carry: true,
    };

    let byte = u8::from(flag_reg);

    let expected_byte: u8 = (1 << ZERO_FLAG_POSITION)
        | (1 << OPERATION_FLAG_POSITION)
        | (1 << HALF_CARRY_FLAG_POSITION)
        | (1 << CARRY_FLAG_POSITION);

    assert_eq!(byte, expected_byte);
}

#[test]
fn test_round_trip_all_flag_combinations() {
    for bits in 0u8..16 {
        let flags = FlagsRegister {
            zero: bits & 8 != 0,
            substraction: bits & 4 != 0,
            half_carry: bits & 2 != 0,
            carry: bits & 1 != 0,
        };
        let byte = u8::from(FlagsRegister {
            zero: flags.zero,
            substraction: flags.substraction,
            half_carry: flags.half_carry,
            carry: flags.carry,
        });
        let back = FlagsRegister::from(byte);
        assert_eq!(back.zero, flags.zero);
        assert_eq!(back.substraction, flags.substraction);
        assert_eq!(back.half_carry, flags.half_carry);
        assert_eq!(back.carry, flags.carry);
    }
}

#[test]
fn test_round_trip_every_byte_keeps_high_nibble() {
    for byte in 0u8..=255 {
        let flags = FlagsRegister::from(byte);
        let encoded = u8::from(flags);
        assert_eq!(encoded, byte & 0xF0);
    }
}

#[test]
fn test_single_flag_encodings() {
    let zero_only = FlagsRegister {
        zero: true,
        substraction: false,
        half_carry: false,
        carry: false,
    };
    assert_eq!(u8::from(zero_only), 0x80);

    let substraction_only = FlagsRegister {
        zero: false,
        substraction: true,
        half_carry: false,
        carry: false,
    };
    assert_eq!(u8::from(substraction_only), 0x40);

    let half_carry_only = FlagsRegister {
        zero: false,
        substraction: false,
        half_carry: true,
        carry: false,
    };
    assert_eq!(u8::from(half_carry_only), 0x20);

    let carry_only = FlagsRegister {
        zero: false,
        substraction: false,
        half_carry: false,
        carry: true,
    };
    assert_eq!(u8::from(carry_only), 0x10);
}

#[test]
fn test_decode_ignores_low_nibble() {
    let flags = FlagsRegister::from(0x9Fu8);
    assert_eq!(flags.zero, true);
    assert_eq!(flags.substraction, false);
    assert_eq!(flags.half_carry, false);
    assert_eq!(flags.carry, true);
}

#[test]
fn test_default_flags_are_all_clear() {
    let flags: FlagsRegister = Default::default();
    assert_eq!(flags.zero, false);
    assert_eq!(flags.substraction, false);
    assert_eq!(flags.half_carry, false);
    assert_eq!(flags.carry, false);
}
