use cell_vm::alu::{
    compare_floats, compare_ints, decode_compare_mode, rank_float, Alu, AluCompareMode, AluMode,
    ArithmeticFault,
};
use cell_vm::bits::{bits_to_i32, bits_to_i64, i32_to_bits, i64_to_bits, split_words};

const ALL_MODES: [AluCompareMode; 6] = [
    AluCompareMode::Equal,
    AluCompareMode::NotEqual,
    AluCompareMode::GreaterThan,
    AluCompareMode::GreaterThanOrEqual,
    AluCompareMode::LesserThan,
    AluCompareMode::LesserThanOrEqual,
];

fn float_relation(mode: AluCompareMode, b: f32, a: f32) -> bool {
    match mode {
        AluCompareMode::Equal => b == a,
        AluCompareMode::NotEqual => b != a,
        AluCompareMode::GreaterThan => b > a,
        AluCompareMode::GreaterThanOrEqual => b >= a,
        AluCompareMode::LesserThan => b < a,
        AluCompareMode::LesserThanOrEqual => b <= a,
    }
}

#[test]
fn bit_reinterpretation_is_exact() {
    assert_eq!(bits_to_i32(0), 0);
    assert_eq!(bits_to_i32(0x7fff_ffff), i32::MAX);
    assert_eq!(bits_to_i32(0x8000_0000), i32::MIN);
    assert_eq!(bits_to_i32(0xffff_ffff), -1);
    assert_eq!(i32_to_bits(-1), 0xffff_ffff);
    assert_eq!(i32_to_bits(i32::MIN), 0x8000_0000);
    assert_eq!(i32_to_bits(i32::MAX), 0x7fff_ffff);
    assert_eq!(bits_to_i64(0xffff_ffff_ffff_fffe), -2);
    assert_eq!(bits_to_i64(0x8000_0000_0000_0000), i64::MIN);
    assert_eq!(i64_to_bits(-2), 0xffff_ffff_ffff_fffe);
    assert_eq!(i64_to_bits(i64::MIN), 0x8000_0000_0000_0000);
    assert_eq!(i64_to_bits(i64::MAX), 0x7fff_ffff_ffff_ffff);
    assert_eq!(split_words(0x1234_5678_9abc_def0), (0x1234_5678, 0x9abc_def0));
}

#[test]
fn bit_reinterpretation_round_trips() {
    for v in [0u32, 1, 42, 0x7fff_ffff, 0x8000_0000, 0x8000_0001, 0xffff_ffff, 0x7fc0_0000] {
        assert_eq!(i32_to_bits(bits_to_i32(v)), v);
        assert_eq!(bits_to_i32(v), v as i32);
    }
    for v in [0i32, 1, -1, i32::MIN, i32::MAX, 123_456, -123_456] {
        assert_eq!(bits_to_i32(i32_to_bits(v)), v);
        assert_eq!(i32_to_bits(v), v as u32);
    }
    for v in [0i64, -1, i64::MIN, i64::MAX, 1 << 40] {
        assert_eq!(bits_to_i64(i64_to_bits(v)), v);
        assert_eq!(i64_to_bits(v), v as u64);
    }
}

#[test]
fn new_alu_is_zero_in_int_mode() {
    let alu = Alu::new();
    assert_eq!(alu.mode, AluMode::Int);
    assert_eq!(alu.compare_mode, AluCompareMode::Equal);
    assert_eq!((alu.value_a_int, alu.value_b_int), (0, 0));
    assert_eq!((alu.value_a_float, alu.value_b_float), (0, 0));
    assert_eq!((alu.hi, alu.lo), (0, 0));
    assert!(!alu.compare_result);
}

#[test]
fn push_shifts_the_operands() {
    let mut alu = Alu::new();
    alu.push_value(7);
    alu.push_value(0xffff_fffe);
    assert_eq!((alu.value_a_int, alu.value_b_int), (-2, 7));
    assert_eq!((alu.value_a_float, alu.value_b_float), (0, 0));
    alu.mode_float_save_bits();
    alu.push_value(1.5f32.to_bits());
    assert_eq!(alu.value_a_float, 1.5f32.to_bits());
    assert_eq!(alu.value_b_float, 0xffff_fffe);
    assert_eq!((alu.value_a_int, alu.value_b_int), (-2, 7));
}

#[test]
fn integer_add_wraps() {
    let mut alu = Alu::new();
    alu.push_value(i32_to_bits(i32::MAX));
    alu.push_value(1);
    alu.hi = 5;
    alu.lo = 5;
    alu.add(99);
    assert_eq!(alu.hi, 0x8000_0000);
    assert_eq!(alu.lo, 0);
    alu.push_value(i32_to_bits(-5));
    alu.add(99);
    assert_eq!(bits_to_i32(alu.hi), -4);
}

#[test]
fn integer_multiply_splits_the_product() {
    let mut alu = Alu::new();
    alu.push_value(0x0001_0000);
    alu.push_value(0x0003_0000);
    alu.multiply(0);
    assert_eq!((alu.hi, alu.lo), (3, 0));
    alu.push_value(i32_to_bits(-1));
    alu.push_value(4);
    alu.multiply(0);
    assert_eq!((alu.hi, alu.lo), (0xffff_ffff, 0xffff_fffc));
    alu.push_value(i32_to_bits(i32::MIN));
    alu.push_value(i32_to_bits(i32::MIN));
    alu.multiply(0);
    assert_eq!((alu.hi, alu.lo), (0x4000_0000, 0));
    for (a, b) in [(123_456, -654_321), (i32::MAX, i32::MAX), (i32::MIN, i32::MAX), (0, -9)] {
        alu.push_value(i32_to_bits(b));
        alu.push_value(i32_to_bits(a));
        alu.multiply(0);
        let product = (a as i64 * b as i64) as u64;
        assert_eq!(alu.hi, (product >> 32) as u32);
        assert_eq!(alu.lo, product as u32);
    }
}

#[test]
fn integer_divide_rounds_toward_zero() {
    let cases = [(7, 2), (-7, 2), (7, -2), (-7, -2), (0, 5), (i32::MIN, 1), (i32::MIN, 2),
        (i32::MAX, -1), (i32::MIN, i32::MIN), (5, i32::MIN), (-1, 4), (6, 3)];
    for (a, b) in cases {
        let mut alu = Alu::new();
        alu.push_value(i32_to_bits(b));
        alu.push_value(i32_to_bits(a));
        assert_eq!(alu.divide(0), Ok(()));
        assert_eq!(bits_to_i32(alu.lo), a / b, "{} / {}", a, b);
        assert_eq!(bits_to_i32(alu.hi), a % b, "{} % {}", a, b);
    }
    let mut alu = Alu::new();
    alu.push_value(2);
    alu.push_value(i32_to_bits(-7));
    assert_eq!(alu.divide_int(), Ok(()));
    assert_eq!((alu.hi, alu.lo), (0xffff_ffff, 0xffff_fffd));
}

#[test]
fn integer_divide_faults_change_nothing() {
    let mut alu = Alu::new();
    alu.push_value(0);
    alu.push_value(9);
    alu.hi = 1;
    alu.lo = 2;
    let before = alu;
    assert_eq!(alu.divide(0), Err(ArithmeticFault::DivideByZero));
    assert_eq!(alu, before);
    let mut alu = Alu::new();
    alu.push_value(i32_to_bits(-1));
    alu.push_value(i32_to_bits(i32::MIN));
    let before = alu;
    assert_eq!(alu.divide(0), Err(ArithmeticFault::IntegerOverflow));
    assert_eq!(alu, before);
    assert_eq!(alu.divide_int(), Err(ArithmeticFault::IntegerOverflow));
}

#[test]
fn float_results_take_the_given_patterns() {
    let mut alu = Alu::new();
    alu.mode_float_save_bits();
    alu.push_value(1.0f32.to_bits());
    alu.push_value(0.0f32.to_bits());
    alu.add(0x1234_5678);
    assert_eq!((alu.hi, alu.lo), (0x1234_5678, 0));
    alu.multiply(0x0123_4567_89ab_cdef);
    assert_eq!((alu.hi, alu.lo), (0x0123_4567, 0x89ab_cdef));
    // a zero divisor is no fault in float mode
    assert_eq!(alu.divide(0x7f80_0000), Ok(()));
    assert_eq!((alu.hi, alu.lo), (0, 0x7f80_0000));
    alu.add_float(7);
    assert_eq!((alu.hi, alu.lo), (7, 0));
    alu.multiply_float(0xffff_ffff_0000_0001);
    assert_eq!((alu.hi, alu.lo), (0xffff_ffff, 1));
    alu.divide_float(9);
    assert_eq!((alu.hi, alu.lo), (0, 9));
}

#[test]
fn bitwise_operations_write_the_recent_operand() {
    let mut alu = Alu::new();
    alu.push_value(0b1100);
    alu.push_value(0b1010);
    alu.bitwise_or();
    assert_eq!((alu.value_a_int, alu.value_b_int), (0b1110, 0b1100));
    assert_eq!((alu.hi, alu.lo), (0, 0));
    alu.bitwise_and();
    assert_eq!((alu.value_a_int, alu.value_b_int), (0b1100, 0b1100));
    alu.push_value(i32_to_bits(-1));
    alu.push_value(0x0f0f_0f0f);
    alu.bitwise_and();
    assert_eq!(alu.value_a_int, 0x0f0f_0f0f);
    alu.bitwise_or();
    assert_eq!(alu.value_a_int, -1);
}

#[test]
fn shifts_take_the_count_modulo_32() {
    for (value, count) in [(1, 4), (-8, 1), (0x4000_0000, 1), (3, 31), (5, 32), (5, 33), (-16, -1),
        (i32::MIN, 31), (7, 0)] {
        let mut alu = Alu::new();
        alu.push_value(i32_to_bits(count));
        alu.push_value(i32_to_bits(value));
        alu.shift_left();
        assert_eq!(alu.value_a_int, value.wrapping_shl(count as u32), "{} << {}", value, count);
        assert_eq!(alu.value_b_int, count);
        let mut alu = Alu::new();
        alu.push_value(i32_to_bits(count));
        alu.push_value(i32_to_bits(value));
        alu.shift_right();
        assert_eq!(alu.value_a_int, value.wrapping_shr(count as u32), "{} >> {}", value, count);
    }
    let mut alu = Alu::new();
    alu.push_value(2);
    alu.push_value(i32_to_bits(-8));
    alu.shift_right();
    assert_eq!(alu.value_a_int, -2);
}

#[test]
fn mode_switch_by_bits_round_trips() {
    for bits in [0u32, 1, 0x3fc0_0000, 0x7fc0_0001, 0xffff_ffff, 0x8000_0000, 0x7f80_0000] {
        let mut alu = Alu::new();
        alu.push_value(bits);
        alu.push_value(!bits);
        let ints = (alu.value_a_int, alu.value_b_int);
        alu.mode_float_save_bits();
        assert_eq!(alu.mode, AluMode::Float);
        assert_eq!((alu.value_a_float, alu.value_b_float), (!bits, bits));
        alu.mode_int_save_bits();
        assert_eq!(alu.mode, AluMode::Int);
        assert_eq!((alu.value_a_int, alu.value_b_int), ints);
        alu.mode_float_save_bits();
        assert_eq!((alu.value_a_float, alu.value_b_float), (!bits, bits));
        assert_eq!(f32::from_bits(alu.value_b_float).to_bits(), bits);
    }
}

#[test]
fn mode_switch_by_value_converts_the_operands() {
    let mut alu = Alu::new();
    alu.push_value(3);
    alu.push_value(i32_to_bits(-4));
    alu.mode_float_save_value();
    assert_eq!(alu.mode, AluMode::Float);
    assert_eq!(f32::from_bits(alu.value_a_float), -4.0);
    assert_eq!(f32::from_bits(alu.value_b_float), 3.0);
    assert_eq!((alu.value_a_int, alu.value_b_int), (-4, 3));
    alu.push_value(2.75f32.to_bits());
    alu.mode_int_save_value();
    assert_eq!(alu.mode, AluMode::Int);
    assert_eq!((alu.value_a_int, alu.value_b_int), (2, -4));
    assert_eq!(alu.value_a_float, 2.75f32.to_bits());
    alu.push_value(i32_to_bits(16_777_217));
    alu.mode_float_save_value();
    assert_eq!(f32::from_bits(alu.value_a_float), 16_777_216.0);
    assert_eq!(f32::from_bits(alu.value_b_float), 2.0);
    alu.push_value(f32::NAN.to_bits());
    alu.push_value(1.0e30f32.to_bits());
    alu.mode_int_save_value();
    assert_eq!((alu.value_a_int, alu.value_b_int), (i32::MAX, 0));
}

#[test]
fn set_mode_picks_the_conversion() {
    let mut alu = Alu::new();
    alu.push_value(1);
    alu.push_value(2);
    alu.set_mode(AluMode::Float, true);
    assert_eq!(alu.mode, AluMode::Float);
    assert_eq!((alu.value_a_float, alu.value_b_float), (2, 1));
    alu.set_mode(AluMode::Float, false);
    assert_eq!((alu.value_a_float, alu.value_b_float), (2.0f32.to_bits(), 1.0f32.to_bits()));
    alu.push_value(5.5f32.to_bits());
    alu.set_mode(AluMode::Int, false);
    assert_eq!(alu.mode, AluMode::Int);
    assert_eq!((alu.value_a_int, alu.value_b_int), (5, 2));
    alu.set_mode(AluMode::Int, true);
    assert_eq!(alu.value_a_int, bits_to_i32(5.5f32.to_bits()));
    assert_eq!(alu.value_b_int, bits_to_i32(2.0f32.to_bits()));
    // switching to the mode the unit is in converts all the same
    alu.set_mode(AluMode::Int, true);
    assert_eq!(alu.value_a_int, bits_to_i32(5.5f32.to_bits()));
}

#[test]
fn compare_mode_decoding() {
    assert_eq!(decode_compare_mode(0), Some(AluCompareMode::Equal));
    assert_eq!(decode_compare_mode(1), Some(AluCompareMode::NotEqual));
    assert_eq!(decode_compare_mode(2), Some(AluCompareMode::GreaterThan));
    assert_eq!(decode_compare_mode(3), Some(AluCompareMode::GreaterThanOrEqual));
    assert_eq!(decode_compare_mode(4), Some(AluCompareMode::LesserThan));
    assert_eq!(decode_compare_mode(5), Some(AluCompareMode::LesserThanOrEqual));
    assert_eq!(decode_compare_mode(6), None);
    assert_eq!(decode_compare_mode(u32::MAX), None);
}

#[test]
fn integer_compare_puts_the_older_operand_on_the_left() {
    // b = 3 (older), a = 5 (recent): 3 REL 5
    let expected = [false, true, false, false, true, true];
    for (mode, want) in ALL_MODES.iter().zip(expected) {
        let mut alu = Alu::new();
        alu.push_value(3);
        alu.push_value(5);
        alu.compare_mode = *mode;
        alu.cmp();
        assert_eq!(alu.compare_result, want, "{:?}", mode);
        assert_eq!(compare_ints(*mode, 3, 5), want);
    }
    for mode in ALL_MODES {
        for (b, a) in [(i32::MIN, i32::MAX), (-1, 0), (4, 4), (i32::MAX, i32::MIN), (-5, -6)] {
            let want = match mode {
                AluCompareMode::Equal => b == a,
                AluCompareMode::NotEqual => b != a,
                AluCompareMode::GreaterThan => b > a,
                AluCompareMode::GreaterThanOrEqual => b >= a,
                AluCompareMode::LesserThan => b < a,
                AluCompareMode::LesserThanOrEqual => b <= a,
            };
            assert_eq!(compare_ints(mode, b, a), want);
            let mut alu = Alu::new();
            alu.push_value(i32_to_bits(b));
            alu.push_value(i32_to_bits(a));
            alu.compare_mode = mode;
            alu.cmp_int();
            assert_eq!(alu.compare_result, want);
        }
    }
}

#[test]
fn float_compare_follows_ieee_ordering() {
    let values = [
        0.0f32,
        -0.0,
        1.0,
        -1.0,
        1.5,
        f32::MIN_POSITIVE,
        -f32::MIN_POSITIVE,
        f32::from_bits(1),
        f32::from_bits(0x8000_0001),
        f32::MAX,
        f32::MIN,
        f32::INFINITY,
        f32::NEG_INFINITY,
        f32::NAN,
        f32::from_bits(0xffc0_0000),
        f32::from_bits(0x7f80_0001),
        f32::from_bits(0xffff_ffff),
        3.25e-20,
        -7.0e30,
    ];
    for mode in ALL_MODES {
        for b in values {
            for a in values {
                let want = float_relation(mode, b, a);
                assert_eq!(
                    compare_floats(mode, b.to_bits(), a.to_bits()),
                    want,
                    "{:?}: {} vs {}",
                    mode,
                    b,
                    a
                );
                let mut alu = Alu::new();
                alu.mode_float_save_bits();
                alu.push_value(b.to_bits());
                alu.push_value(a.to_bits());
                alu.compare_mode = mode;
                alu.cmp();
                assert_eq!(alu.compare_result, want);
                alu.compare_result = !want;
                alu.cmp_float();
                assert_eq!(alu.compare_result, want);
            }
        }
    }
}

#[test]
fn float_rank_orders_numbers_and_rejects_nan() {
    assert_eq!(rank_float(0), Some(0));
    assert_eq!(rank_float(0x8000_0000), Some(0));
    assert_eq!(rank_float(1.0f32.to_bits()), Some(0x3f80_0000));
    assert_eq!(rank_float((-1.0f32).to_bits()), Some(-0x3f80_0000));
    assert_eq!(rank_float(0x7f80_0000), Some(0x7f80_0000));
    assert_eq!(rank_float(0xff80_0000), Some(-0x7f80_0000));
    assert_eq!(rank_float(0x7f80_0001), None);
    assert_eq!(rank_float(0xff80_0001), None);
    assert_eq!(rank_float(0xffff_ffff), None);
    assert_eq!(rank_float(f32::NAN.to_bits()), None);
}

#[test]
fn compare_in_float_mode_ignores_the_integers() {
    let mut alu = Alu::new();
    alu.push_value(1);
    alu.push_value(2);
    alu.mode_float_save_bits();
    alu.push_value(2.0f32.to_bits());
    alu.push_value(2.0f32.to_bits());
    alu.compare_mode = AluCompareMode::Equal;
    alu.cmp();
    assert!(alu.compare_result);
    alu.cmp_int();
    assert!(!alu.compare_result);
}
