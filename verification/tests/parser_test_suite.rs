use balsapop::ast::Float;
use balsapop::digits::Radix;
use balsapop::float_literal::{parse_float_exponent, parse_float_literal, parse_plus_or_minus_sign};
use balsapop::integer::{fold_integer_literal, parse_digit_or_underscore, parse_radix_literal};
use balsapop::parser_errors::InternalParserError;

/// The number that a literal denotes, as the standard library reads its
/// decimal notation.
fn value_of(literal: &Float) -> f64 {
    match literal {
        Float::F32 { decimal } => decimal.parse::<f32>().unwrap() as f64,
        Float::F64 { decimal } => decimal.parse::<f64>().unwrap(),
    }
}

#[test]
fn test_parse_string_literals() {
}

#[test]
fn test_parse_integer_literals() {
    assert_eq!(
        fold_integer_literal("0x_____u8").map(|literal| literal.magnitude),
        Ok(0x0)
    );
    assert_eq!(
        fold_integer_literal("0X_____u16").map(|literal| literal.magnitude),
        Ok(0x0)
    );
    assert_eq!(
        fold_integer_literal("0x_1_2_3_4_5_6_7_u32").map(|literal| literal.magnitude),
        Ok(0x1234567)
    );
    assert_eq!(
        fold_integer_literal("0X_1_2_3_4_5_6_7_u64").map(|literal| literal.magnitude),
        Ok(0x1234567)
    );
    assert_eq!(
        fold_integer_literal("0x_a_b_c_d_e_f_u128").map(|literal| literal.magnitude),
        Ok(0xabcdef)
    );
    assert_eq!(
        fold_integer_literal("0X_a_b_c_d_e_f_usize").map(|literal| literal.magnitude),
        Ok(0xabcdef)
    );
    assert_eq!(
        fold_integer_literal("0x_A_B_C_D_E_F_i8").map(|literal| literal.magnitude),
        Ok(0xABCDEF)
    );
    assert_eq!(
        fold_integer_literal("0XA_B_C_D_E_F_i16").map(|literal| literal.magnitude),
        Ok(0xABCDEF)
    );
    assert_eq!(fold_integer_literal("22i32").map(|literal| literal.magnitude), Ok(22));
    assert_eq!(fold_integer_literal("0i64").map(|literal| literal.magnitude), Ok(0));
    assert_eq!(
        fold_integer_literal("1_2_3_i128").map(|literal| literal.magnitude),
        Ok(123)
    );
    assert_eq!(
        fold_integer_literal("1_000isize").map(|literal| literal.magnitude),
        Ok(1_000)
    );
    assert_eq!(
        fold_integer_literal("1_234_567u8").map(|literal| literal.magnitude),
        Ok(1_234_567)
    );
    assert_eq!(
        fold_integer_literal("1_234_567_890u16").map(|literal| literal.magnitude),
        Ok(1_234_567_890)
    );
    assert_eq!(
        fold_integer_literal("9_876_543_210u32").map(|literal| literal.magnitude),
        Ok(9_876_543_210)
    );
    assert_eq!(
        fold_integer_literal("1_234_567_890_123_456_789_123_456_789u64").map(|literal| literal.magnitude),
        Ok(1_234_567_890_123_456_789_123_456_789)
    );
    assert_eq!(
        fold_integer_literal("9_876_543_210_987_654_321_987_654_321u128").map(|literal| literal.magnitude),
        Ok(9_876_543_210_987_654_321_987_654_321)
    );
    assert_eq!(
        fold_integer_literal("0o_____usize").map(|literal| literal.magnitude),
        Ok(0o0)
    );
    assert_eq!(
        fold_integer_literal("0O_____i8").map(|literal| literal.magnitude),
        Ok(0o0)
    );
    assert_eq!(
        fold_integer_literal("0o_1_2_3_4_5_6_7_i16").map(|literal| literal.magnitude),
        Ok(0o1234567)
    );
    assert_eq!(
        fold_integer_literal("0O_1_2_3_4_5_6_7_i32").map(|literal| literal.magnitude),
        Ok(0o1234567)
    );
    assert_eq!(
        fold_integer_literal("0o70i64").map(|literal| literal.magnitude),
        Ok(0o70)
    );
    assert_eq!(
        fold_integer_literal("0O70i128").map(|literal| literal.magnitude),
        Ok(0o70)
    );
    assert!(fold_integer_literal("0o8isize").map(|literal| literal.magnitude)
        .is_err());
    assert_eq!(
        fold_integer_literal("0b_____u8").map(|literal| literal.magnitude),
        Ok(0b0)
    );
    assert_eq!(
        fold_integer_literal("0B_____u16").map(|literal| literal.magnitude),
        Ok(0b0)
    );
    assert_eq!(
        fold_integer_literal("0b_1_0_1_0_1_0_1_0_u32").map(|literal| literal.magnitude),
        Ok(0b10101010)
    );
    assert_eq!(
        fold_integer_literal("0B_1_0_1_0_1_0_1_0_u64").map(|literal| literal.magnitude),
        Ok(0b10101010)
    );
    assert_eq!(
        fold_integer_literal("0b1111_1111_1001_0000_u128").map(|literal| literal.magnitude),
        Ok(0b1111_1111_1001_0000)
    );
    assert_eq!(
        fold_integer_literal("0B1111_1111_1001_0000_usize").map(|literal| literal.magnitude),
        Ok(0b1111_1111_1001_0000)
    );

    assert_eq!(
        parse_radix_literal(Radix::Hexadecimal, "0x_____"),
        Ok(0x0)
    );
    assert_eq!(
        parse_radix_literal(Radix::Hexadecimal, "0X_____"),
        Ok(0x0)
    );
    assert_eq!(
        parse_radix_literal(Radix::Hexadecimal, "0x_1_2_3_4_5_6_7_"),
        Ok(0x1234567)
    );
    assert_eq!(
        parse_radix_literal(Radix::Hexadecimal, "0X_1_2_3_4_5_6_7_"),
        Ok(0x1234567)
    );
    assert_eq!(
        parse_radix_literal(Radix::Hexadecimal, "0x_a_b_c_d_e_f_"),
        Ok(0xabcdef)
    );
    assert_eq!(
        parse_radix_literal(Radix::Hexadecimal, "0X_a_b_c_d_e_f_"),
        Ok(0xabcdef)
    );
    assert_eq!(
        parse_radix_literal(Radix::Hexadecimal, "0x_A_B_C_D_E_F_"),
        Ok(0xABCDEF)
    );
    assert_eq!(
        parse_radix_literal(Radix::Hexadecimal, "0X_A_B_C_D_E_F_"),
        Ok(0xABCDEF)
    );
    assert!(parse_radix_literal(Radix::Hexadecimal, "0xG")
        .is_err());

    assert_eq!(parse_radix_literal(Radix::Decimal, "22"), Ok(22));
    assert_eq!(parse_radix_literal(Radix::Decimal, "0"), Ok(0));
    assert_eq!(parse_radix_literal(Radix::Decimal, "1_2_3_"), Ok(123));
    assert_eq!(
        parse_radix_literal(Radix::Decimal, "1_000"),
        Ok(1_000)
    );
    assert_eq!(
        parse_radix_literal(Radix::Decimal, "1_234_567"),
        Ok(1_234_567)
    );
    assert_eq!(
        parse_radix_literal(Radix::Decimal, "1_234_567_890"),
        Ok(1_234_567_890)
    );
    assert_eq!(
        parse_radix_literal(Radix::Decimal, "9_876_543_210"),
        Ok(9_876_543_210)
    );
    assert_eq!(
        parse_radix_literal(Radix::Decimal, "1_234_567_890_123_456_789_123_456_789"),
        Ok(1_234_567_890_123_456_789_123_456_789)
    );
    assert_eq!(
        parse_radix_literal(Radix::Decimal, "9_876_543_210_987_654_321_987_654_321"),
        Ok(9_876_543_210_987_654_321_987_654_321)
    );

    assert_eq!(parse_radix_literal(Radix::Octal, "0o_____"), Ok(0o0));
    assert_eq!(parse_radix_literal(Radix::Octal, "0O_____"), Ok(0o0));
    assert_eq!(
        parse_radix_literal(Radix::Octal, "0o_1_2_3_4_5_6_7_"),
        Ok(0o1234567)
    );
    assert_eq!(
        parse_radix_literal(Radix::Octal, "0O_1_2_3_4_5_6_7_"),
        Ok(0o1234567)
    );
    assert_eq!(parse_radix_literal(Radix::Octal, "0o70"), Ok(0o70));
    assert_eq!(parse_radix_literal(Radix::Octal, "0O70"), Ok(0o70));
    assert!(parse_radix_literal(Radix::Octal, "0o8").is_err());

    assert_eq!(parse_radix_literal(Radix::Binary, "0b_____"), Ok(0b0));
    assert_eq!(parse_radix_literal(Radix::Binary, "0B_____"), Ok(0b0));
    assert_eq!(
        parse_radix_literal(Radix::Binary, "0b________1"),
        Ok(0b1)
    );
    assert_eq!(
        parse_radix_literal(Radix::Binary, "0B________1"),
        Ok(0b1)
    );
    assert_eq!(
        parse_radix_literal(Radix::Binary, "0b1111_1111_1001_0000"),
        Ok(0b1111_1111_1001_0000)
    );
    assert_eq!(
        parse_radix_literal(Radix::Binary, "0B1111_1111_1001_0000"),
        Ok(0b1111_1111_1001_0000)
    );
    assert_eq!(
        parse_radix_literal(Radix::Binary, "0b_0_1_1_0_1_1_0_0_1_0_0_0_0_0_0_0_"),
        Ok(0b0110_1100_1000_0000)
    );
    assert!(parse_radix_literal(Radix::Binary, "0b2").is_err());

    assert_eq!(
        parse_digit_or_underscore(Radix::Hexadecimal, "0")
            .unwrap(),
        '0'
    );
    assert_eq!(
        parse_digit_or_underscore(Radix::Hexadecimal, "1")
            .unwrap(),
        '1'
    );
    assert_eq!(
        parse_digit_or_underscore(Radix::Hexadecimal, "2")
            .unwrap(),
        '2'
    );
    assert_eq!(
        parse_digit_or_underscore(Radix::Hexadecimal, "3")
            .unwrap(),
        '3'
    );
    assert_eq!(
        parse_digit_or_underscore(Radix::Hexadecimal, "4")
            .unwrap(),
        '4'
    );
    assert_eq!(
        parse_digit_or_underscore(Radix::Hexadecimal, "5")
            .unwrap(),
        '5'
    );
    assert_eq!(
        parse_digit_or_underscore(Radix::Hexadecimal, "6")
            .unwrap(),
        '6'
    );
    assert_eq!(
        parse_digit_or_underscore(Radix::Hexadecimal, "7")
            .unwrap(),
        '7'
    );
    assert_eq!(
        parse_digit_or_underscore(Radix::Hexadecimal, "8")
            .unwrap(),
        '8'
    );
    assert_eq!(
        parse_digit_or_underscore(Radix::Hexadecimal, "9")
            .unwrap(),
        '9'
    );
    assert_eq!(
        parse_digit_or_underscore(Radix::Hexadecimal, "a")
            .unwrap(),
        'a'
    );
    assert_eq!(
        parse_digit_or_underscore(Radix::Hexadecimal, "b")
            .unwrap(),
        'b'
    );
    assert_eq!(
        parse_digit_or_underscore(Radix::Hexadecimal, "c")
            .unwrap(),
        'c'
    );
    assert_eq!(
        parse_digit_or_underscore(Radix::Hexadecimal, "d")
            .unwrap(),
        'd'
    );
    assert_eq!(
        parse_digit_or_underscore(Radix::Hexadecimal, "e")
            .unwrap(),
        'e'
    );
    assert_eq!(
        parse_digit_or_underscore(Radix::Hexadecimal, "f")
            .unwrap(),
        'f'
    );
    assert_eq!(
        parse_digit_or_underscore(Radix::Hexadecimal, "A")
            .unwrap(),
        'A'
    );
    assert_eq!(
        parse_digit_or_underscore(Radix::Hexadecimal, "B")
            .unwrap(),
        'B'
    );
    assert_eq!(
        parse_digit_or_underscore(Radix::Hexadecimal, "C")
            .unwrap(),
        'C'
    );
    assert_eq!(
        parse_digit_or_underscore(Radix::Hexadecimal, "D")
            .unwrap(),
        'D'
    );
    assert_eq!(
        parse_digit_or_underscore(Radix::Hexadecimal, "E")
            .unwrap(),
        'E'
    );
    assert_eq!(
        parse_digit_or_underscore(Radix::Hexadecimal, "F")
            .unwrap(),
        'F'
    );

    assert_eq!(
        parse_digit_or_underscore(Radix::Decimal, "0"),
        Ok('0')
    );
    assert_eq!(
        parse_digit_or_underscore(Radix::Decimal, "1"),
        Ok('1')
    );
    assert_eq!(
        parse_digit_or_underscore(Radix::Decimal, "2"),
        Ok('2')
    );
    assert_eq!(
        parse_digit_or_underscore(Radix::Decimal, "3"),
        Ok('3')
    );
    assert_eq!(
        parse_digit_or_underscore(Radix::Decimal, "4"),
        Ok('4')
    );
    assert_eq!(
        parse_digit_or_underscore(Radix::Decimal, "5"),
        Ok('5')
    );
    assert_eq!(
        parse_digit_or_underscore(Radix::Decimal, "6"),
        Ok('6')
    );
    assert_eq!(
        parse_digit_or_underscore(Radix::Decimal, "7"),
        Ok('7')
    );
    assert_eq!(
        parse_digit_or_underscore(Radix::Decimal, "8"),
        Ok('8')
    );
    assert_eq!(
        parse_digit_or_underscore(Radix::Decimal, "9"),
        Ok('9')
    );
    assert_eq!(
        parse_digit_or_underscore(Radix::Decimal, "_"),
        Ok('_')
    );

    assert_eq!(
        parse_digit_or_underscore(Radix::Octal, "0"),
        Ok('0')
    );
    assert_eq!(
        parse_digit_or_underscore(Radix::Octal, "1"),
        Ok('1')
    );
    assert_eq!(
        parse_digit_or_underscore(Radix::Octal, "2"),
        Ok('2')
    );
    assert_eq!(
        parse_digit_or_underscore(Radix::Octal, "3"),
        Ok('3')
    );
    assert_eq!(
        parse_digit_or_underscore(Radix::Octal, "4"),
        Ok('4')
    );
    assert_eq!(
        parse_digit_or_underscore(Radix::Octal, "5"),
        Ok('5')
    );
    assert_eq!(
        parse_digit_or_underscore(Radix::Octal, "6"),
        Ok('6')
    );
    assert_eq!(
        parse_digit_or_underscore(Radix::Octal, "7"),
        Ok('7')
    );
    assert_eq!(
        parse_digit_or_underscore(Radix::Octal, "_"),
        Ok('_')
    );

    assert_eq!(
        parse_digit_or_underscore(Radix::Binary, "0"),
        Ok('0')
    );
    assert_eq!(
        parse_digit_or_underscore(Radix::Binary, "1"),
        Ok('1')
    );
    assert_eq!(
        parse_digit_or_underscore(Radix::Binary, "_"),
        Ok('_')
    );
}

#[test]
fn test_parse_float_literals() {
    assert_eq!(parse_float_literal("22.0").map(|literal| value_of(&literal)), Ok(22.0));
    assert_eq!(
        parse_float_literal("22.0e+1").map(|literal| value_of(&literal)),
        Ok(22.0e+1)
    );
    assert_eq!(
        parse_float_literal("1234.5e-6").map(|literal| value_of(&literal)),
        Ok(1234.5e-6)
    );
    assert_eq!(
        parse_float_literal("12E+99_").map(|literal| value_of(&literal)),
        Ok(12E+99)
    );
    assert_eq!(parse_float_literal("12.").map(|literal| value_of(&literal)), Ok(12.0));

    assert_eq!(
        parse_float_exponent("e+_"),
        Err(InternalParserError::InvalidFloatExponent)
    );
    assert_eq!(
        parse_float_exponent("E-_"),
        Err(InternalParserError::InvalidFloatExponent)
    );

    assert_eq!(
        parse_float_exponent("e+3"),
        Ok(String::from("e+3"))
    );
    assert_eq!(
        parse_float_exponent("E-3"),
        Ok(String::from("E-3"))
    );
    assert_eq!(
        parse_float_exponent("e+123"),
        Ok(String::from("e+123"))
    );
    assert_eq!(
        parse_float_exponent("E-123"),
        Ok(String::from("E-123"))
    );
    assert_eq!(
        parse_float_exponent("e+_0_1_2_3_4_5_6_7_8_9"),
        Ok(String::from("e+_0_1_2_3_4_5_6_7_8_9"))
    );
    assert_eq!(
        parse_float_exponent("E-_0_1_2_3_4_5_6_7_8_9"),
        Ok(String::from("E-_0_1_2_3_4_5_6_7_8_9"))
    );
    assert!(parse_float_exponent("e+").is_err());

    assert_eq!(parse_plus_or_minus_sign("+"), Ok('+'));
    assert_eq!(parse_plus_or_minus_sign("-"), Ok('-'));
}
