use xchip::alu::{
    add_with_carry, decimal_digits_of, glyph_address_of, shift_left, shift_right,
    subtract_with_flag,
};

#[test]
fn add_matches_nine_bit_sum_for_every_pair() {
    for a in 0..=255u16 {
        for b in 0..=255u16 {
            let (result, flag) = add_with_carry(a as u8, b as u8);
            assert_eq!(result as u16, (a + b) % 256);
            assert_eq!(flag, if a + b > 255 { 1 } else { 0 });
        }
    }
}

#[test]
fn subtract_flag_is_strictly_greater_for_every_pair() {
    for a in 0..=255i32 {
        for b in 0..=255i32 {
            let (result, flag) = subtract_with_flag(a as u8, b as u8);
            assert_eq!(result as i32, (a - b).rem_euclid(256));
            assert_eq!(flag, if a > b { 1 } else { 0 });
        }
    }
}

#[test]
fn subtract_of_equal_values_clears_the_flag() {
    assert_eq!(subtract_with_flag(7, 7), (0, 0));
    assert_eq!(subtract_with_flag(0, 0), (0, 0));
    assert_eq!(subtract_with_flag(8, 7), (1, 1));
    assert_eq!(subtract_with_flag(7, 8), (255, 0));
}

#[test]
fn shifts_report_the_bit_dropped_for_every_value() {
    for a in 0..=255u16 {
        let (right, low) = shift_right(a as u8);
        assert_eq!(right as u16, a / 2);
        assert_eq!(low as u16, a % 2);
        let (left, high) = shift_left(a as u8);
        assert_eq!(left as u16, (a * 2) % 256);
        assert_eq!(high as u16, a / 128);
    }
}

#[test]
fn add_exact_values() {
    assert_eq!(add_with_carry(0x05, 0x0A), (0x0F, 0));
    assert_eq!(add_with_carry(0xFF, 0x01), (0x00, 1));
    assert_eq!(add_with_carry(0xFF, 0xFF), (0xFE, 1));
    assert_eq!(add_with_carry(0x80, 0x7F), (0xFF, 0));
}

#[test]
fn shift_exact_values() {
    assert_eq!(shift_right(0x05), (0x02, 1));
    assert_eq!(shift_right(0x04), (0x02, 0));
    assert_eq!(shift_left(0x81), (0x02, 1));
    assert_eq!(shift_left(0x41), (0x82, 0));
}

#[test]
fn glyph_address_is_five_bytes_per_digit() {
    assert_eq!(glyph_address_of(0x0), 0);
    assert_eq!(glyph_address_of(0x1), 5);
    assert_eq!(glyph_address_of(0xA), 50);
    assert_eq!(glyph_address_of(0xF), 75);
}

#[test]
fn glyph_address_wraps_at_eight_bits() {
    assert_eq!(glyph_address_of(51), 255);
    assert_eq!(glyph_address_of(52), 4);
    assert_eq!(glyph_address_of(255), 251);
}

#[test]
fn decimal_digits_exact_values() {
    assert_eq!(decimal_digits_of(0), (0, 0, 0));
    assert_eq!(decimal_digits_of(7), (0, 0, 7));
    assert_eq!(decimal_digits_of(42), (0, 4, 2));
    assert_eq!(decimal_digits_of(234), (2, 3, 4));
    assert_eq!(decimal_digits_of(255), (2, 5, 5));
}
