//! Arithmetic of the register file: eight-bit results together with the flag
//! that each operation leaves in register `F`.

use vstd::prelude::*;

verus! {

/// Low eight bits of `a + b`.
pub open spec fn sum(a: u8, b: u8) -> u8 {
    ((a + b) % 256) as u8
}

/// Carry of `a + b`: 1 when the sum does not fit in eight bits.
pub open spec fn carry(a: u8, b: u8) -> u8 {
    if a + b > 255 {
        1
    } else {
        0
    }
}

/// `a - b` modulo 256.
pub open spec fn difference(a: u8, b: u8) -> u8 {
    ((a - b) % 256) as u8
}

/// Flag of `a - b`: 1 when `a` is strictly greater than `b`.
pub open spec fn exceeds(a: u8, b: u8) -> u8 {
    if a > b {
        1
    } else {
        0
    }
}

/// `a` shifted right by one bit.
pub open spec fn halved(a: u8) -> u8 {
    a / 2
}

/// Bit 0 of `a`, the bit that a right shift drops.
pub open spec fn low_bit(a: u8) -> u8 {
    a % 2
}

/// `a` shifted left by one bit, cut to eight bits.
pub open spec fn doubled(a: u8) -> u8 {
    ((a * 2) % 256) as u8
}

/// Bit 7 of `a`, the bit that a left shift drops.
pub open spec fn high_bit(a: u8) -> u8 {
    a / 128
}

/// Address of the glyph of digit `a` in the font table: five bytes per glyph,
/// computed in eight bits.
pub open spec fn glyph_address(a: u8) -> u16 {
    ((a * 5) % 256) as u16
}

/// The three decimal digits of `a`, most significant first.
pub open spec fn decimal_digits(a: u8) -> (u8, u8, u8) {
    (a / 100, (a % 100) / 10, a % 10)
}

/// Adds two registers. Returns the wrapped sum and the carry flag.
pub fn add_with_carry(a: u8, b: u8) -> (r: (u8, u8))
    ensures
        r.0 == sum(a, b),
        r.1 == carry(a, b),
{
    let wide: u16 = a as u16 + b as u16;
    let flag: u8 = if wide > 0xFF {
        1
    } else {
        0
    };
    assert(wide < 512 ==> (wide & 0xFF) == wide % 256) by (bit_vector);
    ((wide & 0xFF) as u8, flag)
}

/// Subtracts `b` from `a`. Returns the wrapped difference and the flag, which
/// is 1 when `a > b`.
pub fn subtract_with_flag(a: u8, b: u8) -> (r: (u8, u8))
    ensures
        r.0 == difference(a, b),
        r.1 == exceeds(a, b),
{
    let flag: u8 = if a > b {
        1
    } else {
        0
    };
    (a.wrapping_sub(b), flag)
}

/// Shifts `a` right by one bit. Returns the result and the bit shifted out.
pub fn shift_right(a: u8) -> (r: (u8, u8))
    ensures
        r.0 == halved(a),
        r.1 == low_bit(a),
{
    assert(a >> 1 == a / 2 && a & 1 == a % 2) by (bit_vector);
    (a >> 1, a & 1)
}

/// Shifts `a` left by one bit. Returns the result, cut to eight bits, and the
/// bit shifted out.
pub fn shift_left(a: u8) -> (r: (u8, u8))
    ensures
        r.0 == doubled(a),
        r.1 == high_bit(a),
{
    assert(a << 1 == (a * 2) % 256 && a >> 7 == a / 128) by (bit_vector);
    (a << 1, a >> 7)
}

/// Computes the address of the glyph of digit `a`.
pub fn glyph_address_of(a: u8) -> (r: u16)
    ensures
        r == glyph_address(a),
{
    a.wrapping_mul(5) as u16
}

/// Splits `a` into its decimal digits, most significant first.
pub fn decimal_digits_of(a: u8) -> (r: (u8, u8, u8))
    ensures
        r == decimal_digits(a),
{
    (a / 100, (a % 100) / 10, a % 10)
}

/// The flags of addition, subtraction and the two shifts, for every pair of
/// register values: the carry is the ninth bit of the sum, the subtraction
/// flag is 1 exactly when the minuend is strictly greater, and each shift
/// splits its operand into the result and the bit dropped.
pub proof fn lemma_flags(a: u8, b: u8)
    ensures
        a + b == 256 * carry(a, b) + sum(a, b),
        exceeds(a, b) == 1 <==> a > b,
        exceeds(a, b) == 0 <==> a <= b,
        a >= b ==> difference(a, b) == a - b,
        a < b ==> difference(a, b) == a - b + 256,
        a == 2 * halved(a) + low_bit(a),
        2 * a == 256 * high_bit(a) + doubled(a),
        low_bit(a) <= 1,
        high_bit(a) <= 1,
{
}

} // verus!
