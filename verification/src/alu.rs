use vstd::prelude::*;

verus! {

/// The flag byte for a condition: 1 where it holds, 0 where it does not.
pub open spec fn flag_of(condition: bool) -> u8 {
    if condition {
        1
    } else {
        0
    }
}

/// Sum modulo 256 and carry flag of two bytes.
pub open spec fn add_with_carry_spec(a: u8, b: u8) -> (u8, u8) {
    (((a + b) % 256) as u8, flag_of(a + b >= 256))
}

/// Difference modulo 256 of two bytes, and the flag that is 1 where the
/// subtraction did not borrow.
pub open spec fn subtract_with_borrow_spec(a: u8, b: u8) -> (u8, u8) {
    (((a - b) % 256) as u8, flag_of(a >= b))
}

/// Half of a byte, rounded down, and the bit that the shift dropped.
pub open spec fn shift_right_spec(a: u8) -> (u8, u8) {
    (a >> 1, a & 1)
}

/// Twice a byte modulo 256, and the bit that the shift dropped.
pub open spec fn shift_left_spec(a: u8) -> (u8, u8) {
    (a << 1, (a >> 7) & 1)
}

/// Adds two bytes. The first result is the sum modulo 256, the second is 1
/// exactly where the sum did not fit in a byte.
pub fn add_with_carry(a: u8, b: u8) -> (r: (u8, u8))
    ensures
        r == add_with_carry_spec(a, b),
        r.0 == (a + b) % 256,
        r.1 == 1 <==> a + b >= 256,
        r.1 == 0 <==> a + b < 256,
{
    let sum: u16 = a as u16 + b as u16;
    if sum >= 256 {
        ((sum - 256) as u8, 1)
    } else {
        (sum as u8, 0)
    }
}

/// Subtracts `b` from `a`. The first result is the difference modulo 256,
/// the second is 1 exactly where no borrow was needed.
pub fn subtract_with_borrow(a: u8, b: u8) -> (r: (u8, u8))
    ensures
        r == subtract_with_borrow_spec(a, b),
        r.0 == (a - b) % 256,
        r.1 == 1 <==> a >= b,
        r.1 == 0 <==> a < b,
{
    if a >= b {
        (a - b, 1)
    } else {
        let wrapped: u16 = 256 + a as u16 - b as u16;
        (wrapped as u8, 0)
    }
}

/// Shifts a byte right by one. The first result is the byte halved, the
/// second the least significant bit it had.
pub fn shift_right(a: u8) -> (r: (u8, u8))
    ensures
        r == shift_right_spec(a),
        r.0 == a / 2,
        r.1 == a % 2,
        a == 2 * r.0 + r.1,
{
    assert(a >> 1 == a / 2) by (bit_vector);
    assert(a & 1 == a % 2) by (bit_vector);
    (a >> 1, a & 1)
}

/// Shifts a byte left by one. The first result is the byte doubled modulo
/// 256, the second the most significant bit it had.
pub fn shift_left(a: u8) -> (r: (u8, u8))
    ensures
        r == shift_left_spec(a),
        r.0 == (2 * a) % 256,
        r.1 == a / 128,
        2 * a == 256 * r.1 + r.0,
{
    assert((a >> 7) & 1 == a / 128) by (bit_vector);
    assert(a << 1 == (a % 128) * 2) by (bit_vector);
    (a << 1, (a >> 7) & 1)
}

} // verus!
