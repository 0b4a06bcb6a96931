//! Arithmetic on bytes as the instructions do it: every result modulo 256,
//! with a flag that tells what the result alone does not.

use vstd::prelude::*;

verus! {

/// The value of a flag in the flag register: 1 when it is set, 0 when it
/// is not.
pub open spec fn flag(set: bool) -> u8 {
    if set {
        1
    } else {
        0
    }
}

/// The three decimal digits of a byte: hundreds, tens, ones.
pub open spec fn bcd_digits(val: u8) -> Seq<u8> {
    seq![val / 100, (val / 10) % 10, val % 10]
}

/// The sum of two bytes modulo 256, and whether the sum fit in a byte.
pub(crate) fn add_bytes(a: u8, b: u8) -> (r: (u8, bool))
    ensures
        r.0 == (a + b) % 256,
        r.1 == (a + b < 256),
{
    let carry = a as u16 + b as u16 > 0xFF;
    (a.wrapping_add(b), !carry)
}

/// The difference of two bytes modulo 256, and whether nothing was
/// borrowed.
pub(crate) fn sub_bytes(a: u8, b: u8) -> (r: (u8, bool))
    ensures
        r.0 == (a - b) % 256,
        r.1 == (a - b >= 0),
{
    let borrow = a < b;
    (a.wrapping_sub(b), !borrow)
}

/// A byte shifted right by one, and whether a set bit fell off.
pub(crate) fn shift_right(a: u8) -> (r: (u8, bool))
    ensures
        r.0 == a / 2,
        r.1 == (a % 2 == 1),
{
    let dropped_bit = a & 1;
    assert(a >> 1 == a / 2 && a & 1 == a % 2) by (bit_vector);
    (a >> 1, dropped_bit == 1)
}

/// A byte shifted left by one, and whether a set bit fell off.
pub(crate) fn shift_left(a: u8) -> (r: (u8, bool))
    ensures
        r.0 == (a * 2) % 256,
        r.1 == (a >= 128),
{
    let dropped_bit = (a >> 7) & 1;
    assert(a << 1 == (a * 2) % 256 && (a >> 7) & 1 == a / 128) by (bit_vector);
    (a << 1, dropped_bit == 1)
}

/// An address moved on by a byte, modulo 65536.
pub(crate) fn offset_address(addr: u16, by: u8) -> (r: u16)
    ensures
        r == (addr + by) % 65536,
{
    addr.wrapping_add(by as u16)
}

/// Takes a byte apart into its three decimal digits.
pub(crate) fn to_bcd(val: u8) -> (digits: [u8; 3])
    ensures
        digits@ == bcd_digits(val),
{
    let digits = [val / 100, (val / 10) % 10, val % 10];
    digits
}

} // verus!
