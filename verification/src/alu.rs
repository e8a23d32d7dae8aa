//! The arithmetic unit: 8-bit addition and subtraction with a carry signal,
//! and the two wide operations (8x8 multiply, 16/16 divide).
//!
//! Every result is stated over mathematical integers; the carry signal is
//! returned to the caller, who decides what to do with it.

use vstd::prelude::*;
use crate::fault::Fault;

verus! {

/// The 16-bit value whose high byte is `hi` and whose low byte is `lo`.
pub open spec fn word_of(hi: u8, lo: u8) -> int {
    hi * 256 + lo
}

/// The sum of two bytes, reduced modulo 256.
pub open spec fn sum_byte(a: u8, b: u8) -> u8 {
    ((a + b) % 256) as u8
}

/// Addition carries exactly when the unsigned sum does not fit in a byte.
pub open spec fn sum_carries(a: u8, b: u8) -> bool {
    a + b > 255
}

/// The difference of two bytes, reduced modulo 256 (two's-complement wraparound).
pub open spec fn difference_byte(a: u8, b: u8) -> u8 {
    ((a - b) % 256) as u8
}

/// Subtraction carries exactly when the signed difference is negative.
pub open spec fn difference_carries(a: u8, b: u8) -> bool {
    a - b < 0
}

/// The high byte of the 16-bit product of two bytes.
pub open spec fn product_high(a: u8, b: u8) -> u8 {
    ((a * b) / 256) as u8
}

/// The low byte of the 16-bit product of two bytes.
pub open spec fn product_low(a: u8, b: u8) -> u8 {
    ((a * b) % 256) as u8
}

/// The quotient of two 16-bit values given as byte pairs; meaningful for a non-zero divisor.
pub open spec fn quotient(n_hi: u8, n_lo: u8, d_hi: u8, d_lo: u8) -> int {
    word_of(n_hi, n_lo) / word_of(d_hi, d_lo)
}

/// Joins a high and a low byte into a 16-bit value.
pub fn word(hi: u8, lo: u8) -> (w: u16)
    ensures
        w == word_of(hi, lo),
{
    hi as u16 * 256 + lo as u16
}

/// Adds two bytes. Returns the sum modulo 256 and the carry signal.
pub fn add8(a: u8, b: u8) -> (r: (u8, bool))
    ensures
        r.0 == (a + b) % 256,
        r.1 <==> a + b > 255,
        r.0 == sum_byte(a, b),
        r.1 == sum_carries(a, b),
{
    let wide: u16 = a as u16 + b as u16;
    if wide > 255 {
        ((wide - 256) as u8, true)
    } else {
        (wide as u8, false)
    }
}

/// Subtracts `b` from `a`. Returns the difference modulo 256 and the carry signal.
pub fn sub8(a: u8, b: u8) -> (r: (u8, bool))
    ensures
        r.0 == (a - b) % 256,
        r.1 <==> a - b < 0,
        r.0 == difference_byte(a, b),
        r.1 == difference_carries(a, b),
{
    if a < b {
        ((256 - (b as u16 - a as u16)) as u8, true)
    } else {
        (a - b, false)
    }
}

/// Multiplies two bytes into a 16-bit product. Returns its high and low bytes.
pub fn mul8(a: u8, b: u8) -> (r: (u8, u8))
    ensures
        r.0 * 256 + r.1 == a * b,
        r.0 == product_high(a, b),
        r.1 == product_low(a, b),
{
    assert(a * b <= 255 * 255) by (nonlinear_arith)
        requires
            a <= 255,
            b <= 255,
    ;
    let wide: u16 = a as u16 * b as u16;
    ((wide / 256) as u8, (wide % 256) as u8)
}

/// Divides the 16-bit value `n_hi:n_lo` by the 16-bit value `d_hi:d_lo`.
/// Returns the high and low bytes of the quotient, or `DivideByZero` for a zero divisor.
pub fn div16(n_hi: u8, n_lo: u8, d_hi: u8, d_lo: u8) -> (r: Result<(u8, u8), Fault>)
    ensures
        word_of(d_hi, d_lo) == 0 <==> r == Err::<(u8, u8), Fault>(Fault::DivideByZero),
        word_of(d_hi, d_lo) != 0 <==> r is Ok,
        r matches Ok(q) ==> q.0 * 256 + q.1 == quotient(n_hi, n_lo, d_hi, d_lo),
{
    let divisor: u16 = word(d_hi, d_lo);
    if divisor == 0 {
        return Err(Fault::DivideByZero);
    }
    let dividend: u16 = word(n_hi, n_lo);
    let q: u16 = dividend / divisor;
    Ok(((q / 256) as u8, (q % 256) as u8))
}

} // verus!
