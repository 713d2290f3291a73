//! What the circuits compute on values in the clear, between their
//! decryption and the encryption of their result inside the secure
//! computation.

use vstd::prelude::*;

verus! {

/// One, as a fixed-point number with 16 fractional bits.
pub const ONE_Q: i64 = 65_536;

/// The two summands of the addition circuit.
#[derive(Clone, Copy, Debug, PartialEq, Eq)]
pub struct InputValues {
    pub v1: u8,
    pub v2: u8,
}

/// The sum of the two values, which always fits.
pub fn add_together(input: InputValues) -> (r: u16)
    ensures
        r == input.v1 + input.v2,
{
    input.v1 as u16 + input.v2 as u16
}

/// The square of a fixed-point number, as a fixed-point number, rounded
/// down.
pub open spec fn square_q(x: int) -> int {
    (x * x) / 65_536
}

/// The accuracy score of a reading against the mean and the standard
/// deviation of its stream, all three fixed-point numbers with 16
/// fractional bits.
///
/// With `lower` and `upper` two deviations below and above the mean, the
/// score is `100 / (1 + (reading - lower)^2 + (upper - reading)^2)`, each
/// step rounded down in fixed point.
pub open spec fn accuracy_score(reading: int, mean: int, std: int) -> int {
    let lower = mean - 2 * std;
    let upper = mean + 2 * std;
    let denom = 65_536 + square_q(reading - lower) + square_q(upper - reading);
    let score_q = (65_536int * 65_536int) / denom;
    (score_q * 100) / 65_536
}

/// The square of a fixed-point number, as a fixed-point number.
fn square(x: i64) -> (r: i64)
    requires
        -0x4_0000_0000 < x < 0x4_0000_0000,
    ensures
        r == square_q(x as int),
        0 <= r < 0x10_0000_0000_0000,
{
    let wide: i128 = x as i128;
    assert(0 <= wide * wide < 0x4_0000_0000 * 0x4_0000_0000) by (nonlinear_arith)
        requires
            -0x4_0000_0000 < wide < 0x4_0000_0000,
    ;
    let xx: i128 = wide * wide;
    let scaled: i128 = xx / 65_536;
    scaled as i64
}

/// The accuracy score of a reading, from 0 to 100.
///
/// The score is 100 only where the reading is within a 256th of both
/// bounds at once, and falls towards 0 as the reading moves away from
/// either.
pub fn compute_accuracy_score(reading_q16_16: u32, mean_q16_16: u32, std_q16_16: u32) -> (r: u8)
    ensures
        r == accuracy_score(reading_q16_16 as int, mean_q16_16 as int, std_q16_16 as int),
        r <= 100,
{
    let r: i64 = reading_q16_16 as i64;
    let m: i64 = mean_q16_16 as i64;
    let s: i64 = std_q16_16 as i64;

    let two_sigma: i64 = s * 2;
    let lower: i64 = m - two_sigma;
    let upper: i64 = m + two_sigma;

    let d_lower: i64 = r - lower;
    let d_upper: i64 = upper - r;

    let lower_check: i64 = square(d_lower);
    let upper_check: i64 = square(d_upper);

    let mut denom: i64 = ONE_Q + lower_check + upper_check;
    if denom <= 0 {
        denom = 1;
    }
    let wide_one: i128 = 65_536;
    let wide_denom: i128 = denom as i128;
    let wide_score: i128 = (wide_one * wide_one) / wide_denom;
    assert(0 <= wide_score <= 65_536) by (nonlinear_arith)
        requires
            wide_score == (65_536int * 65_536int) / (wide_denom as int),
            wide_denom >= 65_536,
    ;
    let score_q: i64 = wide_score as i64;

    let mut score: i64 = (score_q * 100) / ONE_Q;
    if score < 0 {
        score = 0;
    }
    if score > 100 {
        score = 100;
    }
    score as u8
}

/// The reseal circuit hands the four limbs of the key on as they are: only
/// the key under which they are encrypted changes.
pub fn reseal_dek(mxe_dek: [u64; 4]) -> (r: [u64; 4])
    ensures
        r == mxe_dek,
{
    mxe_dek
}

} // verus!
