//! What every immediate field shares: range checks, the two's-complement
//! pattern kept in storage, sign extension, and the placement of that pattern
//! in a 32-bit instruction word.

use vstd::arithmetic::div_mod::{lemma_fundamental_div_mod_converse, lemma_small_mod};
use vstd::arithmetic::power2::{
    lemma2_to64, lemma2_to64_rest, lemma_pow2_adds, lemma_pow2_pos, lemma_pow2_strictly_increases,
    lemma_pow2_unfold, pow2,
};
use vstd::arithmetic::mul::{lemma_mul_inequality, lemma_mul_is_distributive_sub_other_way};
use vstd::bits::{lemma_u32_shl_is_mul, lemma_u64_shl_is_mul};
use vstd::prelude::*;

verus! {

/// A logical value that lies outside a field's range `[min, max)`.
#[derive(Clone, Copy, Debug, PartialEq, Eq, Structural)]
pub struct OutOfRange {
    pub value: i64,
    pub min: i64,
    pub max: i64,
}

/// Least value of a signed field of `width` bits.
pub open spec fn signed_lo(width: nat) -> int {
    -pow2((width - 1) as nat)
}

/// One past the greatest value of a signed field of `width` bits.
pub open spec fn signed_hi(width: nat) -> int {
    pow2((width - 1) as nat) as int
}

/// One past the greatest value of an unsigned field of `width` bits.
pub open spec fn unsigned_hi(width: nat) -> int {
    pow2(width) as int
}

pub open spec fn fits_signed(v: int, width: nat) -> bool {
    signed_lo(width) <= v < signed_hi(width)
}

pub open spec fn fits_unsigned(v: int, width: nat) -> bool {
    0 <= v < unsigned_hi(width)
}

/// The error for a value that a signed field of `width` bits refuses.
pub open spec fn signed_error(v: i64, width: nat) -> OutOfRange {
    OutOfRange { value: v, min: signed_lo(width) as i64, max: signed_hi(width) as i64 }
}

/// The error for a value that an unsigned field of `width` bits refuses.
pub open spec fn unsigned_error(v: i64, width: nat) -> OutOfRange {
    OutOfRange { value: v, min: 0, max: unsigned_hi(width) as i64 }
}

/// The `width`-bit two's-complement pattern of `v`, read as an unsigned number.
pub open spec fn wrap(v: int, width: nat) -> int {
    v % (pow2(width) as int)
}

/// The value of the `width`-bit two's-complement pattern `s`.
pub open spec fn sign_extend(s: int, width: nat) -> int {
    if s >= pow2((width - 1) as nat) {
        s - pow2(width)
    } else {
        s
    }
}

/// `2^width`, for the widths a field can have.
fn pow2_i64(width: u32) -> (r: i64)
    requires
        width <= 33,
    ensures
        r == pow2(width as nat),
        r > 0,
{
    proof {
        lemma2_to64();
        lemma2_to64_rest();
        if width < 33 {
            lemma_pow2_strictly_increases(width as nat, 33);
        }
        lemma_pow2_pos(width as nat);
        lemma_u64_shl_is_mul(1, width as u64);
    }
    (1u64 << width as u64) as i64
}

/// A `width`-bit pattern, moved up by `shift` bits.
pub open spec fn shifted(s: int, shift: nat) -> int {
    s * pow2(shift)
}

/// Where a pattern whose low 16 bits and high bits go apart lands in the word:
/// bits 0 to 15 at word bit 10, the bits from 16 on at word bit 0.
pub open spec fn split_k16(s: int) -> int {
    s / 0x10000 + (s % 0x10000) * 0x400
}

/// Wrapping a value that already lies in `[-m, m)` adds `m` to a negative one.
proof fn lemma_wrap_small(v: int, m: int)
    requires
        m > 0,
        -m <= v < m,
    ensures
        v % m == (if v < 0 { v + m } else { v }),
{
    if v < 0 {
        lemma_fundamental_div_mod_converse(v, m, -1, v + m);
    } else {
        lemma_small_mod(v as nat, m as nat);
    }
}

/// Round trip of a signed field: the value read back from the two's-complement
/// pattern of any value in range is that value.
pub proof fn lemma_signed_round_trip(v: int, width: nat)
    requires
        1 <= width,
        fits_signed(v, width),
    ensures
        0 <= wrap(v, width) < pow2(width),
        sign_extend(wrap(v, width), width) == v,
{
    lemma_pow2_unfold(width);
    lemma_pow2_pos((width - 1) as nat);
    lemma_wrap_small(v, pow2(width) as int);
}

/// Round trip of an unsigned field: a value in range is its own pattern.
pub proof fn lemma_unsigned_round_trip(v: int, width: nat)
    requires
        fits_unsigned(v, width),
    ensures
        wrap(v, width) == v,
{
    lemma_small_mod(v as nat, pow2(width));
}

/// A stored pattern is the pattern of the value it stands for, so two patterns
/// that stand for one value are the same pattern.
pub proof fn lemma_pattern_of_value(s: int, width: nat)
    requires
        1 <= width,
        0 <= s < pow2(width),
    ensures
        fits_signed(sign_extend(s, width), width),
        wrap(sign_extend(s, width), width) == s,
{
    lemma_pow2_unfold(width);
    lemma_pow2_pos((width - 1) as nat);
    lemma_wrap_small(sign_extend(s, width), pow2(width) as int);
}

/// Layout purity: the bits a field puts in an instruction word follow from
/// its stored pattern alone, and two patterns that stand for the same signed
/// value are one pattern, so they lay out the same bits.
pub proof fn lemma_same_value_same_layout(s1: int, s2: int, width: nat, shift: nat)
    requires
        1 <= width,
        0 <= s1 < pow2(width),
        0 <= s2 < pow2(width),
        sign_extend(s1, width) == sign_extend(s2, width),
    ensures
        s1 == s2,
        shifted(s1, shift) == shifted(s2, shift),
        split_k16(s1) == split_k16(s2),
{
    lemma_pattern_of_value(s1, width);
    lemma_pattern_of_value(s2, width);
}

/// Sign extension: a pattern whose top bit is set stands for the negative
/// number `s - 2^width`; one whose top bit is clear stands for itself.
pub proof fn lemma_sign_extension(s: int, width: nat)
    requires
        1 <= width,
        0 <= s < pow2(width),
    ensures
        s >= pow2((width - 1) as nat) ==> sign_extend(s, width) == s - pow2(width)
            && sign_extend(s, width) < 0,
        s < pow2((width - 1) as nat) ==> sign_extend(s, width) == s && s >= 0,
{
}

/// The bounds of a signed range: `min` and `max - 1` are accepted,
/// `min - 1` and `max` are not.
pub proof fn lemma_signed_bounds(width: nat)
    requires
        1 <= width,
    ensures
        fits_signed(signed_lo(width), width),
        fits_signed(signed_hi(width) - 1, width),
        !fits_signed(signed_lo(width) - 1, width),
        !fits_signed(signed_hi(width), width),
{
    lemma_pow2_pos((width - 1) as nat);
}

/// The bounds of an unsigned range: `0` and `max - 1` are accepted,
/// `-1` and `max` are not.
pub proof fn lemma_unsigned_bounds(width: nat)
    ensures
        fits_unsigned(0, width),
        fits_unsigned(unsigned_hi(width) - 1, width),
        !fits_unsigned(-1, width),
        !fits_unsigned(unsigned_hi(width), width),
{
    lemma_pow2_pos(width);
}

/// Checks `v` against the signed range of `width` bits and returns its
/// two's-complement pattern.
pub fn encode_signed(v: i64, width: u32) -> (r: Result<u32, OutOfRange>)
    requires
        1 <= width <= 32,
    ensures
        r is Ok <==> fits_signed(v as int, width as nat),
        r matches Ok(s) ==> s == wrap(v as int, width as nat) && s < pow2(width as nat),
        r matches Err(e) ==> e == signed_error(v, width as nat),
{
    let half = pow2_i64(width - 1);
    proof {
        lemma_pow2_unfold(width as nat);
        lemma2_to64();
    }
    if v < -half || v >= half {
        return Err(OutOfRange { value: v, min: -half, max: half });
    }
    proof {
        lemma_signed_round_trip(v as int, width as nat);
        lemma_wrap_small(v as int, pow2(width as nat) as int);
    }
    let s = if v < 0 { v + 2 * half } else { v };
    Ok(s as u32)
}

/// Checks `v` against the unsigned range of `width` bits and returns it as
/// the stored pattern.
pub fn encode_unsigned(v: i64, width: u32) -> (r: Result<u32, OutOfRange>)
    requires
        1 <= width <= 32,
    ensures
        r is Ok <==> fits_unsigned(v as int, width as nat),
        r matches Ok(s) ==> s == v && s == wrap(v as int, width as nat),
        r matches Err(e) ==> e == unsigned_error(v, width as nat),
{
    let top = pow2_i64(width);
    proof {
        lemma2_to64();
        if width < 32 {
            lemma_pow2_strictly_increases(width as nat, 32);
        }
    }
    if v < 0 || v >= top {
        return Err(OutOfRange { value: v, min: 0, max: top });
    }
    proof {
        lemma_unsigned_round_trip(v as int, width as nat);
    }
    Ok(v as u32)
}

/// The value of the `width`-bit two's-complement pattern `s`.
pub fn decode_signed(s: u32, width: u32) -> (r: i32)
    requires
        1 <= width <= 32,
        s < pow2(width as nat),
    ensures
        r == sign_extend(s as int, width as nat),
{
    let half = pow2_i64(width - 1);
    proof {
        lemma_pow2_unfold(width as nat);
        lemma2_to64();
        if width < 32 {
            lemma_pow2_strictly_increases((width - 1) as nat, 31);
        }
    }
    if s as i64 >= half {
        (s as i64 - 2 * half) as i32
    } else {
        s as i32
    }
}

/// Moves a `width`-bit pattern up to word bit `shift`.
pub fn place(s: u32, width: u32, shift: u32) -> (r: u32)
    requires
        width + shift <= 32,
        shift < 32,
        s < pow2(width as nat),
    ensures
        r == shifted(s as int, shift as nat),
{
    proof {
        lemma_pow2_adds(width as nat, shift as nat);
        lemma_pow2_pos(shift as nat);
        lemma_mul_inequality(s as int, pow2(width as nat) - 1, pow2(shift as nat) as int);
        lemma_mul_is_distributive_sub_other_way(pow2(shift as nat) as int, pow2(width as nat) as int, 1);
        lemma2_to64();
        if width + shift < 32 {
            lemma_pow2_strictly_increases((width + shift) as nat, 32);
        }
        lemma_u32_shl_is_mul(s, shift);
    }
    s << shift
}

/// Lays out a pattern of up to 26 bits whose low 16 bits go to word bit 10
/// and whose high bits go to word bit 0.
pub fn place_split_k16(s: u32) -> (r: u32)
    requires
        s < 0x400_0000,
    ensures
        r == split_k16(s as int),
{
    assert(((s >> 16u32) | ((s & 0xffffu32) << 10u32)) == s / 0x10000 + (s % 0x10000) * 0x400)
        by (bit_vector)
        requires
            s < 0x400_0000,
    ;
    (s >> 16) | ((s & 0xffff) << 10)
}

} // verus!
