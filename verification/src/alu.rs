//! Arithmetic on 64-bit register values, as the instructions need it.
//!
//! Sums and differences are taken in the integers and wrapped to 64 bits.
//! Shifts are stated with the shift operators on 64-bit values; the laws at
//! the end say what they are as multiplications and divisions.
use crate::parse::{signed64, unsigned64};
use vstd::arithmetic::div_mod::{
    lemma_fundamental_div_mod, lemma_fundamental_div_mod_converse, lemma_mod_multiples_vanish,
};
use vstd::arithmetic::power2::{lemma_pow2_pos, pow2};
use vstd::bits::{lemma_u64_pow2_no_overflow, lemma_u64_shl_is_mul, lemma_u64_shr_is_div};
use vstd::prelude::*;

verus! {

/// The unsigned 64-bit value congruent to `x` modulo 2^64.
pub open spec fn wrap_unsigned(x: int) -> u64 {
    (x % 0x1_0000_0000_0000_0000) as u64
}

/// The signed 64-bit value congruent to `x` modulo 2^64.
pub open spec fn wrap_signed(x: int) -> i64 {
    signed64(wrap_unsigned(x)) as i64
}

/// A register value shifted left by `shamt` bits; bits shifted out are lost.
pub open spec fn shift_left(v: i64, shamt: int) -> i64 {
    signed64((unsigned64(v) as u64) << (shamt as u64)) as i64
}

/// A register value shifted right by `shamt` bits, read as unsigned.
pub open spec fn shift_right_logical(v: i64, shamt: int) -> i64 {
    signed64((unsigned64(v) as u64) >> (shamt as u64)) as i64
}

/// A register value shifted right by `shamt` bits, keeping its sign.
pub open spec fn shift_right_arithmetic(v: i64, shamt: int) -> i64 {
    v >> (shamt as u64)
}

/// One for true, zero for false.
pub open spec fn truth(b: bool) -> i64 {
    if b {
        1
    } else {
        0
    }
}

/// Wrapping leaves a value alone that fits, and otherwise moves it by 2^64,
/// once, for a sum or difference of two values that fit.
pub proof fn lemma_wrap_cases(x: int)
    ensures
        i64::MIN <= x <= i64::MAX ==> wrap_signed(x) == x,
        i64::MAX < x <= 2 * i64::MAX + 1 ==> wrap_signed(x) == x - 0x1_0000_0000_0000_0000,
        2 * i64::MIN <= x < i64::MIN ==> wrap_signed(x) == x + 0x1_0000_0000_0000_0000,
        0 <= x <= u64::MAX ==> wrap_unsigned(x) == x,
        u64::MAX < x <= 2 * u64::MAX + 1 ==> wrap_unsigned(x) == x - 0x1_0000_0000_0000_0000,
        -0x1_0000_0000_0000_0000 <= x < 0 ==> wrap_unsigned(x) == x + 0x1_0000_0000_0000_0000,
{
}

/// The wrapping operations of the machine integers are the sum and the
/// difference in the integers, wrapped.
pub proof fn lemma_wrapping_operations(a: i64, b: i64, x: u64, y: u64)
    ensures
        a.wrapping_add(b) == wrap_signed(a + b),
        a.wrapping_sub(b) == wrap_signed(a - b),
        x.wrapping_add(y) == wrap_unsigned(x + y),
        x.wrapping_sub(y) == wrap_unsigned(x - y),
{
}

/// A register value counts the same in a wrapped sum whether it is read as
/// signed or as unsigned, and a value that was wrapped before counts as the
/// value itself.
pub proof fn lemma_wrap_absorbs(x: int, v: i64, u: u64, y: int)
    ensures
        wrap_unsigned(x + unsigned64(v)) == wrap_unsigned(x + v),
        wrap_signed(x + signed64(u)) == wrap_signed(x + u),
        wrap_unsigned(wrap_unsigned(x) + y) == wrap_unsigned(x + y),
{
}

/// The two wrappings of a number are the two readings of the same 64 bits.
pub proof fn lemma_wrap_signed_unsigned(x: int)
    ensures
        unsigned64(wrap_signed(x)) == wrap_unsigned(x),
        signed64(wrap_unsigned(x)) == wrap_signed(x),
{
}

proof fn lemma_one_shifted_is_power(s: u64)
    requires
        s < 64,
    ensures
        (1u64 << s) == pow2(s as nat),
{
    lemma_u64_pow2_no_overflow(s as nat);
    lemma_u64_shl_is_mul(1, s);
}

/// A shift to the left multiplies by a power of two, modulo 2^64.
pub proof fn lemma_shift_left_multiplies(v: i64, shamt: int)
    requires
        0 <= shamt < 64,
    ensures
        shift_left(v, shamt) == wrap_signed(v * pow2(shamt as nat)),
{
    let x = unsigned64(v) as u64;
    let s = shamt as u64;
    let p = pow2(shamt as nat) as int;
    lemma_one_shifted_is_power(s);
    assert(s < 64 ==> (x << s) == (x * (1u64 << s)) % 0x1_0000_0000_0000_0000) by (bit_vector);
    assert((x * p) % 0x1_0000_0000_0000_0000 == (v * p) % 0x1_0000_0000_0000_0000) by {
        if v < 0 {
            assert(x * p == 0x1_0000_0000_0000_0000 * p + v * p) by (nonlinear_arith)
                requires
                    x == v + 0x1_0000_0000_0000_0000,
            ;
            lemma_mod_multiples_vanish(p, v * p, 0x1_0000_0000_0000_0000);
        }
    }
}

/// A logical shift to the right divides the unsigned reading by a power of
/// two.
pub proof fn lemma_shift_right_logical_divides(v: i64, shamt: int)
    requires
        0 <= shamt < 64,
    ensures
        unsigned64(shift_right_logical(v, shamt)) == unsigned64(v) / (pow2(shamt as nat) as int),
{
    lemma_u64_shr_is_div(unsigned64(v) as u64, shamt as u64);
}

/// An arithmetic shift to the right divides the signed value by a power of
/// two and rounds down.
pub proof fn lemma_shift_right_arithmetic_divides(v: i64, shamt: int)
    requires
        0 <= shamt < 64,
    ensures
        shift_right_arithmetic(v, shamt) == (v as int) / (pow2(shamt as nat) as int),
{
    let s = shamt as u64;
    let d = pow2(shamt as nat) as int;
    lemma_pow2_pos(shamt as nat);
    if v >= 0 {
        lemma_u64_shr_is_div(v as u64, s);
    } else {
        let y = (-v - 1) as u64;
        assert(v < 0 && s < 64 ==> (v >> s) == -(((-v - 1) as u64) >> s) - 1) by (bit_vector);
        lemma_u64_shr_is_div(y, s);
        let q = (y as int) / d;
        let r = (y as int) % d;
        lemma_fundamental_div_mod(y as int, d);
        assert(v == (-q - 1) * d + (d - 1 - r)) by (nonlinear_arith)
            requires
                y == d * q + r,
                y == -v - 1,
        ;
        lemma_fundamental_div_mod_converse(v as int, d, -q - 1, d - 1 - r);
    }
}

} // verus!
