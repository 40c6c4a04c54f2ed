//! Byte arithmetic of the processor: add and subtract with carry, shifts,
//! rotates and compares, each as a pure function on bytes with an exact
//! contract over mathematical integers.
use vstd::prelude::*;

verus! {

/// Bit 7 of a byte, the sign bit of its two's-complement reading.
pub open spec fn sign(b: u8) -> bool {
    b >= 0x80
}

/// The two's-complement value of a byte, in -128..=127.
pub open spec fn signed(b: u8) -> int {
    if b >= 0x80 {
        b - 256
    } else {
        b as int
    }
}

pub open spec fn bit(c: bool) -> int {
    if c {
        1
    } else {
        0
    }
}

/// Add with carry: the result byte, the carry out and the overflow flag.
/// Overflow is set when both inputs carry the same sign and the result's
/// sign differs from the operand's.
pub open spec fn adc_spec(a: u8, m: u8, carry: bool) -> (u8, bool, bool) {
    let sum = a + m + bit(carry);
    let r = (sum % 256) as u8;
    (r, sum > 255, sign(a) == sign(m) && sign(r) != sign(m))
}

/// Subtract with borrow, where the carry flag holds the inverted borrow:
/// `a - m - (1 - carry)` modulo 256, carry out when no borrow occurs, and
/// overflow when the signed difference leaves -128..=127.
pub open spec fn sbc_spec(a: u8, m: u8, carry: bool) -> (u8, bool, bool) {
    let diff = a - m - (1 - bit(carry));
    let sdiff = signed(a) - signed(m) - (1 - bit(carry));
    ((diff % 256) as u8, diff >= 0, sdiff < -128 || sdiff > 127)
}

/// The operand that subtraction feeds to the adder: `-m - 1` in 8 bits.
pub open spec fn complement(m: u8) -> u8 {
    ((-m - 1) % 256) as u8
}

/// Shift left: the shifted byte and the bit shifted out of bit 7.
pub open spec fn asl_spec(v: u8) -> (u8, bool) {
    (((v * 2) % 256) as u8, v >= 0x80)
}

/// Shift right: the shifted byte and the bit shifted out of bit 0.
pub open spec fn lsr_spec(v: u8) -> (u8, bool) {
    ((v / 2) as u8, v % 2 == 1)
}

/// Rotate left through the carry.
pub open spec fn rol_spec(v: u8, carry: bool) -> (u8, bool) {
    (((v * 2 + bit(carry)) % 256) as u8, v >= 0x80)
}

/// Rotate right through the carry.
pub open spec fn ror_spec(v: u8, carry: bool) -> (u8, bool) {
    ((v / 2 + 128 * bit(carry)) as u8, v % 2 == 1)
}

/// Compare a register with an operand: the wrapped difference and the
/// carry, set when the register is not below the operand.
pub open spec fn compare_spec(reg: u8, m: u8) -> (u8, bool) {
    (((reg - m) % 256) as u8, reg >= m)
}

pub proof fn lemma_sign_bit(b: u8)
    ensures
        ((b & 0x80) == 0x80) == sign(b),
        ((b & 0x80) == 0) == !sign(b),
{
    assert(((b & 0x80) == 0x80) == (b >= 0x80)) by (bit_vector);
    assert(((b & 0x80) == 0) == (b < 0x80)) by (bit_vector);
}

/// Add with carry on bytes, through a 9-bit intermediate sum.
pub fn add_with_carry(a: u8, m: u8, carry: bool) -> (r: (u8, bool, bool))
    ensures
        r == adc_spec(a, m, carry),
        r.0 as int == (a + m + bit(carry)) % 256,
        r.1 == (a + m + bit(carry) > 255),
        r.2 == (sign(a) == sign(m) && sign(r.0) != sign(m)),
{
    let sum: u16 = a as u16 + m as u16 + if carry {
        1
    } else {
        0
    };
    let result = (sum % 256) as u8;
    proof {
        lemma_sign_bit(a);
        lemma_sign_bit(m);
        lemma_sign_bit(result);
    }
    let overflow = (m & 0x80) == (a & 0x80) && (result & 0x80) != (m & 0x80);
    (result, sum > 0xFF, overflow)
}

/// Subtraction's operand sent through the adder is the adjusted operand, so
/// subtract-with-carry and add-with-carry of the complement agree on the
/// result, the carry and the overflow for every input.
pub proof fn lemma_sbc_is_adc_of_complement(a: u8, m: u8, carry: bool)
    ensures
        sbc_spec(a, m, carry) == adc_spec(a, complement(m), carry),
        complement(m) == 255 - m,
{
    let c = bit(carry);
    let sum = a + (255 - m) + c;
    let diff = a - m - (1 - c);
    assert(sum == diff + 256);
    if diff >= 0 {
        assert(sum % 256 == diff);
        assert(diff % 256 == diff);
    } else {
        assert(sum % 256 == sum);
        assert(diff % 256 == sum);
    }
}

/// Subtract with carry, computed as an add of the adjusted operand.
pub fn sub_with_carry(a: u8, m: u8, carry: bool) -> (r: (u8, bool, bool))
    ensures
        r == sbc_spec(a, m, carry),
{
    let adjusted = 0u8.wrapping_sub(m).wrapping_sub(1);
    proof {
        lemma_sbc_is_adc_of_complement(a, m, carry);
    }
    add_with_carry(a, adjusted, carry)
}

pub fn shift_left(v: u8) -> (r: (u8, bool))
    ensures
        r == asl_spec(v),
{
    assert((v << 1u8) == ((v * 2) % 256) as u8) by (bit_vector);
    assert((v >> 7u8 == 1) == (v >= 0x80)) by (bit_vector);
    (v << 1u8, v >> 7u8 == 1)
}

pub fn shift_right(v: u8) -> (r: (u8, bool))
    ensures
        r == lsr_spec(v),
{
    assert((v >> 1u8) == (v / 2) as u8) by (bit_vector);
    assert(((v & 1) == 1) == (v % 2 == 1)) by (bit_vector);
    (v >> 1u8, v & 1 == 1)
}

pub fn rotate_left(v: u8, carry: bool) -> (r: (u8, bool))
    ensures
        r == rol_spec(v, carry),
{
    let c: u8 = if carry {
        1
    } else {
        0
    };
    assert(((v << 1u8) | c) == ((v * 2 + c) % 256) as u8) by (bit_vector)
        requires
            c <= 1,
    ;
    assert((v >> 7u8 == 1) == (v >= 0x80)) by (bit_vector);
    ((v << 1u8) | c, v >> 7u8 == 1)
}

pub fn rotate_right(v: u8, carry: bool) -> (r: (u8, bool))
    ensures
        r == ror_spec(v, carry),
{
    let c: u8 = if carry {
        1
    } else {
        0
    };
    assert(((v >> 1u8) | (c << 7u8)) == (v / 2 + 128 * c) as u8) by (bit_vector)
        requires
            c <= 1,
    ;
    assert(((v & 1) == 1) == (v % 2 == 1)) by (bit_vector);
    ((v >> 1u8) | (c << 7u8), v & 1 == 1)
}

pub fn compare(reg: u8, m: u8) -> (r: (u8, bool))
    ensures
        r == compare_spec(reg, m),
{
    (reg.wrapping_sub(m), reg >= m)
}

} // verus!
