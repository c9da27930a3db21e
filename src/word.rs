use vstd::arithmetic::power2::{lemma2_to64, pow2};
use vstd::bits::lemma_u32_shl_is_mul;
use vstd::prelude::*;

verus! {

/// The value of the low `b` bits of `w` read as a two's complement number,
/// widened to a 16-bit word (negative values wrap modulo 2^16).
pub open spec fn sext_spec(w: u16, b: nat) -> u16 {
    let low = w as nat % pow2(b);
    if low >= pow2((b - 1) as nat) {
        (low + 0x10000 - pow2(b)) as u16
    } else {
        low as u16
    }
}

/// The character that a word stands for on the terminal: its low seven bits.
pub open spec fn char_of(v: u16) -> char {
    (v % 128) as char
}

/// Addition of two words modulo 2^16.
pub open spec fn wrap_add(a: u16, b: u16) -> u16 {
    ((a + b) % 0x10000) as u16
}

/// Adds two words, wrapping modulo 2^16.
pub fn add_wrapping(a: u16, b: u16) -> (r: u16)
    ensures
        r == wrap_add(a, b),
{
    ((a as u32 + b as u32) % 0x10000) as u16
}

/// Sign-extends the low `b` bits of `w` to a full word.
pub fn sext(w: u16, b: u8) -> (r: u16)
    requires
        1 <= b <= 16,
    ensures
        r == sext_spec(w, b as nat),
{
    proof {
        lemma2_to64();
        lemma_u32_shl_is_mul(1, b as u32);
    }
    let p: u32 = 1u32 << b;
    let x: u32 = w as u32 % p;
    let half: u32 = p / 2;
    assert(half == pow2((b - 1) as nat)) by {
        lemma2_to64();
    }
    if x >= half {
        (x + 0x10000 - p) as u16
    } else {
        x as u16
    }
}

/// The character emitted for a word: its low seven bits as ASCII.
pub fn to_char(v: u16) -> (r: char)
    ensures
        r == char_of(v),
{
    ((v % 128) as u8) as char
}

} // verus!
