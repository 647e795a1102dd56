//! The little-endian word model of the address space.
//!
//! A machine word is four bytes, least significant first. These spec
//! functions say what a word read or write means on the byte sequence that
//! models memory; the broadcast lemmas relate reads to writes and are used
//! wherever a register or stack slot is read back.

use vstd::prelude::*;

verus! {

/// The unsigned 32-bit value of the little-endian word stored in `m` at
/// address `a`: the byte at `a` is least significant.
pub open spec fn word_at(m: Seq<u8>, a: int) -> u32
    recommends
        0 <= a,
        a + 4 <= m.len(),
{
    (m[a] as u32) | ((m[a + 1] as u32) << 8) | ((m[a + 2] as u32) << 16) | ((m[a + 3] as u32)
        << 24)
}

/// `m` with the little-endian word at address `a` replaced by `v`.
pub open spec fn with_word(m: Seq<u8>, a: int, v: u32) -> Seq<u8>
    recommends
        0 <= a,
        a + 4 <= m.len(),
{
    m.update(a, (v & 0xFF) as u8).update(a + 1, ((v >> 8) & 0xFF) as u8).update(
        a + 2,
        ((v >> 16) & 0xFF) as u8,
    ).update(a + 3, ((v >> 24) & 0xFF) as u8)
}

/// Writing a word does not change the length of memory.
pub broadcast proof fn lemma_with_word_len(m: Seq<u8>, a: int, v: u32)
    requires
        0 <= a,
        a + 4 <= m.len(),
    ensures
        (#[trigger] with_word(m, a, v)).len() == m.len(),
{
}

/// Reading back the word just written yields the written value.
pub broadcast proof fn lemma_word_roundtrip(m: Seq<u8>, a: int, v: u32)
    requires
        0 <= a,
        a + 4 <= m.len(),
    ensures
        #[trigger] word_at(with_word(m, a, v), a) == v,
{
    let m2 = with_word(m, a, v);
    assert(m2[a] == (v & 0xFF) as u8);
    assert(m2[a + 1] == ((v >> 8) & 0xFF) as u8);
    assert(m2[a + 2] == ((v >> 16) & 0xFF) as u8);
    assert(m2[a + 3] == ((v >> 24) & 0xFF) as u8);
    assert(((v & 0xFF) as u8 as u32) | (((v >> 8) & 0xFF) as u8 as u32) << 8 | (((v >> 16)
        & 0xFF) as u8 as u32) << 16 | (((v >> 24) & 0xFF) as u8 as u32) << 24 == v)
        by (bit_vector);
}

/// Writing a word leaves every byte outside its four positions unchanged.
pub broadcast proof fn lemma_with_word_frame_byte(m: Seq<u8>, a: int, v: u32, i: int)
    requires
        0 <= a,
        a + 4 <= m.len(),
        0 <= i < m.len(),
        i < a || a + 4 <= i,
    ensures
        #[trigger] with_word(m, a, v)[i] == m[i],
{
}

/// Reading a word whose four bytes are disjoint from a written word sees
/// the old contents.
pub broadcast proof fn lemma_word_frame(m: Seq<u8>, a: int, v: u32, b: int)
    requires
        0 <= a,
        a + 4 <= m.len(),
        0 <= b,
        b + 4 <= m.len(),
        b + 4 <= a || a + 4 <= b,
    ensures
        #[trigger] word_at(with_word(m, a, v), b) == word_at(m, b),
{
}

/// The unsigned 16-bit value of two little-endian bytes.
pub open spec fn word16(b0: u8, b1: u8) -> u16 {
    (b0 as u16) | ((b1 as u16) << 8)
}

/// The same 16 bits read as a signed (two's complement) value.
pub open spec fn as_signed16(v: u16) -> i16 {
    if v >= 0x8000 {
        (v - 0x10000) as i16
    } else {
        v as i16
    }
}

/// The 16-bit signed little-endian offset held in two instruction bytes.
pub open spec fn offset16(b0: u8, b1: u8) -> i16 {
    as_signed16(word16(b0, b1))
}

/// Reads a 16-bit signed little-endian offset from two bytes.
pub fn read_offset16(b0: u8, b1: u8) -> (r: i16)
    ensures
        r == offset16(b0, b1),
{
    let v: u16 = (b0 as u16) | ((b1 as u16) << 8);
    if v < 0x8000 {
        v as i16
    } else {
        let neg = 0xFFFF - v;
        -(neg as i16) - 1
    }
}

/// Reads a 16-bit unsigned little-endian value from two bytes.
pub fn read_word16(b0: u8, b1: u8) -> (r: u16)
    ensures
        r == word16(b0, b1),
{
    (b0 as u16) | ((b1 as u16) << 8)
}

/// The 32-bit wraparound sum: `(a + b) mod 2^32`, with no overflow signal.
pub open spec fn wrap_add(a: u32, b: u32) -> u32 {
    ((a + b) % 0x1_0000_0000) as u32
}

/// The 32-bit wraparound difference: `(a - b) mod 2^32`.
pub open spec fn wrap_sub(a: u32, b: u32) -> u32 {
    ((a - b + 0x1_0000_0000) % 0x1_0000_0000) as u32
}

/// The 32-bit wraparound product: `(a * b) mod 2^32`.
pub open spec fn wrap_mul(a: u32, b: u32) -> u32 {
    ((a * b) % 0x1_0000_0000) as u32
}

/// The destination of a jump with 16-bit signed offset `off` from `ip`:
/// the offset is applied as signed 32-bit arithmetic against the unsigned
/// instruction pointer, wrapping modulo 2^32.
pub open spec fn jump_dest(ip: u32, off: i16) -> u32 {
    ((ip + off + 0x1_0000_0000) % 0x1_0000_0000) as u32
}

/// The wraparound sum agrees with `u32::wrapping_add`.
pub proof fn lemma_wrap_add_eq(a: u32, b: u32)
    ensures
        wrap_add(a, b) == vstd::wrapping::u32_specs::wrapping_add(a, b),
{
    if a + b > u32::MAX {
        vstd::arithmetic::div_mod::lemma_mod_multiples_vanish(1, a + b - 0x1_0000_0000, 0x1_0000_0000);
        vstd::arithmetic::div_mod::lemma_small_mod((a + b - 0x1_0000_0000) as nat, 0x1_0000_0000);
    } else {
        vstd::arithmetic::div_mod::lemma_small_mod((a + b) as nat, 0x1_0000_0000);
    }
}

/// The wraparound difference agrees with `u32::wrapping_sub`.
pub proof fn lemma_wrap_sub_eq(a: u32, b: u32)
    ensures
        wrap_sub(a, b) == vstd::wrapping::u32_specs::wrapping_sub(a, b),
{
    if a - b < 0 {
        vstd::arithmetic::div_mod::lemma_small_mod((a - b + 0x1_0000_0000) as nat, 0x1_0000_0000);
    } else {
        vstd::arithmetic::div_mod::lemma_mod_multiples_vanish(1, a - b, 0x1_0000_0000);
        vstd::arithmetic::div_mod::lemma_small_mod((a - b) as nat, 0x1_0000_0000);
    }
}

/// The wraparound product agrees with `u32::wrapping_mul`.
pub proof fn lemma_wrap_mul_eq(a: u32, b: u32)
    ensures
        wrap_mul(a, b) == vstd::wrapping::u32_specs::wrapping_mul(a, b),
{
}

/// The jump destination agrees with `u32::wrapping_add_signed` on the
/// sign-extended offset.
pub proof fn lemma_jump_dest_eq(ip: u32, off: i16)
    ensures
        jump_dest(ip, off) == vstd::wrapping::u32_specs::wrapping_add_signed(ip, off as i32),
{
    if ip + off > u32::MAX {
        vstd::arithmetic::div_mod::lemma_mod_multiples_vanish(1, ip + off - 0x1_0000_0000, 0x1_0000_0000);
        vstd::arithmetic::div_mod::lemma_small_mod((ip + off - 0x1_0000_0000) as nat, 0x1_0000_0000);
    } else if ip + off < 0 {
        vstd::arithmetic::div_mod::lemma_small_mod((ip + off + 0x1_0000_0000) as nat, 0x1_0000_0000);
    } else {
        vstd::arithmetic::div_mod::lemma_mod_multiples_vanish(1, ip + off, 0x1_0000_0000);
        vstd::arithmetic::div_mod::lemma_small_mod((ip + off) as nat, 0x1_0000_0000);
    }
}

} // verus!
