//! 32-bit word arithmetic and the six SHA-256 mixing functions.
//!
//! All addition is modulo 2^32; `word_add` is the specification of that
//! wraparound and `add_mod` the executable form. The mixing functions
//! (Σ0, Σ1, σ0, σ1, Ch, Maj) are built from rotates, shifts and bitwise
//! logic over 32-bit words.

use vstd::prelude::*;

verus! {

/// Addition of two 32-bit words modulo 2^32, the wraparound the
/// algorithm requires everywhere.
pub open spec fn word_add(x: u32, y: u32) -> u32 {
    ((x + y) % 0x1_0000_0000) as u32
}

proof fn lemma_word_add_is_wrapping(x: u32, y: u32)
    ensures
        word_add(x, y) == (if x + y > u32::MAX {
            (x + y - 0x1_0000_0000) as u32
        } else {
            (x + y) as u32
        }),
{
    let s = x + y;
    if s > u32::MAX {
        assert((s - 0x1_0000_0000) % 0x1_0000_0000 == s % 0x1_0000_0000) by {
            vstd::arithmetic::div_mod::lemma_mod_add_multiples_vanish(
                s - 0x1_0000_0000,
                0x1_0000_0000,
            );
        }
        assert((s - 0x1_0000_0000) % 0x1_0000_0000 == s - 0x1_0000_0000) by {
            vstd::arithmetic::div_mod::lemma_small_mod(
                (s - 0x1_0000_0000) as nat,
                0x1_0000_0000,
            );
        }
    } else {
        assert(s % 0x1_0000_0000 == s) by {
            vstd::arithmetic::div_mod::lemma_small_mod(s as nat, 0x1_0000_0000);
        }
    }
}

/// Executable addition modulo 2^32.
pub fn add_mod(x: u32, y: u32) -> (r: u32)
    ensures
        r == word_add(x, y),
{
    proof {
        lemma_word_add_is_wrapping(x, y);
    }
    x.wrapping_add(y)
}

/// Right rotation of a 32-bit word by `n` positions, 0 < n < 32.
pub open spec fn spec_rotr(x: u32, n: u32) -> u32
    recommends
        0 < n < 32,
{
    (x >> n) | (x << (32 - n) as u32)
}

/// Executable right rotation.
pub fn rot_r(x: u32, n: u32) -> (r: u32)
    requires
        0 < n < 32,
    ensures
        r == spec_rotr(x, n),
{
    (x >> n) | (x << (32 - n))
}

/// Σ0, the first large mixing function of the compression rounds.
pub open spec fn spec_big_sig_0(x: u32) -> u32 {
    spec_rotr(x, 2) ^ spec_rotr(x, 13) ^ spec_rotr(x, 22)
}

pub fn big_sig_0(x: u32) -> (r: u32)
    ensures
        r == spec_big_sig_0(x),
{
    rot_r(x, 2) ^ rot_r(x, 13) ^ rot_r(x, 22)
}

/// Σ1, the second large mixing function of the compression rounds.
pub open spec fn spec_big_sig_1(x: u32) -> u32 {
    spec_rotr(x, 6) ^ spec_rotr(x, 11) ^ spec_rotr(x, 25)
}

pub fn big_sig_1(x: u32) -> (r: u32)
    ensures
        r == spec_big_sig_1(x),
{
    rot_r(x, 6) ^ rot_r(x, 11) ^ rot_r(x, 25)
}

/// σ0, the first small mixing function of the schedule expansion.
pub open spec fn spec_lil_sig_0(x: u32) -> u32 {
    spec_rotr(x, 7) ^ spec_rotr(x, 18) ^ (x >> 3)
}

pub fn lil_sig_0(x: u32) -> (r: u32)
    ensures
        r == spec_lil_sig_0(x),
{
    rot_r(x, 7) ^ rot_r(x, 18) ^ (x >> 3)
}

/// σ1, the second small mixing function of the schedule expansion.
pub open spec fn spec_lil_sig_1(x: u32) -> u32 {
    spec_rotr(x, 17) ^ spec_rotr(x, 19) ^ (x >> 10)
}

pub fn lil_sig_1(x: u32) -> (r: u32)
    ensures
        r == spec_lil_sig_1(x),
{
    rot_r(x, 17) ^ rot_r(x, 19) ^ (x >> 10)
}

/// Ch: for each bit, choose the bit of `y` or of `z` according to `x`.
pub open spec fn spec_ch(x: u32, y: u32, z: u32) -> u32 {
    (x & y) ^ (!x & z)
}

pub fn ch(x: u32, y: u32, z: u32) -> (r: u32)
    ensures
        r == spec_ch(x, y, z),
{
    (x & y) ^ (!x & z)
}

/// Maj: for each bit, the majority of the bits of `x`, `y` and `z`.
pub open spec fn spec_maj(x: u32, y: u32, z: u32) -> u32 {
    (x & y) ^ (x & z) ^ (y & z)
}

pub fn maj(x: u32, y: u32, z: u32) -> (r: u32)
    ensures
        r == spec_maj(x, y, z),
{
    (x & y) ^ (x & z) ^ (y & z)
}

/// The 32-bit word that four bytes form in big-endian order.
pub open spec fn word_of_bytes(b0: u8, b1: u8, b2: u8, b3: u8) -> u32 {
    ((b0 as u32) << 24) | ((b1 as u32) << 16) | ((b2 as u32) << 8) | (b3 as u32)
}

/// The eight bytes of a 64-bit value in big-endian order.
pub open spec fn spec_u64_be_bytes(x: u64) -> Seq<u8> {
    seq![
        (x >> 56) as u8,
        (x >> 48) as u8,
        (x >> 40) as u8,
        (x >> 32) as u8,
        (x >> 24) as u8,
        (x >> 16) as u8,
        (x >> 8) as u8,
        x as u8,
    ]
}

} // verus!
