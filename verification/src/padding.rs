//! Message padding and block parsing.
//!
//! A message is padded with a single 0x80 byte, then with zero bytes until
//! the length is congruent to 56 modulo 64, then with the message's
//! bit-length as a big-endian 64-bit integer. The padded bytes are parsed
//! into consecutive big-endian 32-bit words; each run of sixteen words is
//! one 512-bit block.

use vstd::prelude::*;

use crate::words::{spec_u64_be_bytes, word_of_bytes};

verus! {

/// Largest message length the 64-bit bit-length field admits.
pub open spec fn fits_length_field(len: nat) -> bool {
    len * 8 <= u64::MAX
}

/// Number of zero bytes that follow the 0x80 byte: the least count that
/// brings the length to 56 modulo 64.
pub open spec fn spec_zero_pad_len(len: nat) -> nat {
    if (len + 1) % 64 <= 56 {
        (56 - (len + 1) % 64) as nat
    } else {
        (120 - (len + 1) % 64) as nat
    }
}

/// The padded form of a message: the message, one 0x80 byte, zero bytes
/// up to the 56-mod-64 boundary, and the bit-length as eight big-endian
/// bytes.
pub open spec fn spec_padded(msg: Seq<u8>) -> Seq<u8>
    recommends
        fits_length_field(msg.len()),
{
    msg + seq![0x80u8] + Seq::new(spec_zero_pad_len(msg.len()), |i: int| 0u8)
        + spec_u64_be_bytes((msg.len() * 8) as u64)
}

/// The padded byte length is always a positive multiple of 64.
pub proof fn lemma_padded_len_multiple_of_64(msg: Seq<u8>)
    ensures
        spec_padded(msg).len() % 64 == 0,
        spec_padded(msg).len() > 0,
        spec_padded(msg).len() == msg.len() + 1 + spec_zero_pad_len(msg.len()) + 8,
{
    let len = msg.len() as int;
    let r = (len + 1) % 64;
    let q = (len + 1) / 64;
    vstd::arithmetic::div_mod::lemma_fundamental_div_mod(len + 1, 64);
    assert(len + 1 == 64 * q + r);
    let total = spec_padded(msg).len();
    assert(total == len + 1 + spec_zero_pad_len(msg.len()) + 8);
    if r <= 56 {
        assert(total == 64 * q + 64);
        assert((64 * (q + 1)) % 64 == 0) by {
            vstd::arithmetic::div_mod::lemma_mod_multiples_basic(q + 1, 64);
        }
        assert(64 * (q + 1) == 64 * q + 64) by (nonlinear_arith);
    } else {
        assert(total == 64 * q + 128);
        assert((64 * (q + 2)) % 64 == 0) by {
            vstd::arithmetic::div_mod::lemma_mod_multiples_basic(q + 2, 64);
        }
        assert(64 * (q + 2) == 64 * q + 128) by (nonlinear_arith);
    }
}

/// A byte count that is a multiple of 64 is a multiple of 4, and parses
/// into a word count that is a multiple of 16.
proof fn lemma_div_64_into_words(len: int)
    requires
        len >= 0,
        len % 64 == 0,
    ensures
        len % 4 == 0,
        (len / 4) % 16 == 0,
{
    let k = len / 64;
    vstd::arithmetic::div_mod::lemma_fundamental_div_mod(len, 64);
    assert(len == 64 * k);
    assert(64 * k == (16 * k) * 4) by (nonlinear_arith);
    assert(((16 * k) * 4) % 4 == 0) by {
        vstd::arithmetic::div_mod::lemma_mod_multiples_basic(16 * k, 4);
    }
    assert((4 * (16 * k)) / 4 == 16 * k) by {
        vstd::arithmetic::div_mod::lemma_div_multiples_vanish(16 * k, 4);
    }
    assert(4 * (16 * k) == 64 * k) by (nonlinear_arith);
    assert(len / 4 == 16 * k);
    assert((k * 16) % 16 == 0) by {
        vstd::arithmetic::div_mod::lemma_mod_multiples_basic(k, 16);
    }
    assert(16 * k == k * 16) by (nonlinear_arith);
}

/// The padded bytes parsed into consecutive big-endian 32-bit words.
pub open spec fn spec_words(bytes: Seq<u8>) -> Seq<u32>
    recommends
        bytes.len() % 4 == 0,
{
    Seq::new(bytes.len() / 4, |i: int| word_of_bytes(
        bytes[4 * i],
        bytes[4 * i + 1],
        bytes[4 * i + 2],
        bytes[4 * i + 3],
    ))
}

/// Pads a message as FIPS 180-4 prescribes.
pub fn pad_message(message: &[u8]) -> (padded: Vec<u8>)
    requires
        fits_length_field(message@.len()),
        message@.len() + 72 <= usize::MAX,
    ensures
        padded@ == spec_padded(message@),
{
    let len: usize = message.len();
    let mut padded: Vec<u8> = Vec::new();
    let mut i: usize = 0;
    while i < len
        invariant
            i <= len,
            len == message@.len(),
            padded@ =~= message@.take(i as int),
        decreases len - i,
    {
        padded.push(*vstd::slice::slice_index_get(message, i));
        i += 1;
    }
    assert(padded@ =~= message@);
    padded.push(0x80);

    let zeros: usize = if (len + 1) % 64 <= 56 {
        56 - (len + 1) % 64
    } else {
        120 - (len + 1) % 64
    };
    assert(zeros == spec_zero_pad_len(len as nat));
    let mut z: usize = 0;
    while z < zeros
        invariant
            z <= zeros,
            len == message@.len(),
            fits_length_field(message@.len()),
            zeros == spec_zero_pad_len(message@.len()),
            padded@ =~= message@ + seq![0x80u8] + Seq::new(z as nat, |i: int| 0u8),
        decreases zeros - z,
    {
        padded.push(0);
        z += 1;
    }

    let bits: u64 = (len as u64) * 8;
    padded.push(#[verifier::truncate] ((bits >> 56) as u8));
    padded.push(#[verifier::truncate] ((bits >> 48) as u8));
    padded.push(#[verifier::truncate] ((bits >> 40) as u8));
    padded.push(#[verifier::truncate] ((bits >> 32) as u8));
    padded.push(#[verifier::truncate] ((bits >> 24) as u8));
    padded.push(#[verifier::truncate] ((bits >> 16) as u8));
    padded.push(#[verifier::truncate] ((bits >> 8) as u8));
    padded.push(#[verifier::truncate] (bits as u8));
    proof {
        assert(padded@ =~= spec_padded(message@));
    }
    padded
}

/// Parses bytes into consecutive big-endian 32-bit words.
pub fn bytes_to_words(bytes: &Vec<u8>) -> (words: Vec<u32>)
    requires
        bytes@.len() % 4 == 0,
    ensures
        words@ == spec_words(bytes@),
{
    let n: usize = bytes.len() / 4;
    let mut words: Vec<u32> = Vec::new();
    let mut i: usize = 0;
    while i < n
        invariant
            i <= n,
            n == bytes@.len() / 4,
            bytes@.len() % 4 == 0,
            bytes@.len() <= usize::MAX,
            words@.len() == i,
            forall|j: int| 0 <= j < i ==> words@[j] == spec_words(bytes@)[j],
        decreases n - i,
    {
        assert(4 * i + 3 < bytes@.len()) by {
            vstd::arithmetic::div_mod::lemma_fundamental_div_mod(bytes@.len() as int, 4);
        }
        let b0: u8 = bytes[4 * i];
        let b1: u8 = bytes[4 * i + 1];
        let b2: u8 = bytes[4 * i + 2];
        let b3: u8 = bytes[4 * i + 3];
        let w: u32 = ((b0 as u32) << 24u32) | ((b1 as u32) << 16u32) | ((b2 as u32) << 8u32)
            | (b3 as u32);
        words.push(w);
        i += 1;
    }
    proof {
        assert(words@ =~= spec_words(bytes@));
    }
    words
}

/// Pads a message and parses it into the words of its 512-bit blocks.
pub fn chunkify(message: &[u8]) -> (words: Vec<u32>)
    requires
        fits_length_field(message@.len()),
        message@.len() + 72 <= usize::MAX,
    ensures
        words@ == spec_words(spec_padded(message@)),
        words@.len() % 16 == 0,
{
    let padded = pad_message(message);
    proof {
        lemma_padded_len_multiple_of_64(message@);
        lemma_div_64_into_words(padded@.len() as int);
    }
    let words = bytes_to_words(&padded);
    proof {
        assert(words@.len() == padded@.len() / 4);
    }
    words
}

} // verus!
