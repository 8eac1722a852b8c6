//! SHA-256 as specified by FIPS 180-4.
//!
//! The digest of a byte sequence is defined mathematically by
//! `spec_sha256` and computed by `sha256` (over a string's UTF-8 bytes)
//! and `sha256_bytes` (over raw bytes); their contracts tie the
//! executable code to that definition. A message whose bit-length does
//! not fit the 64-bit length field of the padding is outside the
//! algorithm's domain; `try_sha256_bytes` rejects such a message
//! explicitly.

use vstd::prelude::*;
use vstd::string::StringSliceAdditionalSpecFns;

mod compress;
mod padding;
mod schedule;
mod tables;
mod words;

pub use compress::{compress_block, spec_compress, spec_round, spec_rounds};
pub use padding::{
    bytes_to_words, chunkify, fits_length_field, lemma_padded_len_multiple_of_64, pad_message,
    spec_padded, spec_words, spec_zero_pad_len,
};
pub use schedule::{expand_schedule, spec_schedule_word};
pub use tables::{initial_hash, round_constants, spec_h0, spec_k};
pub use words::{
    add_mod, big_sig_0, big_sig_1, ch, lil_sig_0, lil_sig_1, maj, rot_r, spec_big_sig_0,
    spec_big_sig_1, spec_ch, spec_lil_sig_0, spec_lil_sig_1, spec_maj, spec_rotr,
    spec_u64_be_bytes, word_add, word_of_bytes,
};

verus! {

/// The hash state after folding in every full block at the front of
/// `words`: blocks are consumed sixteen words at a time, in order.
pub open spec fn spec_process(h: Seq<u32>, words: Seq<u32>) -> Seq<u32>
    recommends
        h.len() == 8,
        words.len() % 16 == 0,
    decreases words.len(),
{
    if words.len() < 16 {
        h
    } else {
        spec_process(spec_compress(h, words.take(16)), words.skip(16))
    }
}

/// The SHA-256 digest of a message: pad, parse into blocks, and fold
/// every block into the initial hash state.
pub open spec fn spec_sha256(msg: Seq<u8>) -> Seq<u32>
    recommends
        fits_length_field(msg.len()),
{
    spec_process(spec_h0(), spec_words(spec_padded(msg)))
}

/// Folding blocks into an eight-word state leaves eight words.
proof fn lemma_process_len(h: Seq<u32>, words: Seq<u32>)
    requires
        h.len() == 8,
    ensures
        spec_process(h, words).len() == 8,
    decreases words.len(),
{
    if words.len() >= 16 {
        lemma_process_len(spec_compress(h, words.take(16)), words.skip(16));
    }
}

/// The digest of any message is exactly eight 32-bit words.
pub proof fn lemma_digest_len(msg: Seq<u8>)
    ensures
        spec_sha256(msg).len() == 8,
{
    lemma_process_len(spec_h0(), spec_words(spec_padded(msg)));
}

/// The digest is a function of the message alone: two computations on
/// equal inputs yield equal digests.
pub proof fn lemma_sha256_deterministic(m1: Seq<u8>, m2: Seq<u8>)
    requires
        m1 == m2,
    ensures
        spec_sha256(m1) == spec_sha256(m2),
{
}

/// Computes the SHA-256 digest of a byte sequence.
#[verifier::rlimit(100)]
pub fn sha256_bytes(message: &[u8]) -> (digest: [u32; 8])
    requires
        fits_length_field(message@.len()),
        message@.len() + 72 <= usize::MAX,
    ensures
        digest@ == spec_sha256(message@),
{
    let words = chunkify(message);
    let k = round_constants();
    let mut h = initial_hash();
    let n: usize = words.len() / 16;
    proof {
        vstd::arithmetic::div_mod::lemma_fundamental_div_mod(words@.len() as int, 16);
    }
    let ghost all: Seq<u32> = words@;
    proof {
        assert(all.skip(0) =~= all);
    }
    let mut i: usize = 0;
    while i < n
        invariant
            i <= n,
            words@ == all,
            all.len() == 16 * n,
            all.len() <= usize::MAX,
            k@ == spec_k(),
            k@.len() == 64,
            h@.len() == 8,
            spec_process(h@, all.skip(16 * i)) == spec_process(spec_h0(), all),
        decreases n - i,
    {
        let block = vstd::slice::slice_subrange(words.as_slice(), 16 * i, 16 * i + 16);
        proof {
            assert(block@ =~= all.skip(16 * i).take(16));
            assert(all.skip(16 * (i + 1)) =~= all.skip(16 * i).skip(16));
        }
        let ghost prev: Seq<u32> = h@;
        h = compress_block(&h, block, &k);
        proof {
            assert(spec_process(prev, all.skip(16 * i)) == spec_process(
                h@,
                all.skip(16 * (i + 1)),
            ));
        }
        i += 1;
    }
    proof {
        assert(all.skip(16 * i) =~= Seq::<u32>::empty());
        assert(spec_process(h@, Seq::<u32>::empty()) == h@);
    }
    let digest: [u32; 8] = [h[0], h[1], h[2], h[3], h[4], h[5], h[6], h[7]];
    proof {
        assert(digest@ =~= h@);
    }
    digest
}

/// Computes the SHA-256 digest of a string's UTF-8 bytes.
pub fn sha256(message: &str) -> (digest: [u32; 8])
    requires
        fits_length_field(message.spec_bytes().len()),
        message.spec_bytes().len() + 72 <= usize::MAX,
    ensures
        digest@ == spec_sha256(message.spec_bytes()),
{
    sha256_bytes(message.as_bytes())
}

/// Computes the digest, rejecting a message whose bit-length would
/// overflow the 64-bit length field of the padding (or whose padded
/// form would not fit in memory).
pub fn try_sha256_bytes(message: &[u8]) -> (r: Option<[u32; 8]>)
    ensures
        match r {
            Some(digest) => fits_length_field(message@.len()) && message@.len() + 72
                <= usize::MAX && digest@ == spec_sha256(message@),
            None => !(fits_length_field(message@.len()) && message@.len() + 72 <= usize::MAX),
        },
{
    if message.len() as u64 <= u64::MAX / 8 && message.len() <= usize::MAX - 72 {
        Some(sha256_bytes(message))
    } else {
        None
    }
}

} // verus!
