//! Message schedule expansion.
//!
//! From the sixteen words of one 512-bit block, the schedule derives
//! sixty-four words: the first sixteen are the block's words, and each
//! later word mixes four earlier ones with σ0 and σ1, modulo 2^32.

use vstd::prelude::*;

use crate::words::{add_mod, lil_sig_0, lil_sig_1, spec_lil_sig_0, spec_lil_sig_1, word_add};

verus! {

/// Schedule word W[t] of a block, 0 <= t < 64.
pub open spec fn spec_schedule_word(block: Seq<u32>, t: int) -> u32
    recommends
        block.len() == 16,
        0 <= t < 64,
    decreases t,
{
    if t < 16 {
        block[t]
    } else {
        word_add(
            word_add(
                word_add(
                    spec_lil_sig_1(spec_schedule_word(block, t - 2)),
                    spec_schedule_word(block, t - 7),
                ),
                spec_lil_sig_0(spec_schedule_word(block, t - 15)),
            ),
            spec_schedule_word(block, t - 16),
        )
    }
}

/// Expands one block's sixteen words into the sixty-four schedule words.
pub fn expand_schedule(block: &[u32]) -> (w: Vec<u32>)
    requires
        block@.len() == 16,
    ensures
        w@.len() == 64,
        forall|t: int| 0 <= t < 64 ==> w@[t] == spec_schedule_word(block@, t),
{
    let mut w: Vec<u32> = Vec::new();
    let mut i: usize = 0;
    while i < 16
        invariant
            i <= 16,
            block@.len() == 16,
            w@.len() == i,
            forall|t: int| 0 <= t < i ==> w@[t] == spec_schedule_word(block@, t),
        decreases 16 - i,
    {
        w.push(*vstd::slice::slice_index_get(block, i));
        i += 1;
    }
    let mut t: usize = 16;
    while t < 64
        invariant
            16 <= t <= 64,
            block@.len() == 16,
            w@.len() == t,
            forall|j: int| 0 <= j < t ==> w@[j] == spec_schedule_word(block@, j),
        decreases 64 - t,
    {
        let mixed = add_mod(
            add_mod(add_mod(lil_sig_1(w[t - 2]), w[t - 7]), lil_sig_0(w[t - 15])),
            w[t - 16],
        );
        w.push(mixed);
        t += 1;
    }
    w
}

} // verus!
