//! The compression function: sixty-four rounds over eight working
//! variables, then the feed-forward addition into the running hash state.

use vstd::prelude::*;

use crate::schedule::{expand_schedule, spec_schedule_word};
use crate::tables::spec_k;
use crate::words::{
    add_mod, big_sig_0, big_sig_1, ch, maj, spec_big_sig_0, spec_big_sig_1, spec_ch, spec_maj,
    word_add,
};

verus! {

/// One compression round: `v` is the eight working variables, `kt` the
/// round constant and `wt` the schedule word of this round.
pub open spec fn spec_round(v: Seq<u32>, kt: u32, wt: u32) -> Seq<u32>
    recommends
        v.len() == 8,
{
    let t1 = word_add(
        word_add(word_add(word_add(v[7], spec_big_sig_1(v[4])), spec_ch(v[4], v[5], v[6])), kt),
        wt,
    );
    let t2 = word_add(spec_big_sig_0(v[0]), spec_maj(v[0], v[1], v[2]));
    seq![word_add(t1, t2), v[0], v[1], v[2], word_add(v[3], t1), v[4], v[5], v[6]]
}

/// The working variables after the first `t` rounds of a block, starting
/// from the hash state `h`.
pub open spec fn spec_rounds(h: Seq<u32>, block: Seq<u32>, t: int) -> Seq<u32>
    recommends
        h.len() == 8,
        block.len() == 16,
        0 <= t <= 64,
    decreases t,
{
    if t <= 0 {
        h
    } else {
        spec_round(
            spec_rounds(h, block, t - 1),
            spec_k()[t - 1],
            spec_schedule_word(block, t - 1),
        )
    }
}

/// The hash state after one block: sixty-four rounds followed by the
/// feed-forward addition of the old state.
pub open spec fn spec_compress(h: Seq<u32>, block: Seq<u32>) -> Seq<u32>
    recommends
        h.len() == 8,
        block.len() == 16,
{
    Seq::new(8, |i: int| word_add(h[i], spec_rounds(h, block, 64)[i]))
}

/// The working variables keep their count of eight through every round.
proof fn lemma_rounds_len(h: Seq<u32>, block: Seq<u32>, t: int)
    requires
        h.len() == 8,
        0 <= t,
    ensures
        spec_rounds(h, block, t).len() == 8,
    decreases t,
{
    if t > 0 {
        lemma_rounds_len(h, block, t - 1);
    }
}

/// Folds one block into the hash state.
#[verifier::rlimit(60)]
pub fn compress_block(h: &Vec<u32>, block: &[u32], k: &Vec<u32>) -> (h2: Vec<u32>)
    requires
        h@.len() == 8,
        block@.len() == 16,
        k@ == spec_k(),
        k@.len() == 64,
    ensures
        h2@ == spec_compress(h@, block@),
{
    let w = expand_schedule(block);
    let mut a = h[0];
    let mut b = h[1];
    let mut c = h[2];
    let mut d = h[3];
    let mut e = h[4];
    let mut f = h[5];
    let mut g = h[6];
    let mut hh = h[7];
    let mut t: usize = 0;
    while t < 64
        invariant
            t <= 64,
            h@.len() == 8,
            block@.len() == 16,
            k@ == spec_k(),
            k@.len() == 64,
            w@.len() == 64,
            forall|j: int| 0 <= j < 64 ==> w@[j] == spec_schedule_word(block@, j),
            spec_rounds(h@, block@, t as int).len() == 8,
            a == spec_rounds(h@, block@, t as int)[0],
            b == spec_rounds(h@, block@, t as int)[1],
            c == spec_rounds(h@, block@, t as int)[2],
            d == spec_rounds(h@, block@, t as int)[3],
            e == spec_rounds(h@, block@, t as int)[4],
            f == spec_rounds(h@, block@, t as int)[5],
            g == spec_rounds(h@, block@, t as int)[6],
            hh == spec_rounds(h@, block@, t as int)[7],
        decreases 64 - t,
    {
        let t1 = add_mod(add_mod(add_mod(add_mod(hh, big_sig_1(e)), ch(e, f, g)), k[t]), w[t]);
        let t2 = add_mod(big_sig_0(a), maj(a, b, c));
        hh = g;
        g = f;
        f = e;
        e = add_mod(d, t1);
        d = c;
        c = b;
        b = a;
        a = add_mod(t1, t2);
        proof {
            lemma_rounds_len(h@, block@, t + 1);
            assert(spec_rounds(h@, block@, t + 1) == spec_round(
                spec_rounds(h@, block@, t as int),
                spec_k()[t as int],
                spec_schedule_word(block@, t as int),
            ));
        }
        t += 1;
    }
    let mut h2: Vec<u32> = Vec::new();
    h2.push(add_mod(h[0], a));
    h2.push(add_mod(h[1], b));
    h2.push(add_mod(h[2], c));
    h2.push(add_mod(h[3], d));
    h2.push(add_mod(h[4], e));
    h2.push(add_mod(h[5], f));
    h2.push(add_mod(h[6], g));
    h2.push(add_mod(h[7], hh));
    proof {
        assert(h2@ =~= spec_compress(h@, block@));
    }
    h2
}

} // verus!
