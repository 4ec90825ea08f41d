//! The chunking of `fill_bytes`: the system generator fills at most
//! `u32::MAX` bytes per call, so a buffer is filled in consecutive chunks.
use vstd::prelude::*;

verus! {

/// The length of the next chunk when `remaining` bytes are left to fill.
pub open spec fn chunk_len(remaining: nat) -> nat {
    if remaining > u32::MAX {
        u32::MAX as nat
    } else {
        remaining
    }
}

/// The chunk lengths, in order, with which a buffer of `total` bytes is
/// filled.
pub open spec fn chunks(total: nat) -> Seq<nat>
    decreases total,
{
    if total == 0 {
        Seq::empty()
    } else {
        seq![chunk_len(total)] + chunks((total - chunk_len(total)) as nat)
    }
}

/// The sum of a sequence of lengths.
pub open spec fn sum(s: Seq<nat>) -> nat
    decreases s.len(),
{
    if s.len() == 0 {
        0
    } else {
        s[0] + sum(s.drop_first())
    }
}

/// The length handed to the generator when `remaining` bytes are left:
/// all of them, or `u32::MAX` where more remain.
pub fn next_chunk_len(remaining: usize) -> (len: u32)
    ensures
        len == chunk_len(remaining as nat),
        remaining > 0 ==> len > 0,
        len <= remaining,
{
    if remaining > 0xffff_ffffusize {
        u32::MAX
    } else {
        remaining as u32
    }
}

/// The chunks fill the buffer exactly: they add up to its length, none is
/// empty, and every one but the last is as long as a call allows.
pub proof fn lemma_chunks_cover_buffer(total: nat)
    ensures
        sum(chunks(total)) == total,
        forall|i: int| 0 <= i < chunks(total).len() ==> chunks(total)[i] > 0,
        forall|i: int| 0 <= i < chunks(total).len() - 1 ==> chunks(total)[i] == u32::MAX,
    decreases total,
{
    if total > 0 {
        let rest = (total - chunk_len(total)) as nat;
        lemma_chunks_cover_buffer(rest);
        assert(chunks(total).drop_first() =~= chunks(rest));
        assert forall|i: int| 0 <= i < chunks(total).len() - 1 implies chunks(total)[i] == u32::MAX by {
            if i > 0 {
                assert(chunks(total)[i] == chunks(rest)[i - 1]);
            } else if total <= u32::MAX {
                assert(rest == 0);
            }
        }
    }
}

} // verus!
