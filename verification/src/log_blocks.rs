//! Cutting a byte stream into whole blocks for the card.

use vstd::prelude::*;

verus! {

/// Bytes in one block written to the card.
pub const BLOCK_LEN: usize = 512;

/// The whole blocks at the front of `s`.
pub open spec fn full_blocks(s: Seq<u8>) -> Seq<Seq<u8>> {
    Seq::new(
        s.len() / BLOCK_LEN as nat,
        |i: int| s.subrange(BLOCK_LEN * i, BLOCK_LEN * i + BLOCK_LEN),
    )
}

/// What is left of `s` behind its whole blocks.
pub open spec fn leftover(s: Seq<u8>) -> Seq<u8> {
    s.skip(BLOCK_LEN * (s.len() as int / BLOCK_LEN as int))
}

/// All `parts`, one after the other.
pub open spec fn joined(parts: Seq<Seq<u8>>) -> Seq<u8>
    decreases parts.len(),
{
    if parts.len() == 0 {
        Seq::empty()
    } else {
        joined(parts.drop_last()) + parts.last()
    }
}

/// The contents of a list of byte vectors.
pub open spec fn contents(blocks: Seq<Vec<u8>>) -> Seq<Seq<u8>> {
    Seq::new(blocks.len(), |i: int| blocks[i]@)
}

/// The blocks that fall due and the bytes still pending once `parts` have been handed over one
/// after the other, with `pending` held back before.
pub open spec fn fed(pending: Seq<u8>, parts: Seq<Seq<u8>>) -> (Seq<Seq<u8>>, Seq<u8>)
    decreases parts.len(),
{
    if parts.len() == 0 {
        (Seq::empty(), pending)
    } else {
        let (blocks, held) = fed(pending, parts.drop_last());
        (blocks + full_blocks(held + parts.last()), leftover(held + parts.last()))
    }
}

/// Handing over `more` behind a stream yields the blocks of the longer stream.
pub proof fn lemma_feed_more(s: Seq<u8>, more: Seq<u8>)
    ensures
        full_blocks(s) + full_blocks(leftover(s) + more) == full_blocks(s + more),
        leftover(leftover(s) + more) == leftover(s + more),
        leftover(s).len() < BLOCK_LEN,
{
    let n = s.len() as int / BLOCK_LEN as int;
    let k = (leftover(s) + more).len() as int / BLOCK_LEN as int;
    let all = s + more;
    assert((leftover(s) + more).len() == all.len() - BLOCK_LEN * n);
    assert(all.len() as int / BLOCK_LEN as int == n + k);
    let lhs = full_blocks(s) + full_blocks(leftover(s) + more);
    assert forall|i: int| 0 <= i < n + k implies #[trigger] lhs[i] == full_blocks(all)[i] by {
        if i < n {
            assert(lhs[i] == s.subrange(BLOCK_LEN * i, BLOCK_LEN * i + BLOCK_LEN));
            assert(lhs[i] == all.subrange(BLOCK_LEN * i, BLOCK_LEN * i + BLOCK_LEN));
        } else {
            let j = i - n;
            assert(lhs[i] == (leftover(s) + more).subrange(
                BLOCK_LEN * j,
                BLOCK_LEN * j + BLOCK_LEN,
            ));
            assert(lhs[i] == all.subrange(BLOCK_LEN * i, BLOCK_LEN * i + BLOCK_LEN));
        }
    }
    assert(lhs == full_blocks(all));
    assert(leftover(leftover(s) + more) == leftover(all));
}

/// A buffer of one block that held `buf` once a stream has passed through it: what is left of the
/// stream stands at its front, and behind that what the last whole block left there, or what stood
/// there before if there was none.
pub open spec fn buffer_after(buf: Seq<u8>, s: Seq<u8>) -> Seq<u8> {
    Seq::new(
        BLOCK_LEN as nat,
        |j: int|
            if j < leftover(s).len() {
                leftover(s)[j]
            } else if full_blocks(s).len() > 0 {
                full_blocks(s).last()[j]
            } else {
                buf[j]
            },
    )
}

/// A buffer that more of a stream passes through is as if the longer stream had passed.
pub proof fn lemma_buffer_more(buf: Seq<u8>, s: Seq<u8>, more: Seq<u8>)
    ensures
        buffer_after(buffer_after(buf, s), leftover(s) + more) == buffer_after(buf, s + more),
{
    lemma_feed_more(s, more);
    let next = leftover(s) + more;
    if full_blocks(next).len() > 0 {
        assert(full_blocks(s + more).last() == full_blocks(next).last());
    } else {
        lemma_short_stream(next);
        assert(full_blocks(s + more) == full_blocks(s));
    }
    assert(buffer_after(buffer_after(buf, s), next) == buffer_after(buf, s + more));
}

/// A stream shorter than a block is all left over; one as long as a block is that block.
pub proof fn lemma_short_stream(s: Seq<u8>)
    requires
        s.len() <= BLOCK_LEN,
    ensures
        s.len() < BLOCK_LEN ==> full_blocks(s) == Seq::<Seq<u8>>::empty() && leftover(s) == s,
        s.len() == BLOCK_LEN ==> full_blocks(s) == seq![s] && leftover(s) == Seq::<u8>::empty(),
{
    if s.len() == BLOCK_LEN {
        assert(full_blocks(s)[0] == s);
    }
}

/// Joining the blocks of a stream and what is left of it gives back the stream.
pub proof fn law_blocks_hold_the_stream(s: Seq<u8>)
    ensures
        joined(full_blocks(s)) + leftover(s) == s,
        leftover(s).len() < BLOCK_LEN,
        forall|i: int| 0 <= i < full_blocks(s).len() ==> #[trigger] full_blocks(s)[i].len()
            == BLOCK_LEN,
    decreases s.len(),
{
    if s.len() < BLOCK_LEN {
        lemma_short_stream(s);
    } else {
        let n = s.len() as int / BLOCK_LEN as int;
        let cut = BLOCK_LEN * (n - 1);
        let front = s.take(cut);
        let block = s.subrange(cut, cut + BLOCK_LEN);
        law_blocks_hold_the_stream(front);
        assert(full_blocks(s).drop_last() == full_blocks(front)) by {
            assert forall|i: int| 0 <= i < n - 1 implies #[trigger] full_blocks(s)[i]
                == full_blocks(front)[i] by {
                assert(s.subrange(BLOCK_LEN * i, BLOCK_LEN * i + BLOCK_LEN) == front.subrange(
                    BLOCK_LEN * i,
                    BLOCK_LEN * i + BLOCK_LEN,
                ));
            }
        }
        assert(full_blocks(s).last() == block);
        assert(leftover(front).len() == 0);
        assert(joined(full_blocks(front)) == front);
        assert(front + block + leftover(s) == s);
    }
}

/// However a stream is cut into the parts that are handed over, the same blocks fall due and the
/// same bytes stay pending.
pub proof fn law_cuts_do_not_matter(pending: Seq<u8>, parts: Seq<Seq<u8>>)
    requires
        pending.len() < BLOCK_LEN,
    ensures
        fed(pending, parts).0 == full_blocks(pending + joined(parts)),
        fed(pending, parts).1 == leftover(pending + joined(parts)),
    decreases parts.len(),
{
    if parts.len() == 0 {
        lemma_short_stream(pending);
        assert(pending + joined(parts) == pending);
    } else {
        law_cuts_do_not_matter(pending, parts.drop_last());
        let s = pending + joined(parts.drop_last());
        lemma_feed_more(s, parts.last());
        assert(s + parts.last() == pending + joined(parts));
    }
}

/// Nothing handed over is lost, repeated or reordered: the blocks that fell due, followed by the
/// bytes still pending, are what was pending before, followed by all parts.
pub proof fn law_nothing_is_lost(pending: Seq<u8>, parts: Seq<Seq<u8>>)
    requires
        pending.len() < BLOCK_LEN,
    ensures
        joined(fed(pending, parts).0) + fed(pending, parts).1 == pending + joined(parts),
{
    law_cuts_do_not_matter(pending, parts);
    law_blocks_hold_the_stream(pending + joined(parts));
}

/// What stands in the buffer: what is left of the stream at its front, and behind that, byte for
/// byte, what passed one block earlier; a stream shorter than a block leaves the rest alone.
pub proof fn law_buffer_keeps_the_last_block(buf: Seq<u8>, s: Seq<u8>, j: int)
    requires
        0 <= j < BLOCK_LEN,
    ensures
        ({
            let rest = s.len() as int % BLOCK_LEN as int;
            buffer_after(buf, s)[j] == if j < rest {
                s[s.len() - rest + j]
            } else if s.len() >= BLOCK_LEN {
                s[s.len() - rest - BLOCK_LEN + j]
            } else {
                buf[j]
            }
        }),
{
    let n = s.len() as int / BLOCK_LEN as int;
    let rest = s.len() as int % BLOCK_LEN as int;
    assert(s.len() == BLOCK_LEN * n + rest);
    if s.len() >= BLOCK_LEN {
        assert(full_blocks(s).last() == s.subrange(BLOCK_LEN * (n - 1), BLOCK_LEN * n));
    }
}

} // verus!
