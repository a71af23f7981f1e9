//! How the state of the model follows an input that arrives in pieces.
use crate::model::{absorb_blocks, absorbed, init, lanes, pending, update, State};
use vstd::prelude::*;

verus! {

/// The first `n` blocks of an input are absorbed alike whatever follows
/// them.
pub proof fn lemma_blocks_of_prefix(s: State, a: Seq<u8>, b: Seq<u8>, n: nat)
    requires
        32 * n <= a.len() <= b.len(),
        b.subrange(0, a.len() as int) == a,
    ensures
        absorb_blocks(s, a, n) == absorb_blocks(s, b, n),
    decreases n,
{
    if n > 0 {
        lemma_blocks_of_prefix(s, a, b, (n - 1) as nat);
        assert(a.subrange(32 * (n - 1), 32 * (n as int)) =~= b.subrange(
            32 * (n - 1),
            32 * (n as int),
        ));
    }
}

/// Adding less than the room that is left in a block starts no new block.
proof fn lemma_same_block(a: nat, c: nat)
    requires
        a % 32 + c < 32,
    ensures
        (a + c) / 32 == a / 32,
        (a + c) % 32 == a % 32 + c,
{
}

/// Adding exactly the room that is left in a block completes it.
proof fn lemma_next_block(a: nat, c: nat)
    requires
        a % 32 + c == 32,
    ensures
        (a + c) / 32 == a / 32 + 1,
        (a + c) % 32 == 0,
{
}

/// A chunk that does not complete the pending block changes nothing but
/// what waits.
pub proof fn lemma_append_waits(key: Seq<u64>, seen: Seq<u8>, chunk: Seq<u8>)
    requires
        seen.len() % 32 + chunk.len() < 32,
    ensures
        absorbed(key, seen + chunk) == absorbed(key, seen),
        pending(seen + chunk) == pending(seen) + chunk,
{
    let all = seen + chunk;
    let n = seen.len() / 32;
    let base = seen.len() - seen.len() % 32;
    lemma_same_block(seen.len(), chunk.len());
    assert(all.len() == seen.len() + chunk.len());
    assert(all.len() / 32 == n);
    assert(all.len() - all.len() % 32 == base);
    assert(absorb_blocks(init(key), seen, n) == absorb_blocks(init(key), all, n)) by {
        assert(all.subrange(0, seen.len() as int) =~= seen);
        lemma_blocks_of_prefix(init(key), seen, all, n);
    }
    assert(all.subrange(base, all.len() as int) =~= seen.subrange(base, seen.len() as int) + chunk);
}

/// A chunk that completes the pending block has that block absorbed, and
/// nothing waits after it.
pub proof fn lemma_append_completes(key: Seq<u64>, seen: Seq<u8>, chunk: Seq<u8>)
    requires
        seen.len() % 32 + chunk.len() == 32,
    ensures
        absorbed(key, seen + chunk) == update(absorbed(key, seen), lanes(pending(seen) + chunk)),
        pending(seen + chunk) == Seq::<u8>::empty(),
{
    let all = seen + chunk;
    let n = seen.len() / 32;
    let base = seen.len() - seen.len() % 32;
    lemma_next_block(seen.len(), chunk.len());
    assert(all.len() == seen.len() + chunk.len());
    assert(all.len() / 32 == n + 1);
    assert(all.len() % 32 == 0);
    assert(base == 32 * n);
    assert(all.len() == 32 * (n + 1));
    assert(absorb_blocks(init(key), seen, n) == absorb_blocks(init(key), all, n)) by {
        assert(all.subrange(0, seen.len() as int) =~= seen);
        lemma_blocks_of_prefix(init(key), seen, all, n);
    }
    assert(all.subrange(32 * (n as int), 32 * (n as int + 1)) =~= seen.subrange(
        base,
        seen.len() as int,
    ) + chunk);
    assert(all.subrange(all.len() as int, all.len() as int) =~= Seq::<u8>::empty());
    assert(absorb_blocks(init(key), all, n + 1) == update(
        absorb_blocks(init(key), all, n),
        lanes(all.subrange(32 * (n as int), 32 * (n as int + 1))),
    ));
}

} // verus!
