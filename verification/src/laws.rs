//! What holds of every hasher, stated over the model that their contracts
//! speak of.
use crate::builder::{preferred, Backend};
use crate::capability::Capabilities;
use crate::model::{hash128, hash256, hash64};
use crate::traits::HighwayHash;
use vstd::prelude::*;

verus! {

/// The input of a hasher that had `input` and was then given the pieces of
/// `chunks`, one `append` each, in order.
pub open spec fn fed(input: Seq<u8>, chunks: Seq<Seq<u8>>) -> Seq<u8>
    decreases chunks.len(),
{
    if chunks.len() == 0 {
        input
    } else {
        fed(input, chunks.drop_last()) + chunks.last()
    }
}

/// The pieces of `chunks` joined into one sequence.
pub open spec fn joined(chunks: Seq<Seq<u8>>) -> Seq<u8>
    decreases chunks.len(),
{
    if chunks.len() == 0 {
        Seq::empty()
    } else {
        joined(chunks.drop_last()) + chunks.last()
    }
}

/// Giving a hasher its input in pieces leaves it with the input that one
/// `append` of the joined pieces leaves it with.
pub proof fn law_pieces_join(input: Seq<u8>, chunks: Seq<Seq<u8>>)
    ensures
        fed(input, chunks) == input + joined(chunks),
    decreases chunks.len(),
{
    if chunks.len() == 0 {
        assert(input + joined(chunks) =~= input);
    } else {
        law_pieces_join(input, chunks.drop_last());
        assert((input + joined(chunks.drop_last())) + chunks.last() =~= input + (joined(
            chunks.drop_last(),
        ) + chunks.last()));
    }
}

/// Chunk invariance: however an input is cut into consecutive pieces, a
/// fresh hasher that is given the pieces in order yields the hashes of the
/// whole input.
pub proof fn law_chunks_do_not_matter(key: Seq<u64>, data: Seq<u8>, chunks: Seq<Seq<u8>>)
    requires
        joined(chunks) == data,
    ensures
        hash64(key, fed(Seq::empty(), chunks)) == hash64(key, data),
        hash128(key, fed(Seq::empty(), chunks)) == hash128(key, data),
        hash256(key, fed(Seq::empty(), chunks)) == hash256(key, data),
{
    law_pieces_join(Seq::empty(), chunks);
    assert(Seq::<u8>::empty() + data =~= data);
}

/// One-shot and streaming use agree: the hash that `hash64`, `hash128` or
/// `hash256` returns for `data` on a fresh hasher is the one that the
/// matching `finalize` returns after one `append` of `data`.
pub proof fn law_one_shot_is_streaming(key: Seq<u64>, data: Seq<u8>)
    ensures
        hash64(key, Seq::<u8>::empty() + data) == hash64(key, fed(Seq::empty(), seq![data])),
        hash128(key, Seq::<u8>::empty() + data) == hash128(key, fed(Seq::empty(), seq![data])),
        hash256(key, Seq::<u8>::empty() + data) == hash256(key, fed(Seq::empty(), seq![data])),
{
    let one = seq![data];
    assert(one.drop_last() =~= Seq::<Seq<u8>>::empty());
    assert(one.last() == data);
    assert(fed(Seq::empty(), one) == fed(Seq::empty(), one.drop_last()) + one.last());
}

/// Determinism: two ways of cutting the same input give the same hashes
/// under the same key.
pub proof fn law_equal_input_equal_hash(
    key: Seq<u64>,
    first: Seq<Seq<u8>>,
    second: Seq<Seq<u8>>,
)
    requires
        joined(first) == joined(second),
    ensures
        hash64(key, fed(Seq::empty(), first)) == hash64(key, fed(Seq::empty(), second)),
        hash128(key, fed(Seq::empty(), first)) == hash128(key, fed(Seq::empty(), second)),
        hash256(key, fed(Seq::empty(), first)) == hash256(key, fed(Seq::empty(), second)),
{
    law_chunks_do_not_matter(key, joined(first), first);
    law_chunks_do_not_matter(key, joined(first), second);
}

/// Backend equivalence: two hashers of whatever kind that were made with
/// the same key and have taken the same input yield the same hashes, both
/// when they are read as they are and after the same last piece of input.
pub proof fn law_backends_agree<A: HighwayHash, B: HighwayHash>(a: A, b: B, data: Seq<u8>)
    requires
        a.key() == b.key(),
        a.input() == b.input(),
    ensures
        hash64(a.key(), a.input()) == hash64(b.key(), b.input()),
        hash128(a.key(), a.input()) == hash128(b.key(), b.input()),
        hash256(a.key(), a.input()) == hash256(b.key(), b.input()),
        hash64(a.key(), a.input() + data) == hash64(b.key(), b.input() + data),
        hash128(a.key(), a.input() + data) == hash128(b.key(), b.input() + data),
        hash256(a.key(), a.input() + data) == hash256(b.key(), b.input() + data),
{
}

/// An `append` of no bytes changes no hash.
pub proof fn law_empty_append_changes_nothing(key: Seq<u64>, input: Seq<u8>)
    ensures
        hash64(key, input + Seq::<u8>::empty()) == hash64(key, input),
        hash128(key, input + Seq::<u8>::empty()) == hash128(key, input),
        hash256(key, input + Seq::<u8>::empty()) == hash256(key, input),
{
    assert(input + Seq::<u8>::empty() =~= input);
}

/// No backend is chosen that the processor cannot run, and the portable
/// one only where it can run no other.
pub proof fn law_choice_is_safe(cpu: Capabilities)
    ensures
        preferred(cpu) == Backend::Avx ==> cpu.avx2,
        preferred(cpu) == Backend::Sse ==> cpu.sse41 && !cpu.avx2,
        preferred(cpu) == Backend::Portable <==> !cpu.sse41 && !cpu.avx2,
{
}

} // verus!
