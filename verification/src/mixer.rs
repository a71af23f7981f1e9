//! What the backends have in common: a mixing state that takes in one block
//! at a time, and the loop that cuts an input into blocks.
use crate::model;
use crate::packet::{read_block, HashPacket};
use crate::stream;
use vstd::prelude::*;

verus! {

/// A mixing state in some layout of its own, which stands for a state of
/// the model.
pub(crate) trait Mixer: Sized {
    /// The state of the model that this one stands for.
    spec fn state(&self) -> model::State;

    /// Takes in one block, given as its four packet words.
    fn update(&mut self, p: &[u64; 4])
        ensures
            final(self).state() == model::update(old(self).state(), p@),
    ;
}

/// Feeds `data` to a hasher that is made of `lanes` and `buffer` and has
/// seen `seen` so far: every block that becomes complete is taken in, and
/// what is left waits in the buffer. While nothing waits, whole blocks are
/// read from `data` where they lie.
pub(crate) fn absorb<M: Mixer>(
    lanes: &mut M,
    buffer: &mut HashPacket,
    data: &[u8],
    Ghost(key): Ghost<Seq<u64>>,
    Ghost(seen): Ghost<Seq<u8>>,
)
    requires
        old(lanes).state() == model::absorbed(key, seen),
        old(buffer)@ == model::pending(seen),
    ensures
        final(lanes).state() == model::absorbed(key, seen + data@),
        final(buffer)@ == model::pending(seen + data@),
{
    let mut pos: usize = 0;
    proof {
        assert(seen + data@.subrange(0, 0) =~= seen);
    }
    while pos < data.len()
        invariant
            pos <= data.len(),
            lanes.state() == model::absorbed(key, seen + data@.subrange(0, pos as int)),
            buffer@ == model::pending(seen + data@.subrange(0, pos as int)),
        decreases data.len() - pos,
    {
        let ghost before = seen + data@.subrange(0, pos as int);
        if buffer.is_empty() && data.len() - pos >= 32 {
            let ghost chunk = data@.subrange(pos as int, pos + 32);
            let p = read_block(data, pos);
            lanes.update(&p);
            proof {
                stream::lemma_append_completes(key, before, chunk);
                assert(model::pending(before) + chunk =~= chunk);
                assert(seen + data@.subrange(0, pos + 32) =~= before + chunk);
            }
            pos += 32;
        } else {
            let taken = buffer.fill(data, pos);
            let ghost chunk = data@.subrange(pos as int, pos + taken);
            proof {
                assert(seen + data@.subrange(0, pos + taken) =~= before + chunk);
            }
            pos += taken;
            if buffer.is_full() {
                let p = buffer.lanes();
                lanes.update(&p);
                buffer.clear();
                proof {
                    stream::lemma_append_completes(key, before, chunk);
                }
            } else {
                proof {
                    stream::lemma_append_waits(key, before, chunk);
                }
            }
        }
    }
    proof {
        assert(data@.subrange(0, pos as int) =~= data@);
    }
}

} // verus!
