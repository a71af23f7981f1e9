//! The pending block of a hasher: the bytes that wait until a block is full,
//! and how bytes become packet words.
use crate::model;
use vstd::prelude::*;

verus! {

/// Reads the little-endian word in `bytes[at..at + 8]`.
pub fn read_word(bytes: &[u8], at: usize) -> (w: u64)
    requires
        at + 8 <= bytes.len(),
    ensures
        w == model::word(bytes@, at as int),
{
    (bytes[at] as u64) | ((bytes[at + 1] as u64) << 8) | ((bytes[at + 2] as u64) << 16) | ((
    bytes[at + 3] as u64) << 24) | ((bytes[at + 4] as u64) << 32) | ((bytes[at + 5] as u64) << 40)
        | ((bytes[at + 6] as u64) << 48) | ((bytes[at + 7] as u64) << 56)
}

/// The four packet words of the block in `bytes[at..at + 32]`.
pub fn read_block(bytes: &[u8], at: usize) -> (p: [u64; 4])
    requires
        at + 32 <= bytes.len(),
    ensures
        p@ == model::lanes(bytes@.subrange(at as int, at + 32)),
{
    let p = [
        read_word(bytes, at),
        read_word(bytes, at + 8),
        read_word(bytes, at + 16),
        read_word(bytes, at + 24),
    ];
    proof {
        let block = bytes@.subrange(at as int, at + 32);
        assert forall|i: int| 0 <= i < 32 implies block[i] == bytes@[at + i] by {}
        assert(model::word(block, 0) == model::word(bytes@, at as int));
        assert(model::word(block, 8) == model::word(bytes@, at + 8));
        assert(model::word(block, 16) == model::word(bytes@, at + 16));
        assert(model::word(block, 24) == model::word(bytes@, at + 24));
        assert(p@ =~= model::lanes(block));
    }
    p
}

/// The four packet words of a block.
pub fn read_lanes(block: &[u8; 32]) -> (p: [u64; 4])
    ensures
        p@ == model::lanes(block@),
{
    let bytes = block.as_slice();
    assert(bytes@.subrange(0, 32) =~= block@);
    read_block(bytes, 0)
}

/// A buffer of at most one block.
#[derive(Debug)]
pub struct HashPacket {
    buf: [u8; 32],
    len: usize,
}

impl View for HashPacket {
    type V = Seq<u8>;

    /// The bytes that wait, oldest first.
    closed spec fn view(&self) -> Seq<u8> {
        self.buf@.subrange(0, self.len as int)
    }
}

impl Clone for HashPacket {
    fn clone(&self) -> (copy: HashPacket)
        ensures
            copy == *self,
    {
        proof {
            use_type_invariant(self);
        }
        HashPacket { buf: self.buf, len: self.len }
    }
}

impl Copy for HashPacket {

}

impl HashPacket {
    #[verifier::type_invariant]
    spec fn bounded(self) -> bool {
        self.len <= 32
    }

    /// An empty buffer.
    pub fn new() -> (packet: HashPacket)
        ensures
            packet@ == Seq::<u8>::empty(),
    {
        let packet = HashPacket { buf: [0u8; 32], len: 0 };
        assert(packet@ =~= Seq::<u8>::empty());
        packet
    }

    /// Number of bytes that wait.
    pub fn len(&self) -> (n: usize)
        ensures
            n == self@.len(),
            n <= 32,
    {
        proof {
            use_type_invariant(self);
        }
        self.len
    }

    /// Whether no byte waits.
    pub fn is_empty(&self) -> (empty: bool)
        ensures
            empty == (self@.len() == 0),
    {
        proof {
            use_type_invariant(self);
        }
        self.len == 0
    }

    /// Whether a whole block waits.
    pub fn is_full(&self) -> (full: bool)
        ensures
            full == (self@.len() == 32),
    {
        proof {
            use_type_invariant(self);
        }
        self.len == 32
    }

    /// Moves bytes of `data`, from index `from` on, into the buffer until it
    /// is full or `data` is used up, and returns how many it took.
    pub fn fill(&mut self, data: &[u8], from: usize) -> (taken: usize)
        requires
            from <= data.len(),
        ensures
            taken == vstd::math::min(32 - old(self)@.len(), data.len() - from),
            final(self)@ == old(self)@ + data@.subrange(from as int, from + taken),
    {
        proof {
            use_type_invariant(&*self);
        }
        let room: usize = 32 - self.len;
        let rest: usize = data.len() - from;
        let taken: usize = if rest < room {
            rest
        } else {
            room
        };
        let start: usize = self.len;
        let mut buf = self.buf;
        let mut i: usize = 0;
        while i < taken
            invariant
                i <= taken,
                start + taken <= 32,
                from + taken <= data.len(),
                buf@.subrange(0, start as int) == self.buf@.subrange(0, start as int),
                buf@.subrange(start as int, start + i) == data@.subrange(from as int, from + i),
            decreases taken - i,
        {
            let ghost before = buf@;
            buf[start + i] = data[from + i];
            proof {
                assert(buf@.subrange(0, start as int) =~= before.subrange(0, start as int));
                assert(buf@.subrange(start as int, start + i + 1) =~= before.subrange(
                    start as int,
                    start + i,
                ).push(data@[from + i]));
                assert(data@.subrange(from as int, from + i + 1) =~= data@.subrange(
                    from as int,
                    from + i,
                ).push(data@[from + i]));
            }
            i += 1;
        }
        proof {
            assert(buf@.subrange(0, start + taken) =~= buf@.subrange(0, start as int) + buf@.subrange(
                start as int,
                start + taken,
            ));
        }
        *self = HashPacket { buf, len: start + taken };
        taken
    }

    /// Empties the buffer.
    pub fn clear(&mut self)
        ensures
            final(self)@ == Seq::<u8>::empty(),
    {
        *self = HashPacket { buf: self.buf, len: 0 };
        assert(self@ =~= Seq::<u8>::empty());
    }

    /// The packet words of the whole block that waits.
    pub fn lanes(&self) -> (p: [u64; 4])
        requires
            self@.len() == 32,
        ensures
            p@ == model::lanes(self@),
    {
        proof {
            use_type_invariant(self);
            assert(self.buf@ =~= self@);
        }
        read_lanes(&self.buf)
    }

    /// The packet words that stand for the tail that waits.
    pub fn tail_lanes(&self) -> (p: [u64; 4])
        requires
            0 < self@.len() < 32,
        ensures
            p@ == model::lanes(model::tail_block(self@)),
    {
        proof {
            use_type_invariant(self);
        }
        let size: usize = self.len;
        let odd: usize = size % 4;
        let whole: usize = size - odd;
        let mut block = [0u8; 32];
        let mut i: usize = 0;
        while i < 32
            invariant
                i <= 32,
                whole <= size < 32,
                forall|j: int| 0 <= j < i && j < whole ==> block@[j] == self.buf@[j],
                forall|j: int| whole <= j < i ==> block@[j] == 0u8,
            decreases 32 - i,
        {
            block[i] = if i < whole {
                self.buf[i]
            } else {
                0
            };
            i += 1;
        }
        if size >= 16 {
            let mut k: usize = 0;
            while k < 4
                invariant
                    k <= 4,
                    16 <= size < 32,
                    whole == size - odd,
                    odd == size % 4,
                    forall|j: int| 0 <= j < whole ==> block@[j] == self.buf@[j],
                    forall|j: int| whole <= j < 28 ==> block@[j] == 0u8,
                    forall|j: int| 28 <= j < 28 + k ==> block@[j] == self.buf@[size - 32 + j],
                decreases 4 - k,
            {
                block[28 + k] = self.buf[whole + k + odd - 4];
                k += 1;
            }
        } else if odd != 0 {
            block[16] = self.buf[whole];
            block[17] = self.buf[whole + odd / 2];
            block[18] = self.buf[whole + odd - 1];
        }
        assert(block@ =~= model::tail_block(self@));
        read_lanes(&block)
    }
}

} // verus!
