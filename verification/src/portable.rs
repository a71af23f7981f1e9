//! The scalar backend: every lane of the state is worked on by itself.
use crate::key::Key;
use crate::mixer;
use crate::mixer::Mixer;
use crate::model;
use crate::packet::HashPacket;
use crate::scalar;
use crate::traits::HighwayHash;
use vstd::prelude::*;

verus! {

/// The four accumulators, one array of four lanes each.
#[derive(Clone, Copy, Debug)]
struct Lanes {
    v0: [u64; 4],
    v1: [u64; 4],
    mul0: [u64; 4],
    mul1: [u64; 4],
}

impl Lanes {
    spec fn view(&self) -> model::State {
        model::State { v0: self.v0@, v1: self.v1@, mul0: self.mul0@, mul1: self.mul1@ }
    }

    fn new(key: &Key) -> (s: Lanes)
        ensures
            s@ == model::init(key@),
    {
        let mul0: [u64; 4] = [
            0xdbe6_d5d5_fe4c_ce2f,
            0xa409_3822_299f_31d0,
            0x1319_8a2e_0370_7344,
            0x243f_6a88_85a3_08d3,
        ];
        let mul1: [u64; 4] = [
            0x3bd3_9e10_cb0e_f593,
            0xc0ac_f169_b5f1_8a8c,
            0xbe54_66cf_34e9_0c6c,
            0x4528_21e6_38d0_1377,
        ];
        assert(mul0@ =~= model::init0());
        assert(mul1@ =~= model::init1());
        let mut v0: [u64; 4] = [0; 4];
        let mut v1: [u64; 4] = [0; 4];
        let mut i: usize = 0;
        while i < 4
            invariant
                i <= 4,
                mul0@ == model::init0(),
                mul1@ == model::init1(),
                forall|j: int| 0 <= j < i ==> v0@[j] == model::init0()[j] ^ key@[j],
                forall|j: int| 0 <= j < i ==> v1@[j] == model::init1()[j] ^ model::swap32(key@[j]),
            decreases 4 - i,
        {
            v0[i] = mul0[i] ^ key.0[i];
            v1[i] = mul1[i] ^ scalar::swap32(key.0[i]);
            i += 1;
        }
        let s = Lanes { v0, v1, mul0, mul1 };
        assert(s@.v0 =~= model::init(key@).v0);
        assert(s@.v1 =~= model::init(key@).v1);
        s
    }

    fn update_remainder(&mut self, tail: &HashPacket)
        requires
            0 < tail@.len() < 32,
        ensures
            final(self)@ == model::update_remainder(old(self)@, tail@),
    {
        let ghost start = self@;
        let size: usize = tail.len();
        let tag: u64 = scalar::length_tag(size as u64);
        let mut i: usize = 0;
        while i < 4
            invariant
                i <= 4,
                0 < size < 32,
                tag == model::length_tag(size as u64),
                self.mul0@ == start.mul0,
                self.mul1@ == start.mul1,
                forall|j: int| 0 <= j < i ==> self.v0@[j] == model::wadd(start.v0[j], tag),
                forall|j: int|
                    0 <= j < i ==> self.v1@[j] == model::rotate_halves(start.v1[j], size as u32),
                forall|j: int| i <= j < 4 ==> self.v0@[j] == start.v0[j],
                forall|j: int| i <= j < 4 ==> self.v1@[j] == start.v1[j],
            decreases 4 - i,
        {
            self.v0[i] = self.v0[i].wrapping_add(tag);
            self.v1[i] = scalar::rotate_halves(self.v1[i], size as u32);
            i += 1;
        }
        let ghost tagged = model::State {
            v0: Seq::new(4, |i: int| model::wadd(start.v0[i], model::length_tag(size as u64))),
            v1: Seq::new(4, |i: int| model::rotate_halves(start.v1[i], size as u32)),
            mul0: start.mul0,
            mul1: start.mul1,
        };
        assert(self.v0@ =~= tagged.v0);
        assert(self.v1@ =~= tagged.v1);
        let p = tail.tail_lanes();
        self.update(&p);
    }

    fn permute(&self) -> (p: [u64; 4])
        ensures
            p@ == model::permute(self@.v0),
    {
        let p = [
            scalar::swap32(self.v0[2]),
            scalar::swap32(self.v0[3]),
            scalar::swap32(self.v0[0]),
            scalar::swap32(self.v0[1]),
        ];
        assert(p@ =~= model::permute(self@.v0));
        p
    }

    fn rounds(&mut self, n: usize)
        ensures
            final(self)@ == model::rounds(old(self)@, n as nat),
    {
        let ghost start = self@;
        let mut i: usize = 0;
        while i < n
            invariant
                i <= n,
                self@ == model::rounds(start, i as nat),
            decreases n - i,
        {
            let p = self.permute();
            self.update(&p);
            i += 1;
        }
    }

    fn extract64(&self) -> (hash: u64)
        ensures
            hash == model::extract64(self@),
    {
        self.v0[0].wrapping_add(self.v1[0]).wrapping_add(self.mul0[0]).wrapping_add(self.mul1[0])
    }

    fn extract128(&self) -> (hash: [u64; 2])
        ensures
            hash@ == model::extract128(self@),
    {
        let hash = [
            self.v0[0].wrapping_add(self.mul0[0]).wrapping_add(self.v1[2]).wrapping_add(
                self.mul1[2],
            ),
            self.v0[1].wrapping_add(self.mul0[1]).wrapping_add(self.v1[3]).wrapping_add(
                self.mul1[3],
            ),
        ];
        assert(hash@ =~= model::extract128(self@));
        hash
    }

    fn extract256(&self) -> (hash: [u64; 4])
        ensures
            hash@ == model::extract256(self@),
    {
        let a0: u64 = self.v0[0].wrapping_add(self.mul0[0]);
        let a1: u64 = self.v0[1].wrapping_add(self.mul0[1]);
        let a2: u64 = self.v1[0].wrapping_add(self.mul1[0]);
        let a3: u64 = self.v1[1].wrapping_add(self.mul1[1]);
        let b0: u64 = self.v0[2].wrapping_add(self.mul0[2]);
        let b1: u64 = self.v0[3].wrapping_add(self.mul0[3]);
        let b2: u64 = self.v1[2].wrapping_add(self.mul1[2]);
        let b3: u64 = self.v1[3].wrapping_add(self.mul1[3]);
        let hash = [
            scalar::reduce_low(a2, a0),
            scalar::reduce_high(a3, a2, a1),
            scalar::reduce_low(b2, b0),
            scalar::reduce_high(b3, b2, b1),
        ];
        assert(hash@ =~= model::extract256(self@));
        hash
    }
}

impl Mixer for Lanes {
    closed spec fn state(&self) -> model::State {
        self@
    }

    fn update(&mut self, p: &[u64; 4]) {
        let ghost start = self@;
        let mut i: usize = 0;
        while i < 4
            invariant
                i <= 4,
                forall|j: int| 0 <= j < i ==> self.v0@[j] == model::mixed_v0(start, j),
                forall|j: int| 0 <= j < i ==> self.v1@[j] == model::mixed_v1(start, p@, j),
                forall|j: int| 0 <= j < i ==> self.mul0@[j] == model::mixed_mul0(start, p@, j),
                forall|j: int| 0 <= j < i ==> self.mul1@[j] == model::mixed_mul1(start, p@, j),
                forall|j: int| i <= j < 4 ==> self.v0@[j] == start.v0[j],
                forall|j: int| i <= j < 4 ==> self.v1@[j] == start.v1[j],
                forall|j: int| i <= j < 4 ==> self.mul0@[j] == start.mul0[j],
                forall|j: int| i <= j < 4 ==> self.mul1@[j] == start.mul1[j],
            decreases 4 - i,
        {
            self.v1[i] = self.v1[i].wrapping_add(self.mul0[i].wrapping_add(p[i]));
            self.mul0[i] = self.mul0[i] ^ scalar::mul32(self.v1[i], self.v0[i]);
            self.v0[i] = self.v0[i].wrapping_add(self.mul1[i]);
            self.mul1[i] = self.mul1[i] ^ scalar::mul32(self.v0[i], self.v1[i]);
            i += 1;
        }
        let ghost m = model::multiply(start, p@);
        assert(self.v0@ =~= m.v0);
        assert(self.v1@ =~= m.v1);
        assert(self.mul0@ =~= m.mul0);
        assert(self.mul1@ =~= m.mul1);
        let (h, l) = scalar::zipper_merge(self.v1[1], self.v1[0]);
        self.v0[0] = self.v0[0].wrapping_add(l);
        self.v0[1] = self.v0[1].wrapping_add(h);
        let (h, l) = scalar::zipper_merge(self.v1[3], self.v1[2]);
        self.v0[2] = self.v0[2].wrapping_add(l);
        self.v0[3] = self.v0[3].wrapping_add(h);
        assert(self.v0@ =~= model::zipped(m.v0, m.v1));
        let (h, l) = scalar::zipper_merge(self.v0[1], self.v0[0]);
        self.v1[0] = self.v1[0].wrapping_add(l);
        self.v1[1] = self.v1[1].wrapping_add(h);
        let (h, l) = scalar::zipper_merge(self.v0[3], self.v0[2]);
        self.v1[2] = self.v1[2].wrapping_add(l);
        self.v1[3] = self.v1[3].wrapping_add(h);
        assert(self.v1@ =~= model::zipped(m.v1, self.v0@));
    }
}

/// The hasher that runs on any machine.
pub struct PortableHash {
    lanes: Lanes,
    buffer: HashPacket,
    key: Ghost<Seq<u64>>,
    input: Ghost<Seq<u8>>,
}

impl Clone for PortableHash {
    /// A copy that from here on goes its own way.
    fn clone(&self) -> (copy: PortableHash)
        ensures
            copy == *self,
    {
        proof {
            use_type_invariant(self);
        }
        PortableHash { lanes: self.lanes, buffer: self.buffer, key: self.key, input: self.input }
    }
}

impl PortableHash {
    #[verifier::type_invariant]
    spec fn consistent(self) -> bool {
        &&& self.lanes@ == model::absorbed(self.key@, self.input@)
        &&& self.buffer@ == model::pending(self.input@)
    }

    /// A hasher keyed with `key` that has taken no input yet.
    pub fn new(key: Key) -> (hasher: PortableHash)
        ensures
            hasher.key() == key@,
            hasher.input() == Seq::<u8>::empty(),
    {
        let lanes = Lanes::new(&key);
        let buffer = HashPacket::new();
        assert(model::pending(Seq::<u8>::empty()) =~= Seq::<u8>::empty());
        PortableHash { lanes, buffer, key: Ghost(key@), input: Ghost(Seq::empty()) }
    }

    /// The state from which the results are read: the pending tail taken
    /// in, on a copy.
    fn closed(&self) -> (lanes: Lanes)
        ensures
            lanes@ == model::closed(self.key(), self.input()),
    {
        proof {
            use_type_invariant(self);
        }
        let mut lanes = self.lanes;
        if !self.buffer.is_empty() {
            lanes.update_remainder(&self.buffer);
        }
        lanes
    }
}

impl HighwayHash for PortableHash {
    closed spec fn key(&self) -> Seq<u64> {
        self.key@
    }

    closed spec fn input(&self) -> Seq<u8> {
        self.input@
    }

    fn hash64(self, data: &[u8]) -> (hash: u64) {
        let mut hasher = self;
        hasher.append(data);
        hasher.finalize64()
    }

    fn hash128(self, data: &[u8]) -> (hash: [u64; 2]) {
        let mut hasher = self;
        hasher.append(data);
        hasher.finalize128()
    }

    fn hash256(self, data: &[u8]) -> (hash: [u64; 4]) {
        let mut hasher = self;
        hasher.append(data);
        hasher.finalize256()
    }

    fn append(&mut self, data: &[u8]) {
        proof {
            use_type_invariant(&*self);
        }
        let mut lanes = self.lanes;
        let mut buffer = self.buffer;
        mixer::absorb(&mut lanes, &mut buffer, data, self.key, self.input);
        *self = PortableHash {
            lanes,
            buffer,
            key: self.key,
            input: Ghost(self.input@ + data@),
        };
    }

    fn finalize64(&self) -> (hash: u64) {
        let mut lanes = self.closed();
        lanes.rounds(4);
        lanes.extract64()
    }

    fn finalize128(&self) -> (hash: [u64; 2]) {
        let mut lanes = self.closed();
        lanes.rounds(6);
        lanes.extract128()
    }

    fn finalize256(&self) -> (hash: [u64; 4]) {
        let mut lanes = self.closed();
        lanes.rounds(10);
        lanes.extract256()
    }
}

} // verus!
