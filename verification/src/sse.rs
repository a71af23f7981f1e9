//! The backend for 128-bit registers: the state lies in eight registers of
//! two lanes, and every step works on whole registers.
use crate::capability::Capabilities;
use crate::key::Key;
use crate::mixer;
use crate::mixer::Mixer;
use crate::model;
use crate::packet::HashPacket;
use crate::scalar;
use crate::traits::HighwayHash;
use crate::vector::V2x64;
use vstd::prelude::*;

verus! {

/// The four accumulators, each as a low and a high register.
#[derive(Clone, Copy, Debug)]
struct Lanes {
    v0l: V2x64,
    v0h: V2x64,
    v1l: V2x64,
    v1h: V2x64,
    mul0l: V2x64,
    mul0h: V2x64,
    mul1l: V2x64,
    mul1h: V2x64,
}

/// The four lanes that a low and a high register hold together.
spec fn joined(l: V2x64, h: V2x64) -> Seq<u64> {
    seq![l.0, l.1, h.0, h.1]
}

impl Lanes {
    spec fn view(&self) -> model::State {
        model::State {
            v0: joined(self.v0l, self.v0h),
            v1: joined(self.v1l, self.v1h),
            mul0: joined(self.mul0l, self.mul0h),
            mul1: joined(self.mul1l, self.mul1h),
        }
    }

    fn new(key: &Key) -> (s: Lanes)
        ensures
            s@ == model::init(key@),
    {
        let key_l = V2x64(key.0[0], key.0[1]);
        let key_h = V2x64(key.0[2], key.0[3]);
        let mul0l = V2x64(0xdbe6_d5d5_fe4c_ce2f, 0xa409_3822_299f_31d0);
        let mul0h = V2x64(0x1319_8a2e_0370_7344, 0x243f_6a88_85a3_08d3);
        let mul1l = V2x64(0x3bd3_9e10_cb0e_f593, 0xc0ac_f169_b5f1_8a8c);
        let mul1h = V2x64(0xbe54_66cf_34e9_0c6c, 0x4528_21e6_38d0_1377);
        let s = Lanes {
            v0l: mul0l.xor(key_l),
            v0h: mul0h.xor(key_h),
            v1l: mul1l.xor(key_l.rotate_by_32()),
            v1h: mul1h.xor(key_h.rotate_by_32()),
            mul0l,
            mul0h,
            mul1l,
            mul1h,
        };
        proof {
            let m = model::init(key@);
            assert(s@.v0 =~= m.v0);
            assert(s@.v1 =~= m.v1);
            assert(s@.mul0 =~= m.mul0);
            assert(s@.mul1 =~= m.mul1);
        }
        s
    }

    fn update_remainder(&mut self, tail: &HashPacket)
        requires
            0 < tail@.len() < 32,
        ensures
            final(self)@ == model::update_remainder(old(self)@, tail@),
    {
        let ghost start = self@;
        let size: usize = tail.len();
        let tag: u64 = scalar::length_tag(size as u64);
        let tags = V2x64(tag, tag);
        self.v0l = self.v0l.add(tags);
        self.v0h = self.v0h.add(tags);
        self.v1l = self.v1l.rotate_halves(size as u32);
        self.v1h = self.v1h.rotate_halves(size as u32);
        proof {
            let tagged = model::State {
                v0: Seq::new(4, |i: int| model::wadd(start.v0[i], model::length_tag(size as u64))),
                v1: Seq::new(4, |i: int| model::rotate_halves(start.v1[i], size as u32)),
                mul0: start.mul0,
                mul1: start.mul1,
            };
            assert(self@.v0 =~= tagged.v0);
            assert(self@.v1 =~= tagged.v1);
        }
        let p = tail.tail_lanes();
        self.update(&p);
    }

    fn rounds(&mut self, n: usize)
        ensures
            final(self)@ == model::rounds(old(self)@, n as nat),
    {
        let ghost start = self@;
        let mut i: usize = 0;
        while i < n
            invariant
                i <= n,
                self@ == model::rounds(start, i as nat),
            decreases n - i,
        {
            let low = self.v0h.rotate_by_32();
            let high = self.v0l.rotate_by_32();
            let p = [low.0, low.1, high.0, high.1];
            assert(p@ =~= model::permute(self@.v0));
            self.update(&p);
            i += 1;
        }
    }

    fn extract64(&self) -> (hash: u64)
        ensures
            hash == model::extract64(self@),
    {
        let sum0 = self.v0l.add(self.mul0l);
        let sum1 = self.v1l.add(self.mul1l);
        let sum = sum0.add(sum1);
        proof {
            let s = self@;
            scalar::lemma_wadd_regroup(s.v0[0], s.mul0[0], model::wadd(s.v1[0], s.mul1[0]));
            scalar::lemma_wadd_regroup(s.v0[0], s.v1[0], s.mul0[0]);
            scalar::lemma_wadd_regroup(s.v0[0], model::wadd(s.v1[0], s.mul0[0]), s.mul1[0]);
            scalar::lemma_wadd_regroup(s.v1[0], s.mul0[0], s.mul1[0]);
            scalar::lemma_wadd_regroup(s.mul0[0], s.v1[0], s.mul1[0]);
        }
        sum.0
    }

    fn extract128(&self) -> (hash: [u64; 2])
        ensures
            hash@ == model::extract128(self@),
    {
        let sum0 = self.v0l.add(self.mul0l);
        let sum1 = self.v1h.add(self.mul1h);
        let sum = sum0.add(sum1);
        let hash = [sum.0, sum.1];
        proof {
            let s = self@;
            scalar::lemma_wadd_regroup(model::wadd(s.v0[0], s.mul0[0]), s.v1[2], s.mul1[2]);
            scalar::lemma_wadd_regroup(model::wadd(s.v0[1], s.mul0[1]), s.v1[3], s.mul1[3]);
            assert(hash@ =~= model::extract128(s));
        }
        hash
    }

    fn extract256(&self) -> (hash: [u64; 4])
        ensures
            hash@ == model::extract256(self@),
    {
        let sum0l = self.v0l.add(self.mul0l);
        let sum1l = self.v1l.add(self.mul1l);
        let sum0h = self.v0h.add(self.mul0h);
        let sum1h = self.v1h.add(self.mul1h);
        let hash = [
            scalar::reduce_low(sum1l.0, sum0l.0),
            scalar::reduce_high(sum1l.1, sum1l.0, sum0l.1),
            scalar::reduce_low(sum1h.0, sum0h.0),
            scalar::reduce_high(sum1h.1, sum1h.0, sum0h.1),
        ];
        assert(hash@ =~= model::extract256(self@));
        hash
    }
}

impl Mixer for Lanes {
    closed spec fn state(&self) -> model::State {
        self@
    }

    fn update(&mut self, p: &[u64; 4]) {
        let ghost start = self@;
        let packet_l = V2x64(p[0], p[1]);
        let packet_h = V2x64(p[2], p[3]);
        self.v1l = self.v1l.add(packet_l);
        self.v1h = self.v1h.add(packet_h);
        self.v1l = self.v1l.add(self.mul0l);
        self.v1h = self.v1h.add(self.mul0h);
        self.mul0l = self.mul0l.xor(self.v1l.mul_low32(self.v0l.rotate_by_32()));
        self.mul0h = self.mul0h.xor(self.v1h.mul_low32(self.v0h.rotate_by_32()));
        self.v0l = self.v0l.add(self.mul1l);
        self.v0h = self.v0h.add(self.mul1h);
        self.mul1l = self.mul1l.xor(self.v0l.mul_low32(self.v1l.rotate_by_32()));
        self.mul1h = self.mul1h.xor(self.v0h.mul_low32(self.v1h.rotate_by_32()));
        proof {
            let m = model::multiply(start, p@);
            assert forall|i: int| 0 <= i < 4 implies self@.v1[i] == m.v1[i] by {
                scalar::lemma_wadd_regroup(start.v1[i], p@[i], start.mul0[i]);
            }
            assert(self@.v1 =~= m.v1);
            assert forall|i: int| 0 <= i < 4 implies self@.mul0[i] == m.mul0[i] by {
                scalar::lemma_mul_low32(m.v1[i], start.v0[i]);
            }
            assert(self@.mul0 =~= m.mul0);
            assert(self@.v0 =~= m.v0);
            assert forall|i: int| 0 <= i < 4 implies self@.mul1[i] == m.mul1[i] by {
                scalar::lemma_mul_low32(m.v0[i], m.v1[i]);
            }
            assert(self@.mul1 =~= m.mul1);
        }
        let ghost m = self@;
        self.v0l = self.v0l.add(self.v1l.zipper_merge());
        self.v0h = self.v0h.add(self.v1h.zipper_merge());
        assert(self@.v0 =~= model::zipped(m.v0, m.v1));
        self.v1l = self.v1l.add(self.v0l.zipper_merge());
        self.v1h = self.v1h.add(self.v0h.zipper_merge());
        assert(self@.v1 =~= model::zipped(m.v1, self@.v0));
    }
}

/// The hasher for processors with 128-bit vector instructions.
pub struct SseHash {
    lanes: Lanes,
    buffer: HashPacket,
    key: Ghost<Seq<u64>>,
    input: Ghost<Seq<u8>>,
}

impl Clone for SseHash {
    /// A copy that from here on goes its own way.
    fn clone(&self) -> (copy: SseHash)
        ensures
            copy == *self,
    {
        proof {
            use_type_invariant(self);
        }
        SseHash { lanes: self.lanes, buffer: self.buffer, key: self.key, input: self.input }
    }
}

impl SseHash {
    #[verifier::type_invariant]
    spec fn consistent(self) -> bool {
        &&& self.lanes@ == model::absorbed(self.key@, self.input@)
        &&& self.buffer@ == model::pending(self.input@)
    }

    /// A hasher keyed with `key` that has taken no input yet, if the
    /// processor has the 128-bit instructions; `None` if it has not.
    pub fn new(key: Key, cpu: Capabilities) -> (hasher: Option<SseHash>)
        ensures
            hasher is Some <==> cpu.sse41,
            hasher is Some ==> hasher->0.key() == key@ && hasher->0.input() == Seq::<u8>::empty(),
    {
        if cpu.sse41 {
            Some(SseHash::force_new(key))
        } else {
            None
        }
    }

    /// A hasher keyed with `key` that has taken no input yet, whatever the
    /// processor.
    pub fn force_new(key: Key) -> (hasher: SseHash)
        ensures
            hasher.key() == key@,
            hasher.input() == Seq::<u8>::empty(),
    {
        let lanes = Lanes::new(&key);
        let buffer = HashPacket::new();
        assert(model::pending(Seq::<u8>::empty()) =~= Seq::<u8>::empty());
        SseHash { lanes, buffer, key: Ghost(key@), input: Ghost(Seq::empty()) }
    }

    /// The state from which the results are read: the pending tail taken
    /// in, on a copy.
    fn closed(&self) -> (lanes: Lanes)
        ensures
            lanes@ == model::closed(self.key(), self.input()),
    {
        proof {
            use_type_invariant(self);
        }
        let mut lanes = self.lanes;
        if !self.buffer.is_empty() {
            lanes.update_remainder(&self.buffer);
        }
        lanes
    }
}

impl HighwayHash for SseHash {
    closed spec fn key(&self) -> Seq<u64> {
        self.key@
    }

    closed spec fn input(&self) -> Seq<u8> {
        self.input@
    }

    fn hash64(self, data: &[u8]) -> (hash: u64) {
        let mut hasher = self;
        hasher.append(data);
        hasher.finalize64()
    }

    fn hash128(self, data: &[u8]) -> (hash: [u64; 2]) {
        let mut hasher = self;
        hasher.append(data);
        hasher.finalize128()
    }

    fn hash256(self, data: &[u8]) -> (hash: [u64; 4]) {
        let mut hasher = self;
        hasher.append(data);
        hasher.finalize256()
    }

    fn append(&mut self, data: &[u8]) {
        proof {
            use_type_invariant(&*self);
        }
        let mut lanes = self.lanes;
        let mut buffer = self.buffer;
        mixer::absorb(&mut lanes, &mut buffer, data, self.key, self.input);
        *self = SseHash { lanes, buffer, key: self.key, input: Ghost(self.input@ + data@) };
    }

    fn finalize64(&self) -> (hash: u64) {
        let mut lanes = self.closed();
        lanes.rounds(4);
        lanes.extract64()
    }

    fn finalize128(&self) -> (hash: [u64; 2]) {
        let mut lanes = self.closed();
        lanes.rounds(6);
        lanes.extract128()
    }

    fn finalize256(&self) -> (hash: [u64; 4]) {
        let mut lanes = self.closed();
        lanes.rounds(10);
        lanes.extract256()
    }
}

} // verus!
