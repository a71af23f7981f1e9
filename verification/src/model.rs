//! The hash as a function of key words and input bytes.
//!
//! Nothing here is executable. The hashers state their results over these
//! functions, and the laws of the library are proved about them.
use vstd::prelude::*;

verus! {

/// Addition modulo 2^64.
pub open spec fn wadd(a: u64, b: u64) -> u64 {
    a.wrapping_add(b)
}

/// The low 32 bits of a word.
pub open spec fn low32(x: u64) -> u64 {
    x & 0xffff_ffff
}

/// The high 32 bits of a word, moved down.
pub open spec fn high32(x: u64) -> u64 {
    x >> 32
}

/// The word with its two 32-bit halves exchanged.
pub open spec fn swap32(x: u64) -> u64 {
    (x >> 32) | (x << 32)
}

/// The full 64-bit product of the low half of `a` and the high half of `b`.
pub open spec fn mul32(a: u64, b: u64) -> u64 {
    (low32(a) * high32(b)) as u64
}

/// The full 64-bit product of the low halves of `a` and `b`.
pub open spec fn mul_low32(a: u64, b: u64) -> u64 {
    (low32(a) * low32(b)) as u64
}

/// Byte `i` of a word, counted from the least significant.
pub open spec fn byte(x: u64, i: u64) -> u64 {
    (x >> (8 * i)) & 0xff
}

/// The word whose bytes, from the least significant, are `b0` to `b7`.
pub open spec fn pack(
    b0: u64,
    b1: u64,
    b2: u64,
    b3: u64,
    b4: u64,
    b5: u64,
    b6: u64,
    b7: u64,
) -> u64 {
    b0 | (b1 << 8) | (b2 << 16) | (b3 << 24) | (b4 << 32) | (b5 << 40) | (b6 << 48) | (b7 << 56)
}

/// Low word of the zipper merge of the 128-bit value `hi:lo`: a fixed
/// permutation of its sixteen bytes.
pub open spec fn zipper_low(hi: u64, lo: u64) -> u64 {
    pack(
        byte(lo, 3),
        byte(hi, 4),
        byte(lo, 2),
        byte(lo, 5),
        byte(hi, 6),
        byte(lo, 1),
        byte(hi, 7),
        byte(lo, 0),
    )
}

/// High word of the zipper merge of `hi:lo`.
pub open spec fn zipper_high(hi: u64, lo: u64) -> u64 {
    pack(
        byte(hi, 3),
        byte(lo, 4),
        byte(hi, 2),
        byte(hi, 5),
        byte(hi, 1),
        byte(lo, 6),
        byte(hi, 0),
        byte(lo, 7),
    )
}

/// The mixing state: two running accumulators and two multiplicative ones,
/// four lanes each.
pub struct State {
    pub v0: Seq<u64>,
    pub v1: Seq<u64>,
    pub mul0: Seq<u64>,
    pub mul1: Seq<u64>,
}

/// Initial value of the first multiplicative accumulator.
pub open spec fn init0() -> Seq<u64> {
    seq![
        0xdbe6_d5d5_fe4c_ce2fu64,
        0xa409_3822_299f_31d0u64,
        0x1319_8a2e_0370_7344u64,
        0x243f_6a88_85a3_08d3u64,
    ]
}

/// Initial value of the second multiplicative accumulator.
pub open spec fn init1() -> Seq<u64> {
    seq![
        0x3bd3_9e10_cb0e_f593u64,
        0xc0ac_f169_b5f1_8a8cu64,
        0xbe54_66cf_34e9_0c6cu64,
        0x4528_21e6_38d0_1377u64,
    ]
}

/// The state that a key expands to.
pub open spec fn init(key: Seq<u64>) -> State {
    State {
        v0: Seq::new(4, |i: int| init0()[i] ^ key[i]),
        v1: Seq::new(4, |i: int| init1()[i] ^ swap32(key[i])),
        mul0: init0(),
        mul1: init1(),
    }
}

/// Lane `i` of `v1` once the packet has been added in.
pub open spec fn mixed_v1(s: State, p: Seq<u64>, i: int) -> u64 {
    wadd(s.v1[i], wadd(s.mul0[i], p[i]))
}

/// Lane `i` of `mul0` after the multiplication.
pub open spec fn mixed_mul0(s: State, p: Seq<u64>, i: int) -> u64 {
    s.mul0[i] ^ mul32(mixed_v1(s, p, i), s.v0[i])
}

/// Lane `i` of `v0` after the multiplication.
pub open spec fn mixed_v0(s: State, i: int) -> u64 {
    wadd(s.v0[i], s.mul1[i])
}

/// Lane `i` of `mul1` after the multiplication.
pub open spec fn mixed_mul1(s: State, p: Seq<u64>, i: int) -> u64 {
    s.mul1[i] ^ mul32(mixed_v0(s, i), mixed_v1(s, p, i))
}

/// First half of an absorption step: each lane takes in its packet word and
/// is multiplied into the multiplicative accumulators, lane by lane.
pub open spec fn multiply(s: State, p: Seq<u64>) -> State {
    State {
        v0: Seq::new(4, |i: int| mixed_v0(s, i)),
        v1: Seq::new(4, |i: int| mixed_v1(s, p, i)),
        mul0: Seq::new(4, |i: int| mixed_mul0(s, p, i)),
        mul1: Seq::new(4, |i: int| mixed_mul1(s, p, i)),
    }
}

/// `acc` with the zipper merge of each lane pair of `src` added to it.
pub open spec fn zipped(acc: Seq<u64>, src: Seq<u64>) -> Seq<u64> {
    seq![
        wadd(acc[0], zipper_low(src[1], src[0])),
        wadd(acc[1], zipper_high(src[1], src[0])),
        wadd(acc[2], zipper_low(src[3], src[2])),
        wadd(acc[3], zipper_high(src[3], src[2])),
    ]
}

/// One absorption step: the state after the four-word packet `p`.
pub open spec fn update(s: State, p: Seq<u64>) -> State {
    let m = multiply(s, p);
    let v0 = zipped(m.v0, m.v1);
    State { v0, v1: zipped(m.v1, v0), mul0: m.mul0, mul1: m.mul1 }
}

/// The little-endian word held in the eight bytes of `bytes` from `at` on.
pub open spec fn word(bytes: Seq<u8>, at: int) -> u64 {
    pack(
        bytes[at] as u64,
        bytes[at + 1] as u64,
        bytes[at + 2] as u64,
        bytes[at + 3] as u64,
        bytes[at + 4] as u64,
        bytes[at + 5] as u64,
        bytes[at + 6] as u64,
        bytes[at + 7] as u64,
    )
}

/// The four packet words of a block of 32 bytes.
pub open spec fn lanes(block: Seq<u8>) -> Seq<u64> {
    seq![word(block, 0), word(block, 8), word(block, 16), word(block, 24)]
}

/// The block that stands for a tail of 1 to 31 bytes. The whole groups of
/// four bytes keep their place. Of a tail of 16 bytes or more the last four
/// bytes close the block; of a shorter one the up to three bytes that are
/// left over go to the middle of the block.
pub open spec fn tail_block(tail: Seq<u8>) -> Seq<u8>
    recommends
        0 < tail.len() < 32,
{
    let size = tail.len() as int;
    let odd = size % 4;
    let whole = size - odd;
    Seq::new(
        32,
        |i: int|
            if i < whole {
                tail[i]
            } else if size >= 16 {
                if i >= 28 {
                    tail[size - 32 + i]
                } else {
                    0u8
                }
            } else if odd == 0 {
                0u8
            } else if i == 16 {
                tail[whole]
            } else if i == 17 {
                tail[whole + odd / 2]
            } else if i == 18 {
                tail[size - 1]
            } else {
                0u8
            },
    )
}

/// A 32-bit value rotated left by `n` bits, `0 < n < 32`.
pub open spec fn rotl32(x: u32, n: u32) -> u32 {
    (x << n) | (x >> sub32(n))
}

/// The shift that completes `n` to 32 bits.
pub open spec fn sub32(n: u32) -> u32 {
    (32 - n) as u32
}

/// The word with each of its two 32-bit halves rotated left by `n` bits.
pub open spec fn rotate_halves(x: u64, n: u32) -> u64 {
    (rotl32(x as u32, n) as u64) | ((rotl32((x >> 32) as u32, n) as u64) << 32)
}

/// What a tail of `size` bytes adds to each lane of `v0`: the size in both
/// halves of the word.
pub open spec fn length_tag(size: u64) -> u64 {
    (size << 32) | size
}

/// The state after a closing tail of 1 to 31 bytes.
pub open spec fn update_remainder(s: State, tail: Seq<u8>) -> State
    recommends
        0 < tail.len() < 32,
{
    let size = tail.len() as u64;
    let tagged = State {
        v0: Seq::new(4, |i: int| wadd(s.v0[i], length_tag(size))),
        v1: Seq::new(4, |i: int| rotate_halves(s.v1[i], size as u32)),
        mul0: s.mul0,
        mul1: s.mul1,
    };
    update(tagged, lanes(tail_block(tail)))
}

/// The packet that a finishing round feeds back: `v0` with its lane pairs
/// exchanged and the halves of every lane swapped.
pub open spec fn permute(v: Seq<u64>) -> Seq<u64> {
    seq![swap32(v[2]), swap32(v[3]), swap32(v[0]), swap32(v[1])]
}

/// One finishing round.
pub open spec fn round(s: State) -> State {
    update(s, permute(s.v0))
}

/// `n` finishing rounds.
pub open spec fn rounds(s: State, n: nat) -> State
    decreases n,
{
    if n == 0 {
        s
    } else {
        round(rounds(s, (n - 1) as nat))
    }
}

/// The state after the first `n` whole blocks of `data`.
pub open spec fn absorb_blocks(s: State, data: Seq<u8>, n: nat) -> State
    recommends
        32 * n <= data.len(),
    decreases n,
{
    if n == 0 {
        s
    } else {
        update(
            absorb_blocks(s, data, (n - 1) as nat),
            lanes(data.subrange(32 * (n - 1), 32 * (n as int))),
        )
    }
}

/// The state of a hasher keyed with `key` that has taken in the whole
/// blocks of `data`; the bytes after them wait in its buffer.
pub open spec fn absorbed(key: Seq<u64>, data: Seq<u8>) -> State {
    absorb_blocks(init(key), data, data.len() / 32)
}

/// The bytes of `data` after its last whole block.
pub open spec fn pending(data: Seq<u8>) -> Seq<u8> {
    data.subrange(data.len() - data.len() % 32, data.len() as int)
}

/// The state from which a result is read, before the finishing rounds:
/// every byte of `data` taken in, the tail by the tail rule.
pub open spec fn closed(key: Seq<u64>, data: Seq<u8>) -> State {
    if data.len() % 32 == 0 {
        absorbed(key, data)
    } else {
        update_remainder(absorbed(key, data), pending(data))
    }
}

/// Number of finishing rounds before a 64-bit result is read.
pub open spec fn rounds64() -> nat {
    4
}

/// Number of finishing rounds before a 128-bit result is read.
pub open spec fn rounds128() -> nat {
    6
}

/// Number of finishing rounds before a 256-bit result is read.
pub open spec fn rounds256() -> nat {
    10
}

/// The 64-bit result read from a finished state.
pub open spec fn extract64(s: State) -> u64 {
    wadd(wadd(wadd(s.v0[0], s.v1[0]), s.mul0[0]), s.mul1[0])
}

/// The 128-bit result read from a finished state, low word first.
pub open spec fn extract128(s: State) -> Seq<u64> {
    seq![
        wadd(wadd(wadd(s.v0[0], s.mul0[0]), s.v1[2]), s.mul1[2]),
        wadd(wadd(wadd(s.v0[1], s.mul0[1]), s.v1[3]), s.mul1[3]),
    ]
}

/// Low word of the 256-bit value `a3:a2:a1:a0` reduced to 128 bits.
pub open spec fn reduce_low(a2: u64, a0: u64) -> u64 {
    a0 ^ (a2 << 1) ^ (a2 << 2)
}

/// High word of the 256-bit value `a3:a2:a1:a0` reduced to 128 bits. The
/// two top bits of `a3` do not count.
pub open spec fn reduce_high(a3: u64, a2: u64, a1: u64) -> u64 {
    let top = a3 & 0x3fff_ffff_ffff_ffff;
    a1 ^ ((top << 1) | (a2 >> 63)) ^ ((top << 2) | (a2 >> 62))
}

/// The 256-bit result read from a finished state, low word first.
pub open spec fn extract256(s: State) -> Seq<u64> {
    let a0 = wadd(s.v0[0], s.mul0[0]);
    let a1 = wadd(s.v0[1], s.mul0[1]);
    let a2 = wadd(s.v1[0], s.mul1[0]);
    let a3 = wadd(s.v1[1], s.mul1[1]);
    let b0 = wadd(s.v0[2], s.mul0[2]);
    let b1 = wadd(s.v0[3], s.mul0[3]);
    let b2 = wadd(s.v1[2], s.mul1[2]);
    let b3 = wadd(s.v1[3], s.mul1[3]);
    seq![reduce_low(a2, a0), reduce_high(a3, a2, a1), reduce_low(b2, b0), reduce_high(b3, b2, b1)]
}

/// The 64-bit hash of `data` under `key`.
pub open spec fn hash64(key: Seq<u64>, data: Seq<u8>) -> u64 {
    extract64(rounds(closed(key, data), rounds64()))
}

/// The 128-bit hash of `data` under `key`, low word first.
pub open spec fn hash128(key: Seq<u64>, data: Seq<u8>) -> Seq<u64> {
    extract128(rounds(closed(key, data), rounds128()))
}

/// The 256-bit hash of `data` under `key`, low word first.
pub open spec fn hash256(key: Seq<u64>, data: Seq<u8>) -> Seq<u64> {
    extract256(rounds(closed(key, data), rounds256()))
}

} // verus!
