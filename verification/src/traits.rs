//! The contract that every hasher of the library meets.
use crate::model;
use vstd::prelude::*;

verus! {

/// A keyed hasher that takes its input in any number of pieces.
///
/// A hasher stands for its key and for the bytes it was given so far, in
/// order; how they were cut into pieces leaves no trace. Every result is the
/// hash of [`model`] of those two.
pub trait HighwayHash: Sized {
    /// The four words of the key that the hasher was made with.
    spec fn key(&self) -> Seq<u64>;

    /// All bytes given to the hasher so far, in order.
    spec fn input(&self) -> Seq<u8>;

    /// Takes `data` as the last piece of input and returns the 64-bit hash
    /// of the whole. The hasher is used up.
    fn hash64(self, data: &[u8]) -> (hash: u64)
        ensures
            hash == model::hash64(self.key(), self.input() + data@),
    ;

    /// Takes `data` as the last piece of input and returns the 128-bit hash
    /// of the whole, low word first. The hasher is used up.
    fn hash128(self, data: &[u8]) -> (hash: [u64; 2])
        ensures
            hash@ == model::hash128(self.key(), self.input() + data@),
    ;

    /// Takes `data` as the last piece of input and returns the 256-bit hash
    /// of the whole, low word first. The hasher is used up.
    fn hash256(self, data: &[u8]) -> (hash: [u64; 4])
        ensures
            hash@ == model::hash256(self.key(), self.input() + data@),
    ;

    /// Adds `data` to the end of the input. The key stays.
    fn append(&mut self, data: &[u8])
        ensures
            final(self).key() == old(self).key(),
            final(self).input() == old(self).input() + data@,
    ;

    /// The 64-bit hash of the input so far. The hasher is left as it was and
    /// can take more input.
    fn finalize64(&self) -> (hash: u64)
        ensures
            hash == model::hash64(self.key(), self.input()),
    ;

    /// The 128-bit hash of the input so far, low word first. The hasher is
    /// left as it was.
    fn finalize128(&self) -> (hash: [u64; 2])
        ensures
            hash@ == model::hash128(self.key(), self.input()),
    ;

    /// The 256-bit hash of the input so far, low word first. The hasher is
    /// left as it was.
    fn finalize256(&self) -> (hash: [u64; 4])
        ensures
            hash@ == model::hash256(self.key(), self.input()),
    ;
}

} // verus!
