//! The hasher in the shapes that the standard library knows: a `Hasher`
//! that yields a 64-bit digest, and a byte sink that takes every write.
use crate::builder::HighwayBuilder;
use crate::model;
use crate::traits::HighwayHash;
use vstd::prelude::*;

verus! {

/// `std::io::Error`, the error type in the signatures of `std::io::Write`.
/// Nothing is claimed of it: the sink below never makes one.
#[verifier::external_type_specification]
#[verifier::external_body]
pub struct ExIoError(std::io::Error);

impl core::hash::Hasher for HighwayBuilder {
    /// The same as `append`.
    fn write(&mut self, bytes: &[u8])
        ensures
            final(self).key() == old(self).key(),
            final(self).input() == old(self).input() + bytes@,
            final(self).backend() == old(self).backend(),
    {
        self.append(bytes);
    }

    /// The same as `finalize64`: the hasher can take more input afterwards.
    fn finish(&self) -> (hash: u64)
        ensures
            hash == model::hash64(self.key(), self.input()),
    {
        self.finalize64()
    }
}

impl std::io::Write for HighwayBuilder {
    /// Takes all of `bytes` as more input; never fails.
    fn write(&mut self, bytes: &[u8]) -> (written: Result<usize, std::io::Error>)
        ensures
            written matches Ok(n) && n == bytes@.len(),
            final(self).key() == old(self).key(),
            final(self).input() == old(self).input() + bytes@,
            final(self).backend() == old(self).backend(),
    {
        self.append(bytes);
        Ok(bytes.len())
    }

    /// Does nothing, as no input is ever held back; never fails.
    fn flush(&mut self) -> (done: Result<(), std::io::Error>)
        ensures
            done is Ok,
            *final(self) == *old(self),
    {
        Ok(())
    }
}

} // verus!
