//! The hasher that picks its backend once, when it is made.
use crate::avx::AvxHash;
use crate::capability::Capabilities;
use crate::key::Key;
use crate::portable::PortableHash;
use crate::sse::SseHash;
use crate::traits::HighwayHash;
use vstd::prelude::*;

verus! {

/// The ways in which the hash can be computed.
#[derive(Clone, Copy, Debug, PartialEq, Eq, Structural)]
pub enum Backend {
    /// Lane by lane, on any machine.
    Portable,
    /// On registers of 128 bits.
    Sse,
    /// On registers of 256 bits.
    Avx,
}

/// The backend that a processor with the given capabilities gets: the
/// widest one that it can run, and the portable one if it can run no other.
pub open spec fn preferred(cpu: Capabilities) -> Backend {
    if cpu.avx2 {
        Backend::Avx
    } else if cpu.sse41 {
        Backend::Sse
    } else {
        Backend::Portable
    }
}

enum HighwayChoices {
    Portable(PortableHash),
    Sse(SseHash),
    Avx(AvxHash),
}

/// A hasher that works through one of the backends, chosen when it is made
/// and kept for its lifetime. In order of preference:
///
///  - `AvxHash`
///  - `SseHash`
///  - `PortableHash`
pub struct HighwayBuilder(HighwayChoices);

impl HighwayBuilder {
    /// The backend that this hasher works through.
    pub closed spec fn backend(&self) -> Backend {
        match self.0 {
            HighwayChoices::Portable(_) => Backend::Portable,
            HighwayChoices::Sse(_) => Backend::Sse,
            HighwayChoices::Avx(_) => Backend::Avx,
        }
    }

    /// A hasher keyed with `key` for a processor of which nothing is known:
    /// it works through the portable backend.
    pub fn new(key: Key) -> (hasher: HighwayBuilder)
        ensures
            hasher.key() == key@,
            hasher.input() == Seq::<u8>::empty(),
            hasher.backend() == Backend::Portable,
    {
        HighwayBuilder::with_capabilities(key, Capabilities::none())
    }

    /// A hasher keyed with `key` for a processor with the capabilities
    /// `cpu`: it works through the preferred backend among those that the
    /// processor can run.
    pub fn with_capabilities(key: Key, cpu: Capabilities) -> (hasher: HighwayBuilder)
        ensures
            hasher.key() == key@,
            hasher.input() == Seq::<u8>::empty(),
            hasher.backend() == preferred(cpu),
    {
        if let Some(h) = AvxHash::new(key, cpu) {
            return HighwayBuilder(HighwayChoices::Avx(h));
        }
        if let Some(h) = SseHash::new(key, cpu) {
            return HighwayBuilder(HighwayChoices::Sse(h));
        }
        HighwayBuilder(HighwayChoices::Portable(PortableHash::new(key)))
    }

    /// The backend that this hasher works through.
    pub fn chosen(&self) -> (backend: Backend)
        ensures
            backend == self.backend(),
    {
        match &self.0 {
            HighwayChoices::Portable(_) => Backend::Portable,
            HighwayChoices::Sse(_) => Backend::Sse,
            HighwayChoices::Avx(_) => Backend::Avx,
        }
    }
}

impl Default for HighwayBuilder {
    /// A hasher with the all-zero key, as [`HighwayBuilder::new`] makes it.
    fn default() -> (hasher: HighwayBuilder)
        ensures
            hasher.key() == seq![0u64, 0u64, 0u64, 0u64],
            hasher.input() == Seq::<u8>::empty(),
            hasher.backend() == Backend::Portable,
    {
        HighwayBuilder::new(Key::default())
    }
}

impl Clone for HighwayBuilder {
    /// A copy that from here on goes its own way.
    fn clone(&self) -> (copy: HighwayBuilder)
        ensures
            copy == *self,
    {
        match &self.0 {
            HighwayChoices::Portable(x) => HighwayBuilder(HighwayChoices::Portable(x.clone())),
            HighwayChoices::Sse(x) => HighwayBuilder(HighwayChoices::Sse(x.clone())),
            HighwayChoices::Avx(x) => HighwayBuilder(HighwayChoices::Avx(x.clone())),
        }
    }
}

impl HighwayHash for HighwayBuilder {
    closed spec fn key(&self) -> Seq<u64> {
        match self.0 {
            HighwayChoices::Portable(x) => x.key(),
            HighwayChoices::Sse(x) => x.key(),
            HighwayChoices::Avx(x) => x.key(),
        }
    }

    closed spec fn input(&self) -> Seq<u8> {
        match self.0 {
            HighwayChoices::Portable(x) => x.input(),
            HighwayChoices::Sse(x) => x.input(),
            HighwayChoices::Avx(x) => x.input(),
        }
    }

    fn hash64(self, data: &[u8]) -> (hash: u64) {
        match self.0 {
            HighwayChoices::Portable(x) => x.hash64(data),
            HighwayChoices::Avx(x) => x.hash64(data),
            HighwayChoices::Sse(x) => x.hash64(data),
        }
    }

    fn hash128(self, data: &[u8]) -> (hash: [u64; 2]) {
        match self.0 {
            HighwayChoices::Portable(x) => x.hash128(data),
            HighwayChoices::Avx(x) => x.hash128(data),
            HighwayChoices::Sse(x) => x.hash128(data),
        }
    }

    fn hash256(self, data: &[u8]) -> (hash: [u64; 4]) {
        match self.0 {
            HighwayChoices::Portable(x) => x.hash256(data),
            HighwayChoices::Avx(x) => x.hash256(data),
            HighwayChoices::Sse(x) => x.hash256(data),
        }
    }

    fn append(&mut self, data: &[u8])
        ensures
            final(self).backend() == old(self).backend(),
    {
        match &mut self.0 {
            HighwayChoices::Portable(x) => x.append(data),
            HighwayChoices::Avx(x) => x.append(data),
            HighwayChoices::Sse(x) => x.append(data),
        }
    }

    fn finalize64(&self) -> (hash: u64) {
        match &self.0 {
            HighwayChoices::Portable(x) => x.finalize64(),
            HighwayChoices::Avx(x) => x.finalize64(),
            HighwayChoices::Sse(x) => x.finalize64(),
        }
    }

    fn finalize128(&self) -> (hash: [u64; 2]) {
        match &self.0 {
            HighwayChoices::Portable(x) => x.finalize128(),
            HighwayChoices::Avx(x) => x.finalize128(),
            HighwayChoices::Sse(x) => x.finalize128(),
        }
    }

    fn finalize256(&self) -> (hash: [u64; 4]) {
        match &self.0 {
            HighwayChoices::Portable(x) => x.finalize256(),
            HighwayChoices::Avx(x) => x.finalize256(),
            HighwayChoices::Sse(x) => x.finalize256(),
        }
    }
}

} // verus!
