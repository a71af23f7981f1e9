//! What the processor that runs the program can do.
use vstd::prelude::*;

verus! {

/// The vector instruction sets that the running processor has. The library
/// does not look at the processor itself: the program that uses it does,
/// once, and hands the answer in.
#[derive(Clone, Copy, Debug, PartialEq, Eq, Structural)]
pub struct Capabilities {
    /// Whether instructions on 128-bit registers can be used.
    pub sse41: bool,
    /// Whether instructions on 256-bit registers can be used.
    pub avx2: bool,
}

impl Capabilities {
    /// The answer for a processor of which nothing is known: no vector
    /// instruction set can be used.
    pub fn none() -> (cpu: Capabilities)
        ensures
            cpu == (Capabilities { sse41: false, avx2: false }),
    {
        Capabilities { sse41: false, avx2: false }
    }

    /// The answer for a processor with the given instruction sets.
    pub fn new(sse41: bool, avx2: bool) -> (cpu: Capabilities)
        ensures
            cpu == (Capabilities { sse41, avx2 }),
    {
        Capabilities { sse41, avx2 }
    }
}

impl Default for Capabilities {
    /// The same as [`Capabilities::none`].
    fn default() -> (cpu: Capabilities)
        ensures
            cpu == (Capabilities { sse41: false, avx2: false }),
    {
        Capabilities::none()
    }
}

} // verus!
