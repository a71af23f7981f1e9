use vstd::prelude::*;

verus! {

/// The 256-bit seed of a hasher: four 64-bit words in a fixed order.
#[derive(Clone, Copy, Debug, PartialEq, Eq)]
pub struct Key(pub [u64; 4]);

impl View for Key {
    type V = Seq<u64>;

    open spec fn view(&self) -> Seq<u64> {
        self.0@
    }
}

impl Default for Key {
    /// The all-zero key.
    fn default() -> (key: Key)
        ensures
            key@ =~= seq![0u64, 0u64, 0u64, 0u64],
    {
        Key([0u64; 4])
    }
}

} // verus!
