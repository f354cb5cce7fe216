use vstd::prelude::*;

verus! {

/// A 256-bit account identity, held as four 64-bit words.
///
/// Callers prove who they are before the library runs; the library only
/// compares identities.
#[derive(Clone, Copy, Debug, PartialEq, Eq, Structural)]
pub struct Pubkey(pub u64, pub u64, pub u64, pub u64);

impl Pubkey {
    /// Builds an identity from its four words.
    pub fn new(w0: u64, w1: u64, w2: u64, w3: u64) -> (r: Pubkey)
        ensures
            r == Pubkey(w0, w1, w2, w3),
    {
        Pubkey(w0, w1, w2, w3)
    }
}

} // verus!
