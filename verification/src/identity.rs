use vstd::prelude::*;

verus! {

/// A 256-bit identity: an owner, a creator, or the target program of a
/// transaction. The engine never interprets an identity; it only compares
/// identities for equality. The four words hold the 32 bytes of the host's
/// key material in little-endian order, least-significant word first.
#[derive(Clone, Copy, PartialEq, Eq, Structural, Debug)]
pub struct Identity {
    pub w0: u64,
    pub w1: u64,
    pub w2: u64,
    pub w3: u64,
}

impl Identity {
    pub fn new(w0: u64, w1: u64, w2: u64, w3: u64) -> (r: Identity)
        ensures
            r == (Identity { w0, w1, w2, w3 }),
    {
        Identity { w0, w1, w2, w3 }
    }
}

} // verus!
