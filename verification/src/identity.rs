use vstd::prelude::*;

verus! {

/// An opaque 256-bit identity, used both as a record key and as a signer
/// reference. The ledger hands it in fully formed; this core only stores
/// and compares it, so it is held as two 128-bit halves.
#[derive(Clone, Copy, Debug, PartialEq, Eq, Structural)]
pub struct WalletAddress {
    pub hi: u128,
    pub lo: u128,
}

} // verus!
