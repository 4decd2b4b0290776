use vstd::prelude::*;

verus! {

/// A 32-byte account identity (a public key), held as two 128-bit halves so
/// that equality in contracts is plain structural equality on the fields.
///
/// The core only ever compares identities; whatever cryptographic meaning
/// the bytes carry is the hosting environment's concern.
#[derive(Clone, Copy, PartialEq, Eq, Structural, Debug)]
pub struct Pubkey {
    /// The first 16 bytes of the key, big-endian.
    pub hi: u128,
    /// The last 16 bytes of the key, big-endian.
    pub lo: u128,
}

} // verus!
