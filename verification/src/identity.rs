//! Identities: the key that names a party, and the funds it disposes of.

use anchor_lang::prelude::Pubkey;
use vstd::prelude::*;

verus! {

/// `anchor_lang::prelude::Pubkey`, the key of an account, is carried through
/// as it is: the ledger stores keys and compares them, and never looks inside
/// one.
#[verifier::external_type_specification]
#[verifier::external_body]
pub struct ExPubkey(Pubkey);

/// Tells whether two keys are the same, by `Pubkey`'s own `PartialEq::eq`.
///
/// Not proved: `Pubkey` wraps 32 bytes and derives `PartialEq`, so its `==`
/// holds of two keys exactly where they are the same value.
#[verifier::external_body]
pub(crate) fn same_key(a: &Pubkey, b: &Pubkey) -> (same: bool)
    ensures
        same == (*a == *b),
{
    a == b
}

/// A party whose request has been authorized, with the funds it holds outside
/// of any bank.
#[derive(Clone, Copy, Debug, PartialEq, Eq)]
pub struct Signer {
    /// The key that names the party.
    pub key: Pubkey,
    /// The funds the party can dispose of.
    pub lamports: u64,
}

} // verus!
