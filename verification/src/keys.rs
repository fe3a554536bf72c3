//! Account addresses.
//!
//! Addresses are `Pubkey` values of the Solana SDK.  The rules in this crate
//! never look inside one: they store addresses, hand them on, and compare them.

use anchor_lang::prelude::Pubkey;
use vstd::prelude::*;

verus! {

/// `solana_program::pubkey::Pubkey`, a 32-byte account address, taken here as
/// an opaque value.
#[verifier::external_type_specification]
#[verifier::external_body]
pub struct ExPubkey(anchor_lang::prelude::Pubkey);

/// `Pubkey`'s `clone`, which the derived `Clone` of every record that holds
/// an address calls.
///
/// Trusted: `Pubkey` derives `Clone` and `Copy`, so the clone is the same
/// address.
pub assume_specification[ <Pubkey as Clone>::clone ](key: &Pubkey) -> (r: Pubkey)
    ensures
        r == *key,
;

/// Compares two addresses with `Pubkey`'s own `==`.
///
/// Trusted: `Pubkey` is a wrapper of `[u8; 32]` with derived `PartialEq` and
/// `Eq`, so `==` holds exactly when the two values are the same address.
#[verifier::external_body]
pub(crate) fn same_key(a: &Pubkey, b: &Pubkey) -> (r: bool)
    ensures
        r == (*a == *b),
{
    a == b
}

} // verus!
