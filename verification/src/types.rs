//! Identifier and tag types shared by every record of the ledger.

use vstd::prelude::*;

verus! {

/// An account identifier, as handed in by the hosting environment.
///
/// The ledger only ever compares identifiers for equality; how they are
/// derived and authenticated is the record store's concern.
#[derive(Clone, Copy, PartialEq, Eq, Structural, Debug)]
pub struct Pubkey {
    pub value: u128,
}

impl Pubkey {
    pub fn new(value: u128) -> (r: Pubkey)
        ensures
            r.value == value,
    {
        Pubkey { value }
    }
}

/// A product identifier, unique within its store.
#[derive(Clone, Copy, PartialEq, Eq, Structural, Debug)]
pub struct ProductUuid {
    pub value: u128,
}

impl ProductUuid {
    pub fn new(value: u128) -> (r: ProductUuid)
        ensures
            r.value == value,
    {
        ProductUuid { value }
    }
}

/// The capability tag granted to an administrator of a store or of the
/// platform.
#[derive(Clone, Copy, PartialEq, Eq, Structural, Debug)]
pub enum AdminRoleType {
    Owner,
    Manager,
    Viewer,
}

/// How a product is represented on the token ledger.
#[derive(Clone, Copy, PartialEq, Eq, Structural, Debug)]
pub enum TokenizedType {
    NonTokenized,
    Fungible,
    NonFungible,
}

/// The outcome recorded on a settlement receipt.
#[derive(Clone, Copy, PartialEq, Eq, Structural, Debug)]
pub enum TransactionStatus {
    Pending,
    Completed,
    Failed,
}

/// A store's loyalty configuration: how many points one base unit of
/// purchase value earns, and how many whole points buy one base unit back.
#[derive(Clone, Copy, PartialEq, Eq, Structural, Debug)]
pub struct LoyaltyConfig {
    pub points_per_sol: u64,
    pub redemption_rate: u64,
}

} // verus!
