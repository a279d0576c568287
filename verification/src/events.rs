//! Immutable event records for off-core observers.
//!
//! The library computes state transitions; the hosting environment appends
//! these records to its event sink.  Timestamps come from the host's clock.

use vstd::prelude::*;

use crate::types::{AdminRoleType, ProductUuid, Pubkey};

verus! {

/// A store admin was removed.
#[derive(Clone, Copy, PartialEq, Eq, Structural, Debug)]
pub struct StoreAdminRemoved {
    /// The store's address
    pub store: Pubkey,
    /// The removed admin's address
    pub admin: Pubkey,
    /// Unix timestamp when the admin was removed
    pub removed_at: i64,
}

/// A store admin was added under a role.
#[derive(Clone, Copy, PartialEq, Eq, Structural, Debug)]
pub struct AdminAdded {
    pub store_id: Pubkey,
    pub admin_pubkey: Pubkey,
    pub role_type: AdminRoleType,
    pub added_at: i64,
}

/// A platform admin was enrolled.
#[derive(Clone, Copy, PartialEq, Eq, Structural, Debug)]
pub struct PlatformAdminAdded {
    pub admin_pubkey: Pubkey,
    pub added_at: i64,
}

/// A platform admin was removed.
#[derive(Clone, Copy, PartialEq, Eq, Structural, Debug)]
pub struct PlatformAdminRemoved {
    pub admin_pubkey: Pubkey,
    pub removed_at: i64,
}

/// A store was registered.
#[derive(Clone, Debug)]
pub struct StoreRegistered {
    pub store_id: Pubkey,
    pub owner: Pubkey,
    pub name: String,
    pub created_at: i64,
}

/// A store's metadata or configuration was updated.
#[derive(Clone, Copy, PartialEq, Eq, Structural, Debug)]
pub struct StoreUpdated {
    pub store_id: Pubkey,
    pub updated_by: Pubkey,
    pub updated_at: i64,
}

/// A settlement completed, with the full cart for the audit trail.
#[derive(Clone, Debug)]
pub struct CartPurchased {
    pub store_id: Pubkey,
    pub buyer_id: Pubkey,
    pub product_uuids: Vec<ProductUuid>,
    pub quantities: Vec<u64>,
    pub total_paid: u64,
    pub gas_fee: u64,
    pub timestamp: i64,
    pub product_count: u8,
}

/// A settlement completed, in summary form.
#[derive(Clone, Copy, PartialEq, Eq, Structural, Debug)]
pub struct PurchaseCompleted {
    pub store: Pubkey,
    pub buyer: Pubkey,
    pub total_amount: u64,
    pub timestamp: i64,
}

/// A user profile was created or updated.
#[derive(Clone, Debug)]
pub struct UserProfileUpdated {
    pub wallet_address: Pubkey,
    pub user_id: String,
    pub updated_at: i64,
}

} // verus!
