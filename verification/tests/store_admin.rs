use sodap::admin::MAX_ADMINS;
use sodap::error::CustomError;
use sodap::events::{AdminAdded, PlatformAdminAdded, PurchaseCompleted, StoreAdminRemoved};
use sodap::store::{
    add_admin, has_role, register_store, remove_admin, update_store, verify_store_authority,
    Store,
};
use sodap::types::{AdminRoleType, LoyaltyConfig, Pubkey};

fn key(value: u128) -> Pubkey {
    Pubkey { value }
}

fn sample_store(owner: Pubkey) -> Store {
    register_store(
        owner,
        String::from("Corner Shop"),
        String::from("Groceries and sundries"),
        String::from("logo://corner"),
        LoyaltyConfig { points_per_sol: 10, redemption_rate: 100 },
    )
}

#[test]
fn register_store_enrolls_owner_as_first_admin() {
    // Scenario: register store S (owner O), add admin M as Manager; the
    // admin set is [O:Owner, M:Manager] with count 2.
    let owner = key(1);
    let mut store = sample_store(owner);
    assert_eq!(store.owner, owner);
    assert!(store.is_active);
    assert_eq!(store.revenue, 0);
    assert_eq!(store.admin_roles.admin_count(), 1);
    assert_eq!(store.admin_roles.entries[0].admin_pubkey, owner);
    assert_eq!(store.admin_roles.entries[0].role_type, AdminRoleType::Owner);

    let manager = key(2);
    assert!(add_admin(&mut store, owner, manager, AdminRoleType::Manager).is_ok());
    assert_eq!(store.admin_roles.admin_count(), 2);
    assert_eq!(store.admin_roles.entries[0].admin_pubkey, owner);
    assert_eq!(store.admin_roles.entries[0].role_type, AdminRoleType::Owner);
    assert_eq!(store.admin_roles.entries[1].admin_pubkey, manager);
    assert_eq!(store.admin_roles.entries[1].role_type, AdminRoleType::Manager);
}

#[test]
fn store_admin_set_rejects_eleventh_entry() {
    // Scenario: an admin set already at ten entries refuses the eleventh
    // with a capacity error and stays unchanged.
    let owner = key(1);
    let mut store = sample_store(owner);
    for i in 2..=10u128 {
        assert!(add_admin(&mut store, owner, key(i), AdminRoleType::Viewer).is_ok());
    }
    assert_eq!(store.admin_roles.admin_count(), MAX_ADMINS);
    let r = add_admin(&mut store, owner, key(11), AdminRoleType::Viewer);
    assert_eq!(r, Err(CustomError::TooManyAdmins));
    assert_eq!(store.admin_roles.admin_count(), MAX_ADMINS);
}

#[test]
fn store_add_admin_requires_owner() {
    let owner = key(1);
    let mut store = sample_store(owner);
    let r = add_admin(&mut store, key(99), key(2), AdminRoleType::Manager);
    assert_eq!(r, Err(CustomError::Unauthorized));
    assert_eq!(store.admin_roles.admin_count(), 1);
}

#[test]
fn store_add_admin_rejects_duplicate() {
    let owner = key(1);
    let mut store = sample_store(owner);
    let r = add_admin(&mut store, owner, owner, AdminRoleType::Viewer);
    assert_eq!(r, Err(CustomError::AdminAlreadyExists));
}

#[test]
fn store_remove_admin_preserves_order_of_rest() {
    let owner = key(1);
    let mut store = sample_store(owner);
    for i in 2..=5u128 {
        assert!(add_admin(&mut store, owner, key(i), AdminRoleType::Viewer).is_ok());
    }
    assert!(remove_admin(&mut store, owner, key(3)).is_ok());
    let ids: Vec<u128> =
        store.admin_roles.entries.iter().map(|e| e.admin_pubkey.value).collect();
    assert_eq!(ids, vec![1, 2, 4, 5]);
}

#[test]
fn store_remove_admin_errors() {
    let owner = key(1);
    let mut store = sample_store(owner);
    assert_eq!(remove_admin(&mut store, key(9), key(1)), Err(CustomError::Unauthorized));
    assert_eq!(remove_admin(&mut store, owner, key(42)), Err(CustomError::AdminNotFound));
    assert_eq!(store.admin_roles.admin_count(), 1);
}

#[test]
fn has_role_matches_identifier_and_role() {
    let owner = key(1);
    let mut store = sample_store(owner);
    assert!(add_admin(&mut store, owner, key(2), AdminRoleType::Manager).is_ok());
    assert!(has_role(&store, &owner, AdminRoleType::Owner));
    assert!(has_role(&store, &key(2), AdminRoleType::Manager));
    assert!(!has_role(&store, &key(2), AdminRoleType::Owner));
    assert!(!has_role(&store, &key(3), AdminRoleType::Viewer));
}

#[test]
fn update_store_is_owner_only_and_partial() {
    let owner = key(1);
    let mut store = sample_store(owner);
    let r = update_store(&mut store, key(9), Some(String::from("Other")), None, None, None);
    assert_eq!(r, Err(CustomError::Unauthorized));
    assert_eq!(store.name, "Corner Shop");

    let r = update_store(
        &mut store,
        owner,
        Some(String::from("New Name")),
        None,
        Some(String::from("logo://new")),
        Some(LoyaltyConfig { points_per_sol: 7, redemption_rate: 3 }),
    );
    assert!(r.is_ok());
    assert_eq!(store.name, "New Name");
    assert_eq!(store.description, "Groceries and sundries");
    assert_eq!(store.logo_uri, "logo://new");
    assert_eq!(store.loyalty_config, LoyaltyConfig { points_per_sol: 7, redemption_rate: 3 });
}

#[test]
fn verify_store_authority_checks_owner() {
    let owner = key(1);
    let store = sample_store(owner);
    assert!(verify_store_authority(&store, &owner).is_ok());
    assert_eq!(verify_store_authority(&store, &key(2)), Err(CustomError::Unauthorized));
}

#[test]
fn validate_admin_roles_accepts_bounded_set() {
    let owner = key(1);
    let store = sample_store(owner);
    assert!(store.validate_admin_roles().is_ok());
}

#[test]
fn event_records_carry_their_fields() {
    let removal = StoreAdminRemoved { store: key(7), admin: key(2), removed_at: 99 };
    assert_eq!(removal.store, key(7));
    assert_eq!(removal.admin, key(2));
    assert_eq!(removal.removed_at, 99);
    let added = AdminAdded {
        store_id: key(7),
        admin_pubkey: key(2),
        role_type: AdminRoleType::Manager,
        added_at: 98,
    };
    assert_eq!(added.role_type, AdminRoleType::Manager);
    let enrolled = PlatformAdminAdded { admin_pubkey: key(3), added_at: 97 };
    assert_eq!(enrolled.admin_pubkey, key(3));
    let settled = PurchaseCompleted { store: key(7), buyer: key(9), total_amount: 300, timestamp: 96 };
    assert_eq!(settled.total_amount, 300);
}
