use sodap::error::CustomError;
use sodap::types::{ProductUuid, Pubkey};
use sodap::user::{
    create_or_update_user_profile, create_user_wallet, scan_and_purchase, UserProfile,
    MAX_DELIVERY_ADDRESS_LEN, MAX_USER_ID_LEN,
};

fn wallet(value: u128) -> Pubkey {
    Pubkey { value }
}

#[test]
fn create_user_wallet_starts_empty() {
    let profile = create_user_wallet(wallet(5));
    assert_eq!(profile.authority, wallet(5));
    assert_eq!(profile.get_user_id(), "");
    assert_eq!(profile.get_delivery_address(), "");
    assert_eq!(profile.preferred_store, None);
    assert_eq!(profile.total_purchases, 0);
    assert!(profile.validate().is_ok());
}

#[test]
fn profile_default_is_well_formed() {
    let profile = UserProfile::default();
    assert_eq!(profile.total_purchases, 0);
    assert!(profile.validate().is_ok());
}

#[test]
fn profile_update_sets_given_fields_only() {
    let mut profile = create_user_wallet(wallet(5));
    let r = create_or_update_user_profile(
        &mut profile,
        wallet(5),
        Some(String::from("customer-77")),
        None,
        Some(wallet(12)),
    );
    assert!(r.is_ok());
    assert_eq!(profile.get_user_id(), "customer-77");
    assert_eq!(profile.get_delivery_address(), "");
    assert_eq!(profile.preferred_store, Some(wallet(12)));

    let r = create_or_update_user_profile(
        &mut profile,
        wallet(5),
        None,
        Some(String::from("1 High Street")),
        None,
    );
    assert!(r.is_ok());
    assert_eq!(profile.get_user_id(), "customer-77");
    assert_eq!(profile.get_delivery_address(), "1 High Street");
    assert_eq!(profile.preferred_store, Some(wallet(12)));
}

#[test]
fn profile_update_rejects_oversized_text_without_change() {
    let mut profile = create_user_wallet(wallet(5));
    let long_id = "x".repeat(MAX_USER_ID_LEN + 1);
    let r = create_or_update_user_profile(
        &mut profile,
        wallet(5),
        Some(long_id),
        Some(String::from("kept out")),
        None,
    );
    assert_eq!(r, Err(CustomError::StringTooLong));
    assert_eq!(profile.get_user_id(), "");
    assert_eq!(profile.get_delivery_address(), "");

    let long_addr = "y".repeat(MAX_DELIVERY_ADDRESS_LEN + 1);
    let r = create_or_update_user_profile(&mut profile, wallet(5), None, Some(long_addr), None);
    assert_eq!(r, Err(CustomError::StringTooLong));
    assert_eq!(profile.get_delivery_address(), "");
}

#[test]
fn set_user_id_enforces_bound() {
    let mut profile = create_user_wallet(wallet(5));
    let at_limit = "u".repeat(MAX_USER_ID_LEN);
    assert!(profile.set_user_id(&at_limit).is_ok());
    assert_eq!(profile.get_user_id(), at_limit);
    let over = "u".repeat(MAX_USER_ID_LEN + 1);
    assert_eq!(profile.set_user_id(&over), Err(CustomError::StringTooLong));
    assert_eq!(profile.get_user_id(), at_limit);
}

#[test]
fn set_delivery_address_enforces_bound() {
    let mut profile = create_user_wallet(wallet(5));
    let at_limit = "a".repeat(MAX_DELIVERY_ADDRESS_LEN);
    assert!(profile.set_delivery_address(&at_limit).is_ok());
    assert_eq!(profile.get_delivery_address(), at_limit);
    let over = "a".repeat(MAX_DELIVERY_ADDRESS_LEN + 1);
    assert_eq!(profile.set_delivery_address(&over), Err(CustomError::StringTooLong));
    assert_eq!(profile.get_delivery_address(), at_limit);
}

#[test]
fn scan_and_purchase_counts_well_formed_carts() {
    let mut profile = create_user_wallet(wallet(5));
    let uuids = vec![ProductUuid { value: 1 }, ProductUuid { value: 2 }];
    assert!(scan_and_purchase(&mut profile, &uuids, &vec![1, 2]).is_ok());
    assert_eq!(profile.total_purchases, 1);
    assert!(scan_and_purchase(&mut profile, &uuids, &vec![3, 4]).is_ok());
    assert_eq!(profile.total_purchases, 2);
}

#[test]
fn scan_and_purchase_rejects_mismatched_cart() {
    let mut profile = create_user_wallet(wallet(5));
    let uuids = vec![ProductUuid { value: 1 }];
    let r = scan_and_purchase(&mut profile, &uuids, &vec![1, 2]);
    assert_eq!(r, Err(CustomError::InvalidCart));
    assert_eq!(profile.total_purchases, 0);
}

#[test]
fn scan_and_purchase_rejects_counter_overflow() {
    let mut profile = create_user_wallet(wallet(5));
    profile.total_purchases = u64::MAX;
    let uuids = vec![ProductUuid { value: 1 }];
    let r = scan_and_purchase(&mut profile, &uuids, &vec![1]);
    assert_eq!(r, Err(CustomError::ArithmeticError));
    assert_eq!(profile.total_purchases, u64::MAX);
}
