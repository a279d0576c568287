use sodap::admin::{
    add_platform_admin, check_root_password, is_super_root_admin, remove_platform_admin,
    PlatformAdmins, MAX_ADMINS,
};
use sodap::error::CustomError;
use sodap::types::Pubkey;

fn pk(value: u128) -> Pubkey {
    Pubkey { value }
}

#[test]
fn platform_add_and_remove_keep_set_bounded_and_distinct() {
    // A mixed sequence of adds and removes: after every step the registry
    // holds at most ten entries, all distinct.
    let mut admins = PlatformAdmins::new();
    for round in 0..3u128 {
        for i in 0..12u128 {
            let _ = admins.add_admin(pk(i % 7));
            let _ = admins.remove_admin(pk((i + round) % 5));
            assert!(admins.admin_count() <= MAX_ADMINS);
            for a in 0..admins.entries.len() {
                for b in (a + 1)..admins.entries.len() {
                    assert_ne!(admins.entries[a], admins.entries[b]);
                }
            }
        }
    }
}

#[test]
fn platform_add_rejects_eleventh_admin() {
    // Scenario: a registry already at ten entries refuses the eleventh and
    // stays unchanged.
    let mut admins = PlatformAdmins::new();
    for i in 0..10u128 {
        assert!(admins.add_admin(pk(i)).is_ok());
    }
    assert_eq!(admins.admin_count(), 10);
    let before: Vec<Pubkey> = admins.entries.clone();
    let r = admins.add_admin(pk(99));
    assert_eq!(r, Err(CustomError::TooManyAdmins));
    assert_eq!(admins.entries, before);
}

#[test]
fn platform_add_rejects_duplicate() {
    let mut admins = PlatformAdmins::new();
    assert!(admins.add_admin(pk(5)).is_ok());
    assert_eq!(admins.add_admin(pk(5)), Err(CustomError::AdminAlreadyExists));
    assert_eq!(admins.admin_count(), 1);
}

#[test]
fn platform_full_registry_reports_capacity_even_for_duplicate() {
    let mut admins = PlatformAdmins::new();
    for i in 0..10u128 {
        assert!(admins.add_admin(pk(i)).is_ok());
    }
    assert_eq!(admins.add_admin(pk(3)), Err(CustomError::TooManyAdmins));
}

#[test]
fn platform_remove_shifts_later_entries_left() {
    let mut admins = PlatformAdmins::new();
    for i in 1..=5u128 {
        assert!(admins.add_admin(pk(i)).is_ok());
    }
    assert!(admins.remove_admin(pk(2)).is_ok());
    let ids: Vec<u128> = admins.entries.iter().map(|p| p.value).collect();
    assert_eq!(ids, vec![1, 3, 4, 5]);
}

#[test]
fn platform_remove_missing_reports_not_found() {
    let mut admins = PlatformAdmins::new();
    assert!(admins.add_admin(pk(1)).is_ok());
    assert_eq!(admins.remove_admin(pk(2)), Err(CustomError::AdminNotFound));
    assert_eq!(admins.admin_count(), 1);
}

#[test]
fn find_admin_reports_position() {
    let mut admins = PlatformAdmins::new();
    for i in 10..13u128 {
        assert!(admins.add_admin(pk(i)).is_ok());
    }
    assert_eq!(admins.find_admin(pk(11)), Some(1));
    assert_eq!(admins.find_admin(pk(99)), None);
}

#[test]
fn root_password_check_compares_credentials() {
    let u = String::from("root");
    let p = String::from("secret");
    assert!(check_root_password(&u, &p, &String::from("root"), &String::from("secret")));
    assert!(!check_root_password(&u, &p, &String::from("root"), &String::from("other")));
    assert!(!check_root_password(&u, &p, &String::from("admin"), &String::from("secret")));
}

#[test]
fn super_root_admin_check_compares_keys() {
    assert!(is_super_root_admin(&pk(42), &pk(42)));
    assert!(!is_super_root_admin(&pk(42), &pk(43)));
}

#[test]
fn gated_platform_add_requires_root_signer() {
    let mut admins = PlatformAdmins::new();
    let root = pk(1);
    let u = String::from("root");
    let p = String::from("pass");
    let r = add_platform_admin(&mut admins, pk(2), root, pk(3), &u, &p, &u, &p);
    assert_eq!(r, Err(CustomError::Unauthorized));
    assert_eq!(admins.admin_count(), 0);
}

#[test]
fn gated_platform_add_requires_matching_credentials() {
    let mut admins = PlatformAdmins::new();
    let root = pk(1);
    let r = add_platform_admin(
        &mut admins,
        root,
        root,
        pk(3),
        &String::from("root"),
        &String::from("wrong"),
        &String::from("root"),
        &String::from("pass"),
    );
    assert_eq!(r, Err(CustomError::Unauthorized));
    assert_eq!(admins.admin_count(), 0);
}

#[test]
fn gated_platform_add_rejects_root_enrolling_itself() {
    let mut admins = PlatformAdmins::new();
    let root = pk(1);
    let u = String::from("root");
    let p = String::from("pass");
    let r = add_platform_admin(&mut admins, root, root, root, &u, &p, &u, &p);
    assert_eq!(r, Err(CustomError::Unauthorized));
}

#[test]
fn gated_platform_add_and_remove_round_trip() {
    let mut admins = PlatformAdmins::new();
    let root = pk(1);
    let u = String::from("root");
    let p = String::from("pass");
    assert!(add_platform_admin(&mut admins, root, root, pk(7), &u, &p, &u, &p).is_ok());
    assert_eq!(admins.admin_count(), 1);
    assert!(remove_platform_admin(&mut admins, root, root, pk(7), &u, &p, &u, &p).is_ok());
    assert_eq!(admins.admin_count(), 0);
    assert_eq!(
        remove_platform_admin(&mut admins, root, root, pk(7), &u, &p, &u, &p),
        Err(CustomError::AdminNotFound)
    );
}
