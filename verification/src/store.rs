//! Store records: metadata, loyalty configuration, accrued revenue, and the
//! store-scoped admin set.
//!
//! A store is created once by its registering owner, who becomes its first
//! admin with the `Owner` role; metadata and the admin set are mutated only
//! by owner-authorized calls, and a store is never deleted.

use vstd::prelude::*;

use crate::admin::{AdminEntry, AdminList, MAX_ADMINS};
use crate::error::CustomError;
use crate::types::{AdminRoleType, LoyaltyConfig, Pubkey};

verus! {

/// One member of a store's admin set: an identifier tagged with a role.
#[derive(Clone, Copy, PartialEq, Eq, Structural, Debug)]
pub struct AdminRole {
    pub admin_pubkey: Pubkey,
    pub role_type: AdminRoleType,
}

impl AdminEntry for AdminRole {
    open spec fn id(&self) -> Pubkey {
        self.admin_pubkey
    }

    fn entry_id(&self) -> (r: Pubkey)
        ensures
            r == self.id(),
    {
        self.admin_pubkey
    }
}

/// A store's persistent record.
pub struct Store {
    pub owner: Pubkey,
    pub name: String,
    pub description: String,
    pub logo_uri: String,
    pub loyalty_config: LoyaltyConfig,
    pub is_active: bool,
    pub revenue: u64,
    pub admin_roles: AdminList<AdminRole>,
}

impl Store {
    /// The store invariant: its admin set is bounded and duplicate-free.
    pub open spec fn wf(&self) -> bool {
        self.admin_roles.wf()
    }

    /// Checks that the admin set is within its capacity.
    pub fn validate_admin_roles(&self) -> (r: Result<(), CustomError>)
        ensures
            match r {
                Ok(()) => self.admin_roles.entries@.len() <= MAX_ADMINS,
                Err(e) => e == CustomError::TooManyAdmins && self.admin_roles.entries@.len()
                    > MAX_ADMINS,
            },
    {
        if self.admin_roles.admin_count() <= MAX_ADMINS {
            Ok(())
        } else {
            Err(CustomError::TooManyAdmins)
        }
    }
}

/// Creates a store owned by `owner`, active, with no revenue, and with the
/// owner enrolled as the first admin under the `Owner` role.
pub fn register_store(
    owner: Pubkey,
    name: String,
    description: String,
    logo_uri: String,
    loyalty_config: LoyaltyConfig,
) -> (s: Store)
    ensures
        s.owner == owner,
        s.name@ == name@,
        s.description@ == description@,
        s.logo_uri@ == logo_uri@,
        s.loyalty_config == loyalty_config,
        s.is_active,
        s.revenue == 0,
        s.admin_roles.entries@.len() == 1,
        s.admin_roles.entries@[0] == (AdminRole {
            admin_pubkey: owner,
            role_type: AdminRoleType::Owner,
        }),
        s.wf(),
{
    let mut admin_roles: AdminList<AdminRole> = AdminList::new();
    let first = AdminRole { admin_pubkey: owner, role_type: AdminRoleType::Owner };
    let added = admin_roles.add_admin(first);
    proof {
        assert(added is Ok);
    }
    Store {
        owner,
        name,
        description,
        logo_uri,
        loyalty_config,
        is_active: true,
        revenue: 0,
        admin_roles,
    }
}

/// Updates a store's metadata and loyalty configuration; only the owner may
/// do so, and absent options leave the corresponding field unchanged.
pub fn update_store(
    store: &mut Store,
    authority: Pubkey,
    name: Option<String>,
    description: Option<String>,
    logo_uri: Option<String>,
    loyalty_config: Option<LoyaltyConfig>,
) -> (r: Result<(), CustomError>)
    ensures
        final(store).owner == old(store).owner,
        final(store).is_active == old(store).is_active,
        final(store).revenue == old(store).revenue,
        final(store).admin_roles.entries@ == old(store).admin_roles.entries@,
        match r {
            Ok(()) => {
                &&& authority == old(store).owner
                &&& final(store).name@ == (if name is Some {
                    name->0@
                } else {
                    old(store).name@
                })
                &&& final(store).description@ == (if description is Some {
                    description->0@
                } else {
                    old(store).description@
                })
                &&& final(store).logo_uri@ == (if logo_uri is Some {
                    logo_uri->0@
                } else {
                    old(store).logo_uri@
                })
                &&& final(store).loyalty_config == (if loyalty_config is Some {
                    loyalty_config->0
                } else {
                    old(store).loyalty_config
                })
            },
            Err(e) => {
                &&& e == CustomError::Unauthorized
                &&& authority != old(store).owner
                &&& final(store).name@ == old(store).name@
                &&& final(store).description@ == old(store).description@
                &&& final(store).logo_uri@ == old(store).logo_uri@
                &&& final(store).loyalty_config == old(store).loyalty_config
            },
        },
{
    if authority != store.owner {
        return Err(CustomError::Unauthorized);
    }
    if let Some(name) = name {
        store.name = name;
    }
    if let Some(description) = description {
        store.description = description;
    }
    if let Some(logo_uri) = logo_uri {
        store.logo_uri = logo_uri;
    }
    if let Some(loyalty_config) = loyalty_config {
        store.loyalty_config = loyalty_config;
    }
    Ok(())
}

/// Adds an admin to a store's admin set; only the owner may do so.
pub fn add_admin(
    store: &mut Store,
    authority: Pubkey,
    admin_pubkey: Pubkey,
    role_type: AdminRoleType,
) -> (r: Result<(), CustomError>)
    requires
        old(store).wf(),
    ensures
        final(store).wf(),
        final(store).owner == old(store).owner,
        final(store).name@ == old(store).name@,
        final(store).description@ == old(store).description@,
        final(store).logo_uri@ == old(store).logo_uri@,
        final(store).loyalty_config == old(store).loyalty_config,
        final(store).is_active == old(store).is_active,
        final(store).revenue == old(store).revenue,
        ({
            let entry = AdminRole { admin_pubkey, role_type };
            match r {
                Ok(()) => {
                    &&& authority == old(store).owner
                    &&& old(store).admin_roles.entries@.len() < MAX_ADMINS
                    &&& !old(store).admin_roles.contains_id(admin_pubkey)
                    &&& final(store).admin_roles.entries@ == old(store).admin_roles.entries@.push(
                        entry,
                    )
                },
                Err(e) => {
                    &&& final(store).admin_roles.entries@ == old(store).admin_roles.entries@
                    &&& (e == CustomError::Unauthorized || e == CustomError::TooManyAdmins || e
                        == CustomError::AdminAlreadyExists)
                    &&& (e == CustomError::Unauthorized <==> authority != old(store).owner)
                    &&& (e == CustomError::TooManyAdmins <==> authority == old(store).owner && old(store).admin_roles.entries@.len() == MAX_ADMINS)
                    &&& (e == CustomError::AdminAlreadyExists <==> authority == old(store).owner
                        && old(store).admin_roles.entries@.len() < MAX_ADMINS && old(store).admin_roles.contains_id(admin_pubkey))
                },
            }
        }),
{
    if authority != store.owner {
        return Err(CustomError::Unauthorized);
    }
    store.admin_roles.add_admin(AdminRole { admin_pubkey, role_type })
}

/// Removes an admin from a store's admin set; only the owner may do so, and
/// the relative order of the remaining entries is preserved.
pub fn remove_admin(store: &mut Store, authority: Pubkey, admin_pubkey: Pubkey) -> (r: Result<
    (),
    CustomError,
>)
    requires
        old(store).wf(),
    ensures
        final(store).wf(),
        final(store).owner == old(store).owner,
        final(store).name@ == old(store).name@,
        final(store).description@ == old(store).description@,
        final(store).logo_uri@ == old(store).logo_uri@,
        final(store).loyalty_config == old(store).loyalty_config,
        final(store).is_active == old(store).is_active,
        final(store).revenue == old(store).revenue,
        match r {
            Ok(()) => {
                &&& authority == old(store).owner
                &&& old(store).admin_roles.contains_id(admin_pubkey)
                &&& !final(store).admin_roles.contains_id(admin_pubkey)
                &&& exists|i: int|
                    0 <= i < old(store).admin_roles.entries@.len() && old(store).admin_roles.entries@[i].id() == admin_pubkey && final(store).admin_roles.entries@ == #[trigger] old(store).admin_roles.entries@.remove(i)
            },
            Err(e) => {
                &&& final(store).admin_roles.entries@ == old(store).admin_roles.entries@
                &&& (e == CustomError::Unauthorized || e == CustomError::AdminNotFound)
                &&& (e == CustomError::Unauthorized <==> authority != old(store).owner)
                &&& (e == CustomError::AdminNotFound <==> authority == old(store).owner && !old(store).admin_roles.contains_id(admin_pubkey))
            },
        },
{
    if authority != store.owner {
        return Err(CustomError::Unauthorized);
    }
    store.admin_roles.remove_admin(admin_pubkey)
}

/// Whether `user` holds exactly the role `role` in the store's admin set.
pub fn has_role(store: &Store, user: &Pubkey, role: AdminRoleType) -> (b: bool)
    ensures
        b == exists|i: int|
            0 <= i < store.admin_roles.entries@.len()
                && (#[trigger] store.admin_roles.entries@[i]).admin_pubkey == user
                && store.admin_roles.entries@[i].role_type == role,
{
    let mut i: usize = 0;
    while i < store.admin_roles.admin_count()
        invariant
            i <= store.admin_roles.entries@.len(),
            forall|j: int|
                0 <= j < i ==> !((#[trigger] store.admin_roles.entries@[j]).admin_pubkey == user
                    && store.admin_roles.entries@[j].role_type == role),
        decreases store.admin_roles.entries@.len() - i,
    {
        let entry = &store.admin_roles.entries[i];
        if entry.admin_pubkey == *user && entry.role_type == role {
            return true;
        }
        i = i + 1;
    }
    false
}

/// Checks that `authority` is the store's owner.
pub fn verify_store_authority(store: &Store, authority: &Pubkey) -> (r: Result<(), CustomError>)
    ensures
        match r {
            Ok(()) => store.owner == authority,
            Err(e) => e == CustomError::Unauthorized && store.owner != authority,
        },
{
    if store.owner == *authority {
        Ok(())
    } else {
        Err(CustomError::Unauthorized)
    }
}

} // verus!
