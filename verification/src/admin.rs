//! The bounded administrator registry.
//!
//! One algorithm serves both scopes: the platform-wide admin list (entries
//! are bare identifiers) and a store's admin set (entries carry a role tag).
//! A registry holds at most `MAX_ADMINS` entries, unique by identifier, in
//! insertion order; removal closes the gap by shifting later entries left.

use vstd::prelude::*;

use crate::error::CustomError;
use crate::types::Pubkey;

verus! {

/// The most entries any admin registry may hold.
pub const MAX_ADMINS: usize = 10;

/// An entry of an admin registry: anything that names the identifier it is
/// keyed by.
pub trait AdminEntry: Sized {
    /// The identifier this entry is keyed by.
    spec fn id(&self) -> Pubkey;

    /// Returns the identifier this entry is keyed by.
    fn entry_id(&self) -> (r: Pubkey)
        ensures
            r == self.id();
}

/// A platform-scope entry is the identifier itself.
impl AdminEntry for Pubkey {
    open spec fn id(&self) -> Pubkey {
        *self
    }

    fn entry_id(&self) -> (r: Pubkey)
        ensures
            r == self.id(),
    {
        *self
    }
}

/// A bounded, duplicate-free, order-preserving set of admin entries.
pub struct AdminList<T> {
    pub entries: Vec<T>,
}

impl<T: AdminEntry> AdminList<T> {
    /// The registry invariant: at most `MAX_ADMINS` entries, no two keyed by
    /// the same identifier.  Every operation preserves it.
    pub open spec fn wf(&self) -> bool {
        &&& self.entries@.len() <= MAX_ADMINS
        &&& forall|i: int, j: int|
            0 <= i < j < self.entries@.len() ==> #[trigger] self.entries@[i].id() != #[trigger] self.entries@[j].id()
    }

    /// Whether some entry is keyed by `id`.
    pub open spec fn contains_id(&self, id: Pubkey) -> bool {
        exists|i: int| 0 <= i < self.entries@.len() && #[trigger] self.entries@[i].id() == id
    }

    pub fn new() -> (r: AdminList<T>)
        ensures
            r.entries@.len() == 0,
            r.wf(),
    {
        AdminList { entries: Vec::new() }
    }

    pub fn admin_count(&self) -> (n: usize)
        ensures
            n == self.entries@.len(),
    {
        self.entries.len()
    }

    /// The position of the entry keyed by `id`, if any.
    pub fn find_admin(&self, id: Pubkey) -> (r: Option<usize>)
        ensures
            match r {
                Some(i) => i < self.entries@.len() && self.entries@[i as int].id() == id,
                None => !self.contains_id(id),
            },
    {
        let mut i: usize = 0;
        while i < self.entries.len()
            invariant
                i <= self.entries@.len(),
                forall|j: int| 0 <= j < i ==> #[trigger] self.entries@[j].id() != id,
            decreases self.entries@.len() - i,
        {
            if self.entries[i].entry_id() == id {
                return Some(i);
            }
            i = i + 1;
        }
        None
    }

    /// Appends `entry` unless the registry is full (`TooManyAdmins`) or an
    /// entry with the same identifier is already present
    /// (`AdminAlreadyExists`).  A full registry is reported as full even when
    /// the identifier is also a duplicate.
    pub fn add_admin(&mut self, entry: T) -> (r: Result<(), CustomError>)
        requires
            old(self).wf(),
        ensures
            final(self).wf(),
            match r {
                Ok(()) => {
                    &&& old(self).entries@.len() < MAX_ADMINS
                    &&& !old(self).contains_id(entry.id())
                    &&& final(self).entries@ == old(self).entries@.push(entry)
                },
                Err(e) => {
                    &&& final(self).entries@ == old(self).entries@
                    &&& (e == CustomError::TooManyAdmins || e == CustomError::AdminAlreadyExists)
                    &&& (e == CustomError::TooManyAdmins <==> old(self).entries@.len() == MAX_ADMINS)
                    &&& (e == CustomError::AdminAlreadyExists <==> old(self).entries@.len() < MAX_ADMINS
                        && old(self).contains_id(entry.id()))
                },
            },
    {
        if self.entries.len() >= MAX_ADMINS {
            return Err(CustomError::TooManyAdmins);
        }
        if self.find_admin(entry.entry_id()).is_some() {
            return Err(CustomError::AdminAlreadyExists);
        }
        self.entries.push(entry);
        Ok(())
    }

    /// Removes the entry keyed by `id`, shifting all later entries one
    /// position left; absent identifiers are reported as `AdminNotFound`.
    pub fn remove_admin(&mut self, id: Pubkey) -> (r: Result<(), CustomError>)
        requires
            old(self).wf(),
        ensures
            final(self).wf(),
            match r {
                Ok(()) => {
                    &&& old(self).contains_id(id)
                    &&& !final(self).contains_id(id)
                    &&& exists|i: int|
                        0 <= i < old(self).entries@.len() && old(self).entries@[i].id() == id
                            && final(self).entries@ == #[trigger] old(self).entries@.remove(i)
                },
                Err(e) => {
                    &&& e == CustomError::AdminNotFound
                    &&& !old(self).contains_id(id)
                    &&& final(self).entries@ == old(self).entries@
                },
            },
    {
        match self.find_admin(id) {
            Some(i) => {
                self.entries.remove(i);
                proof {
                    let prev = old(self).entries@;
                    assert(self.entries@ == prev.remove(i as int));
                    assert forall|p: int, q: int|
                        0 <= p < q < self.entries@.len() implies #[trigger] self.entries@[p].id()
                        != #[trigger] self.entries@[q].id() by {
                        assert(self.entries@[p] == if p < i { prev[p] } else { prev[p + 1] });
                        assert(self.entries@[q] == if q < i { prev[q] } else { prev[q + 1] });
                    }
                    assert forall|p: int| 0 <= p < self.entries@.len() implies #[trigger] self.entries@[p].id()
                        != id by {
                        assert(self.entries@[p] == if p < i { prev[p] } else { prev[p + 1] });
                    }
                }
                Ok(())
            },
            None => Err(CustomError::AdminNotFound),
        }
    }
}

/// The platform-wide admin registry: bare identifiers under the one bounded
/// registry algorithm.
pub type PlatformAdmins = AdminList<Pubkey>;

/// Whether `key` is the injected root authority.
///
/// The root authority is configuration handed in by the host, never a
/// built-in constant.
pub fn is_super_root_admin(key: &Pubkey, super_admin_pubkey: &Pubkey) -> (r: bool)
    ensures
        r == (key == super_admin_pubkey),
{
    key.value == super_admin_pubkey.value
}

/// Whether the presented root credentials match the configured ones.
pub fn check_root_password(
    username: &String,
    password: &String,
    admin_username: &String,
    admin_password: &String,
) -> (r: bool)
    ensures
        r == (username@ == admin_username@ && password@ == admin_password@),
{
    *username == *admin_username && *password == *admin_password
}

/// Adds `new_admin` to the platform registry, gated on the injected root
/// authority and credentials; the root may not enrol itself.
pub fn add_platform_admin(
    platform_admins: &mut PlatformAdmins,
    signer: Pubkey,
    super_admin_pubkey: Pubkey,
    new_admin: Pubkey,
    username: &String,
    password: &String,
    admin_username: &String,
    admin_password: &String,
) -> (r: Result<(), CustomError>)
    requires
        old(platform_admins).wf(),
    ensures
        final(platform_admins).wf(),
        ({
            let authorized = signer == super_admin_pubkey && username@ == admin_username@
                && password@ == admin_password@ && signer != new_admin;
            match r {
                Ok(()) => {
                    &&& authorized
                    &&& old(platform_admins).entries@.len() < MAX_ADMINS
                    &&& !old(platform_admins).contains_id(new_admin)
                    &&& final(platform_admins).entries@ == old(platform_admins).entries@.push(new_admin)
                },
                Err(e) => {
                    &&& final(platform_admins).entries@ == old(platform_admins).entries@
                    &&& (e == CustomError::Unauthorized || e == CustomError::TooManyAdmins || e
                        == CustomError::AdminAlreadyExists)
                    &&& (e == CustomError::Unauthorized <==> !authorized)
                    &&& (e == CustomError::TooManyAdmins <==> authorized
                        && old(platform_admins).entries@.len() == MAX_ADMINS)
                    &&& (e == CustomError::AdminAlreadyExists <==> authorized
                        && old(platform_admins).entries@.len() < MAX_ADMINS
                        && old(platform_admins).contains_id(new_admin))
                },
            }
        }),
{
    if !is_super_root_admin(&signer, &super_admin_pubkey) {
        return Err(CustomError::Unauthorized);
    }
    if !check_root_password(username, password, admin_username, admin_password) {
        return Err(CustomError::Unauthorized);
    }
    if signer == new_admin {
        return Err(CustomError::Unauthorized);
    }
    platform_admins.add_admin(new_admin)
}

/// Removes `admin_pubkey` from the platform registry, under the same gate as
/// [`add_platform_admin`]; the root may not remove itself.
pub fn remove_platform_admin(
    platform_admins: &mut PlatformAdmins,
    signer: Pubkey,
    super_admin_pubkey: Pubkey,
    admin_pubkey: Pubkey,
    username: &String,
    password: &String,
    admin_username: &String,
    admin_password: &String,
) -> (r: Result<(), CustomError>)
    requires
        old(platform_admins).wf(),
    ensures
        final(platform_admins).wf(),
        ({
            let authorized = signer == super_admin_pubkey && username@ == admin_username@
                && password@ == admin_password@ && signer != admin_pubkey;
            match r {
                Ok(()) => {
                    &&& authorized
                    &&& old(platform_admins).contains_id(admin_pubkey)
                    &&& !final(platform_admins).contains_id(admin_pubkey)
                    &&& exists|i: int|
                        0 <= i < old(platform_admins).entries@.len()
                            && old(platform_admins).entries@[i].id() == admin_pubkey
                            && final(platform_admins).entries@ == #[trigger] old(
                            platform_admins,
                        ).entries@.remove(i)
                },
                Err(e) => {
                    &&& final(platform_admins).entries@ == old(platform_admins).entries@
                    &&& (e == CustomError::Unauthorized || e == CustomError::AdminNotFound)
                    &&& (e == CustomError::Unauthorized <==> !authorized)
                    &&& (e == CustomError::AdminNotFound <==> authorized && !old(
                        platform_admins,
                    ).contains_id(admin_pubkey))
                },
            }
        }),
{
    if !is_super_root_admin(&signer, &super_admin_pubkey) {
        return Err(CustomError::Unauthorized);
    }
    if !check_root_password(username, password, admin_username, admin_password) {
        return Err(CustomError::Unauthorized);
    }
    if signer == admin_pubkey {
        return Err(CustomError::Unauthorized);
    }
    platform_admins.remove_admin(admin_pubkey)
}

} // verus!
