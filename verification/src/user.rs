//! User profile records: user-id and delivery-address text, a preferred
//! store, and a purchase counter.
//!
//! Text lengths are counted in characters, and oversized text is rejected —
//! never truncated.

use vstd::prelude::*;
use vstd::string::StrSliceExecFns;

use crate::error::CustomError;
use crate::types::{ProductUuid, Pubkey};

verus! {

/// The most characters a user id may hold.
pub const MAX_USER_ID_LEN: usize = 32;

/// The most characters a delivery address may hold.
pub const MAX_DELIVERY_ADDRESS_LEN: usize = 128;

/// A user's persistent profile record.
pub struct UserProfile {
    pub authority: Pubkey,
    pub user_id: String,
    pub delivery_address: String,
    pub preferred_store: Option<Pubkey>,
    pub total_purchases: u64,
}

impl UserProfile {
    /// The profile invariant: both text fields are within bounds.
    pub open spec fn wf(&self) -> bool {
        &&& self.user_id@.len() <= MAX_USER_ID_LEN
        &&& self.delivery_address@.len() <= MAX_DELIVERY_ADDRESS_LEN
    }

    /// Checks that both text fields are within bounds.
    pub fn validate(&self) -> (r: Result<(), CustomError>)
        ensures
            match r {
                Ok(()) => self.wf(),
                Err(e) => e == CustomError::StringTooLong && !self.wf(),
            },
    {
        if self.user_id.as_str().unicode_len() > MAX_USER_ID_LEN {
            return Err(CustomError::StringTooLong);
        }
        if self.delivery_address.as_str().unicode_len() > MAX_DELIVERY_ADDRESS_LEN {
            return Err(CustomError::StringTooLong);
        }
        Ok(())
    }

    /// Returns a copy of the user id.
    pub fn get_user_id(&self) -> (r: String)
        ensures
            r@ == self.user_id@,
    {
        self.user_id.clone()
    }

    /// Returns a copy of the delivery address.
    pub fn get_delivery_address(&self) -> (r: String)
        ensures
            r@ == self.delivery_address@,
    {
        self.delivery_address.clone()
    }

    /// Replaces the user id, rejecting oversized text.
    pub fn set_user_id(&mut self, user_id: &str) -> (r: Result<(), CustomError>)
        ensures
            final(self).authority == old(self).authority,
            final(self).delivery_address@ == old(self).delivery_address@,
            final(self).preferred_store == old(self).preferred_store,
            final(self).total_purchases == old(self).total_purchases,
            match r {
                Ok(()) => user_id@.len() <= MAX_USER_ID_LEN && final(self).user_id@ == user_id@,
                Err(e) => {
                    &&& e == CustomError::StringTooLong
                    &&& user_id@.len() > MAX_USER_ID_LEN
                    &&& final(self).user_id@ == old(self).user_id@
                },
            },
    {
        if user_id.unicode_len() > MAX_USER_ID_LEN {
            return Err(CustomError::StringTooLong);
        }
        self.user_id = user_id.to_owned();
        Ok(())
    }

    /// Replaces the delivery address, rejecting oversized text.
    pub fn set_delivery_address(&mut self, address: &str) -> (r: Result<(), CustomError>)
        ensures
            final(self).authority == old(self).authority,
            final(self).user_id@ == old(self).user_id@,
            final(self).preferred_store == old(self).preferred_store,
            final(self).total_purchases == old(self).total_purchases,
            match r {
                Ok(()) => address@.len() <= MAX_DELIVERY_ADDRESS_LEN
                    && final(self).delivery_address@ == address@,
                Err(e) => {
                    &&& e == CustomError::StringTooLong
                    &&& address@.len() > MAX_DELIVERY_ADDRESS_LEN
                    &&& final(self).delivery_address@ == old(self).delivery_address@
                },
            },
    {
        if address.unicode_len() > MAX_DELIVERY_ADDRESS_LEN {
            return Err(CustomError::StringTooLong);
        }
        self.delivery_address = address.to_owned();
        Ok(())
    }
}

impl Default for UserProfile {
    /// An empty profile with no authority bound yet.
    fn default() -> (r: UserProfile)
        ensures
            r.authority.value == 0,
            r.user_id@.len() == 0,
            r.delivery_address@.len() == 0,
            r.preferred_store is None,
            r.total_purchases == 0,
            r.wf(),
    {
        UserProfile {
            authority: Pubkey { value: 0 },
            user_id: String::new(),
            delivery_address: String::new(),
            preferred_store: None,
            total_purchases: 0,
        }
    }
}

/// Creates a fresh wallet profile bound to `authority`, with empty text
/// fields, no preferred store and no purchases.
pub fn create_user_wallet(authority: Pubkey) -> (r: UserProfile)
    ensures
        r.authority == authority,
        r.user_id@.len() == 0,
        r.delivery_address@.len() == 0,
        r.preferred_store is None,
        r.total_purchases == 0,
        r.wf(),
{
    UserProfile {
        authority,
        user_id: String::new(),
        delivery_address: String::new(),
        preferred_store: None,
        total_purchases: 0,
    }
}

/// Binds the profile to `authority` and updates any of user id, delivery
/// address and preferred store; oversized text aborts the whole update.
pub fn create_or_update_user_profile(
    user_profile: &mut UserProfile,
    authority: Pubkey,
    user_id: Option<String>,
    delivery_address: Option<String>,
    preferred_store: Option<Pubkey>,
) -> (r: Result<(), CustomError>)
    ensures
        final(user_profile).total_purchases == old(user_profile).total_purchases,
        match r {
            Ok(()) => {
                &&& (user_id is Some ==> user_id->0@.len() <= MAX_USER_ID_LEN)
                &&& (delivery_address is Some ==> delivery_address->0@.len()
                    <= MAX_DELIVERY_ADDRESS_LEN)
                &&& final(user_profile).authority == authority
                &&& final(user_profile).user_id@ == (if user_id is Some {
                    user_id->0@
                } else {
                    old(user_profile).user_id@
                })
                &&& final(user_profile).delivery_address@ == (if delivery_address is Some {
                    delivery_address->0@
                } else {
                    old(user_profile).delivery_address@
                })
                &&& final(user_profile).preferred_store == (if preferred_store is Some {
                    preferred_store
                } else {
                    old(user_profile).preferred_store
                })
            },
            Err(e) => {
                &&& e == CustomError::StringTooLong
                &&& ((user_id is Some && user_id->0@.len() > MAX_USER_ID_LEN) || (delivery_address
                    is Some && delivery_address->0@.len() > MAX_DELIVERY_ADDRESS_LEN))
                &&& final(user_profile).authority == old(user_profile).authority
                &&& final(user_profile).user_id@ == old(user_profile).user_id@
                &&& final(user_profile).delivery_address@ == old(user_profile).delivery_address@
                &&& final(user_profile).preferred_store == old(user_profile).preferred_store
            },
        },
{
    if let Some(user_id) = &user_id {
        if user_id.as_str().unicode_len() > MAX_USER_ID_LEN {
            return Err(CustomError::StringTooLong);
        }
    }
    if let Some(delivery_address) = &delivery_address {
        if delivery_address.as_str().unicode_len() > MAX_DELIVERY_ADDRESS_LEN {
            return Err(CustomError::StringTooLong);
        }
    }
    user_profile.authority = authority;
    if let Some(user_id) = user_id {
        user_profile.user_id = user_id;
    }
    if let Some(delivery_address) = delivery_address {
        user_profile.delivery_address = delivery_address;
    }
    if let Some(preferred_store) = preferred_store {
        user_profile.preferred_store = Some(preferred_store);
    }
    Ok(())
}

/// Records one more purchase on the profile after a well-formed scan: the
/// cart's identifier and quantity lists must agree in length, and the
/// counter must not overflow.
pub fn scan_and_purchase(
    user_profile: &mut UserProfile,
    product_uuids: &Vec<ProductUuid>,
    quantities: &Vec<u64>,
) -> (r: Result<(), CustomError>)
    ensures
        final(user_profile).authority == old(user_profile).authority,
        final(user_profile).user_id@ == old(user_profile).user_id@,
        final(user_profile).delivery_address@ == old(user_profile).delivery_address@,
        final(user_profile).preferred_store == old(user_profile).preferred_store,
        match r {
            Ok(()) => {
                &&& product_uuids@.len() == quantities@.len()
                &&& old(user_profile).total_purchases < u64::MAX
                &&& final(user_profile).total_purchases == old(user_profile).total_purchases + 1
            },
            Err(e) => {
                &&& final(user_profile).total_purchases == old(user_profile).total_purchases
                &&& (e == CustomError::InvalidCart || e == CustomError::ArithmeticError)
                &&& (e == CustomError::InvalidCart <==> product_uuids@.len() != quantities@.len())
                &&& (e == CustomError::ArithmeticError <==> product_uuids@.len()
                    == quantities@.len() && old(user_profile).total_purchases == u64::MAX)
            },
        },
{
    if product_uuids.len() != quantities.len() {
        return Err(CustomError::InvalidCart);
    }
    match user_profile.total_purchases.checked_add(1) {
        Some(n) => {
            user_profile.total_purchases = n;
            Ok(())
        },
        None => Err(CustomError::ArithmeticError),
    }
}

} // verus!
