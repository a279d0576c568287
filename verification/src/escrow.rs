//! The per-store escrow ledger.
//!
//! An escrow balance is credited only by cart settlement and debited only by
//! a release to the store owner or a refund to the payer.  It never goes
//! negative: a debit beyond the balance aborts with no change.  The actual
//! movement of funds is the hosting environment's ledger call; this module
//! keeps the balance bookkeeping that the movement must mirror.

use vstd::prelude::*;

use crate::error::CustomError;
use crate::store::Store;
use crate::types::Pubkey;

verus! {

/// A store's escrow record: the funds held for it between settlement and
/// release or refund.
pub struct Escrow {
    pub store: Pubkey,
    pub balance: u64,
}

/// Whether two store records agree on everything but the revenue counter.
pub open spec fn same_store_except_revenue(a: Store, b: Store) -> bool {
    &&& b.owner == a.owner
    &&& b.name@ == a.name@
    &&& b.description@ == a.description@
    &&& b.logo_uri@ == a.logo_uri@
    &&& b.loyalty_config == a.loyalty_config
    &&& b.is_active == a.is_active
    &&& b.admin_roles.entries@ == a.admin_roles.entries@
}

/// Releases `amount` from the escrow to the store owner: the balance is
/// debited by exactly `amount` and the store's accrued-revenue counter is
/// credited by the same amount.  A debit beyond the balance, or a revenue
/// counter that would overflow, aborts with no change.
///
/// Owner authorization is the hosting environment's concern; the
/// balance/amount invariant is enforced here.
pub fn release_escrow(store: &mut Store, escrow: &mut Escrow, amount: u64) -> (r: Result<
    (),
    CustomError,
>)
    ensures
        final(escrow).store == old(escrow).store,
        same_store_except_revenue(*old(store), *final(store)),
        match r {
            Ok(()) => {
                &&& old(escrow).balance >= amount
                &&& old(store).revenue + amount <= u64::MAX
                &&& final(escrow).balance == old(escrow).balance - amount
                &&& final(store).revenue == old(store).revenue + amount
            },
            Err(e) => {
                &&& final(escrow).balance == old(escrow).balance
                &&& final(store).revenue == old(store).revenue
                &&& (e == CustomError::InsufficientEscrowBalance || e
                    == CustomError::ArithmeticError)
                &&& (e == CustomError::InsufficientEscrowBalance <==> old(escrow).balance < amount)
                &&& (e == CustomError::ArithmeticError <==> old(escrow).balance >= amount && old(
                    store,
                ).revenue + amount > u64::MAX)
            },
        },
{
    if escrow.balance < amount {
        return Err(CustomError::InsufficientEscrowBalance);
    }
    let new_revenue = match store.revenue.checked_add(amount) {
        Some(v) => v,
        None => {
            return Err(CustomError::ArithmeticError);
        },
    };
    escrow.balance = escrow.balance - amount;
    store.revenue = new_revenue;
    Ok(())
}

/// Refunds `amount` from the escrow to the original payer: the balance is
/// debited by exactly `amount`; no revenue is accrued.  A debit beyond the
/// balance aborts with no change.
pub fn refund_from_escrow(escrow: &mut Escrow, amount: u64) -> (r: Result<(), CustomError>)
    ensures
        final(escrow).store == old(escrow).store,
        match r {
            Ok(()) => {
                &&& old(escrow).balance >= amount
                &&& final(escrow).balance == old(escrow).balance - amount
            },
            Err(e) => {
                &&& final(escrow).balance == old(escrow).balance
                &&& e == CustomError::InsufficientEscrowBalance
                &&& old(escrow).balance < amount
            },
        },
{
    if escrow.balance < amount {
        return Err(CustomError::InsufficientEscrowBalance);
    }
    escrow.balance = escrow.balance - amount;
    Ok(())
}

} // verus!
