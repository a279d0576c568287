//! The typed failures of the ledger.
//!
//! Every operation aborts as a whole with one of these values; no partial
//! mutation survives a failure, and no verified function panics.

use vstd::prelude::*;

verus! {

#[derive(Clone, Copy, PartialEq, Eq, Structural, Debug)]
pub enum CustomError {
    /// The admin set already holds its maximum number of entries.
    TooManyAdmins,
    /// The identifier is already a member of the admin set.
    AdminAlreadyExists,
    /// The identifier is not a member of the admin set.
    AdminNotFound,
    /// The caller is not authorized for this operation.
    Unauthorized,
    /// The cart's identifier and quantity lists differ in length, or are empty.
    InvalidCart,
    /// The cart holds more items than a receipt can record.
    TooManyProducts,
    /// A fetched product record does not match the requested item, is
    /// inactive, or belongs to another store.
    ProductNotFound,
    /// A product's stock is below the requested quantity.
    InsufficientStock,
    /// The amount tendered is below the cart's total price.
    InsufficientPayment,
    /// A checked arithmetic operation overflowed.
    ArithmeticError,
    /// A stock decrement would pass below zero.
    StockUnderflow,
    /// The escrow balance is below the requested debit.
    InsufficientEscrowBalance,
    /// The redeemer's token balance is below the points to redeem.
    InsufficientLoyaltyPoints,
    /// The loyalty configuration cannot support the operation (zero
    /// redemption rate).
    InvalidLoyaltyConfig,
    /// A text field exceeds its maximum length.
    StringTooLong,
}

} // verus!
