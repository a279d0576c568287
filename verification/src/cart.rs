//! Cart settlement: pricing a multi-item cart, moving its total into
//! escrow, decrementing stock, and writing the receipt.
//!
//! Validation runs to completion before any record is touched, so a
//! settlement either commits every write — escrow credit, one stock
//! decrement per line, the receipt — or none of them.  The hosting
//! environment fetches one product record per cart line, performs the
//! actual fund transfer of the computed total, and supplies the clock
//! reading for the receipt.

use vstd::prelude::*;

use crate::error::CustomError;
use crate::escrow::Escrow;
use crate::product::Product;
use crate::types::{ProductUuid, Pubkey, TransactionStatus};

verus! {

/// The most lines a cart, and so a receipt, may hold.
pub const MAX_CART_ITEMS: usize = 10;

/// The immutable receipt written by a completed settlement.
pub struct Purchase {
    pub product_uuids: Vec<ProductUuid>,
    pub quantities: Vec<u64>,
    pub total_paid: u64,
    pub gas_fee: u64,
    pub status: TransactionStatus,
    pub store: Pubkey,
    pub buyer: Pubkey,
    pub timestamp: i64,
}

impl Purchase {
    /// Checks that the receipt's item lists are within capacity and agree in
    /// length.
    pub fn validate_products(&self) -> (r: Result<(), CustomError>)
        ensures
            match r {
                Ok(()) => self.product_uuids@.len() <= MAX_CART_ITEMS && self.product_uuids@.len()
                    == self.quantities@.len(),
                Err(e) => {
                    &&& (e == CustomError::TooManyProducts || e == CustomError::InvalidCart)
                    &&& (e == CustomError::TooManyProducts <==> self.product_uuids@.len()
                        > MAX_CART_ITEMS)
                    &&& (e == CustomError::InvalidCart <==> self.product_uuids@.len()
                        <= MAX_CART_ITEMS && self.product_uuids@.len() != self.quantities@.len())
                },
            },
    {
        if self.product_uuids.len() > MAX_CART_ITEMS {
            return Err(CustomError::TooManyProducts);
        }
        if self.product_uuids.len() != self.quantities.len() {
            return Err(CustomError::InvalidCart);
        }
        Ok(())
    }
}

impl Default for Purchase {
    /// An empty, pending receipt.
    fn default() -> (r: Purchase)
        ensures
            r.product_uuids@.len() == 0,
            r.quantities@.len() == 0,
            r.total_paid == 0,
            r.gas_fee == 0,
            r.status == TransactionStatus::Pending,
            r.store.value == 0,
            r.buyer.value == 0,
            r.timestamp == 0,
    {
        Purchase {
            product_uuids: Vec::new(),
            quantities: Vec::new(),
            total_paid: 0,
            gas_fee: 0,
            status: TransactionStatus::Pending,
            store: Pubkey { value: 0 },
            buyer: Pubkey { value: 0 },
            timestamp: 0,
        }
    }
}

/// Walks the cart lines in order, accumulating the checked total price.
///
/// The first failing line decides the error: a record that does not match
/// the requested identifier, is inactive, or belongs to another store is
/// `ProductNotFound`; short stock is `InsufficientStock`; an overflowing
/// price multiplication or total addition is `ArithmeticError`.  With no
/// failing line the result is the exact cart total.
pub open spec fn check_cart(
    store_id: Pubkey,
    products: Seq<Product>,
    uuids: Seq<ProductUuid>,
    qtys: Seq<u64>,
    acc: int,
) -> Result<int, CustomError>
    decreases products.len(),
{
    if products.len() == 0 {
        Ok(acc)
    } else {
        let p = products[0];
        let q = qtys[0];
        if p.uuid != uuids[0] || !p.is_active || p.store != store_id {
            Err(CustomError::ProductNotFound)
        } else if p.stock < q {
            Err(CustomError::InsufficientStock)
        } else if p.price * q > u64::MAX {
            Err(CustomError::ArithmeticError)
        } else if acc + p.price * q > u64::MAX {
            Err(CustomError::ArithmeticError)
        } else {
            check_cart(store_id, products.skip(1), uuids.skip(1), qtys.skip(1), acc + p.price * q)
        }
    }
}

/// Why a settlement request is rejected, or `None` when it must succeed:
/// first the cart's shape, then the lines in order, then the payment.
pub open spec fn cart_failure(
    store_id: Pubkey,
    products: Seq<Product>,
    uuids: Seq<ProductUuid>,
    qtys: Seq<u64>,
    total_amount_paid: u64,
) -> Option<CustomError> {
    if uuids.len() != qtys.len() || uuids.len() == 0 {
        Some(CustomError::InvalidCart)
    } else if uuids.len() > MAX_CART_ITEMS {
        Some(CustomError::TooManyProducts)
    } else {
        match check_cart(store_id, products, uuids, qtys, 0) {
            Err(e) => Some(e),
            Ok(total) => if (total_amount_paid as int) < total {
                Some(CustomError::InsufficientPayment)
            } else {
                None
            },
        }
    }
}

/// A successfully checked cart is valid line by line: every record matches,
/// is active, belongs to the store, covers its quantity, and prices fit.
pub proof fn lemma_check_cart_ok(
    store_id: Pubkey,
    products: Seq<Product>,
    uuids: Seq<ProductUuid>,
    qtys: Seq<u64>,
    acc: int,
)
    requires
        products.len() == uuids.len(),
        products.len() == qtys.len(),
        check_cart(store_id, products, uuids, qtys, acc) is Ok,
    ensures
        forall|i: int|
            0 <= i < products.len() ==> {
                &&& (#[trigger] products[i]).uuid == uuids[i]
                &&& products[i].is_active
                &&& products[i].store == store_id
                &&& products[i].stock >= qtys[i]
                &&& products[i].price * qtys[i] <= u64::MAX
            },
    decreases products.len(),
{
    if products.len() > 0 {
        let p = products[0];
        let q = qtys[0];
        lemma_check_cart_ok(
            store_id,
            products.skip(1),
            uuids.skip(1),
            qtys.skip(1),
            acc + p.price * q,
        );
        assert forall|i: int|
            0 <= i < products.len() implies {
            &&& (#[trigger] products[i]).uuid == uuids[i]
            &&& products[i].is_active
            &&& products[i].store == store_id
            &&& products[i].stock >= qtys[i]
            &&& products[i].price * qtys[i] <= u64::MAX
        } by {
            if i > 0 {
                assert(products[i] == products.skip(1)[i - 1]);
                assert(uuids[i] == uuids.skip(1)[i - 1]);
                assert(qtys[i] == qtys.skip(1)[i - 1]);
            }
        }
    }
}

/// Validates the cart against the fetched records and the tendered amount,
/// returning the exact total price the settlement will move.
pub fn validate_cart_and_payment(
    store_id: Pubkey,
    products: &Vec<Product>,
    product_uuids: &Vec<ProductUuid>,
    quantities: &Vec<u64>,
    total_amount_paid: u64,
) -> (r: Result<u64, CustomError>)
    requires
        products@.len() == product_uuids@.len(),
    ensures
        match r {
            Ok(total) => {
                &&& cart_failure(store_id, products@, product_uuids@, quantities@,
                total_amount_paid) is None
                &&& check_cart(store_id, products@, product_uuids@, quantities@, 0) == Ok::<
                    int,
                    CustomError,
                >(total as int)
                &&& total_amount_paid >= total
            },
            Err(e) => cart_failure(store_id, products@, product_uuids@, quantities@,
            total_amount_paid) == Some(e),
        },
{
    let n = product_uuids.len();
    if n != quantities.len() || n == 0 {
        return Err(CustomError::InvalidCart);
    }
    if n > MAX_CART_ITEMS {
        return Err(CustomError::TooManyProducts);
    }
    let mut total: u64 = 0;
    let mut i: usize = 0;
    proof {
        assert(products@.skip(0) =~= products@);
        assert(product_uuids@.skip(0) =~= product_uuids@);
        assert(quantities@.skip(0) =~= quantities@);
    }
    while i < n
        invariant
            n == product_uuids@.len(),
            n == quantities@.len(),
            n == products@.len(),
            0 < n <= MAX_CART_ITEMS,
            i <= n,
            check_cart(store_id, products@, product_uuids@, quantities@, 0) == check_cart(
                store_id,
                products@.skip(i as int),
                product_uuids@.skip(i as int),
                quantities@.skip(i as int),
                total as int,
            ),
        decreases n - i,
    {
        let ghost ps = products@.skip(i as int);
        let ghost us = product_uuids@.skip(i as int);
        let ghost qs = quantities@.skip(i as int);
        proof {
            assert(ps[0] == products@[i as int]);
            assert(us[0] == product_uuids@[i as int]);
            assert(qs[0] == quantities@[i as int]);
            assert(ps.skip(1) =~= products@.skip(i + 1));
            assert(us.skip(1) =~= product_uuids@.skip(i + 1));
            assert(qs.skip(1) =~= quantities@.skip(i + 1));
        }
        let p = &products[i];
        let q = quantities[i];
        if p.uuid != product_uuids[i] || !p.is_active || p.store != store_id {
            proof {
                assert(check_cart(store_id, ps, us, qs, total as int) == Err::<int, CustomError>(
                    CustomError::ProductNotFound,
                ));
            }
            return Err(CustomError::ProductNotFound);
        }
        if p.stock < q {
            proof {
                assert(check_cart(store_id, ps, us, qs, total as int) == Err::<int, CustomError>(
                    CustomError::InsufficientStock,
                ));
            }
            return Err(CustomError::InsufficientStock);
        }
        let item_total = match p.price.checked_mul(q) {
            Some(v) => v,
            None => {
                proof {
                    assert(check_cart(store_id, ps, us, qs, total as int) == Err::<
                        int,
                        CustomError,
                    >(CustomError::ArithmeticError));
                }
                return Err(CustomError::ArithmeticError);
            },
        };
        total = match total.checked_add(item_total) {
            Some(v) => v,
            None => {
                proof {
                    assert(check_cart(store_id, ps, us, qs, total as int) == Err::<
                        int,
                        CustomError,
                    >(CustomError::ArithmeticError));
                }
                return Err(CustomError::ArithmeticError);
            },
        };
        proof {
            assert(check_cart(store_id, ps, us, qs, (total - item_total) as int) == check_cart(
                store_id,
                products@.skip(i + 1),
                product_uuids@.skip(i + 1),
                quantities@.skip(i + 1),
                total as int,
            ));
        }
        i = i + 1;
    }
    proof {
        assert(products@.skip(n as int).len() == 0);
    }
    if total_amount_paid < total {
        return Err(CustomError::InsufficientPayment);
    }
    Ok(total)
}

/// A product record after a settlement line: the same record with its stock
/// lowered by exactly the line's quantity.
pub open spec fn stock_decremented(before: Product, after: Product, qty: u64) -> bool {
    &&& after.uuid == before.uuid
    &&& after.price == before.price
    &&& after.stock == before.stock - qty
    &&& after.tokenized_type == before.tokenized_type
    &&& after.is_active == before.is_active
    &&& after.metadata_uri == before.metadata_uri
    &&& after.store == before.store
    &&& after.authority == before.authority
}

/// Settles a cart: validates every line and the payment in full, then — and
/// only then — credits the escrow with the computed total, decrements each
/// line's stock by its quantity, and returns the completed receipt.  The
/// hosting environment must mirror the escrow credit by actually moving
/// `total_paid` from the buyer.  Any rejection leaves every record
/// untouched.
pub fn purchase_cart(
    store_id: Pubkey,
    products: &mut Vec<Product>,
    escrow: &mut Escrow,
    product_uuids: Vec<ProductUuid>,
    quantities: Vec<u64>,
    total_amount_paid: u64,
    gas_fee: u64,
    buyer: Pubkey,
    timestamp: i64,
) -> (r: Result<Purchase, CustomError>)
    requires
        old(products)@.len() == product_uuids@.len(),
    ensures
        match r {
            Ok(receipt) => {
                &&& cart_failure(store_id, old(products)@, product_uuids@, quantities@,
                total_amount_paid) is None
                &&& check_cart(store_id, old(products)@, product_uuids@, quantities@, 0) == Ok::<
                    int,
                    CustomError,
                >(receipt.total_paid as int)
                &&& total_amount_paid >= receipt.total_paid
                &&& old(escrow).balance + receipt.total_paid <= u64::MAX
                &&& final(escrow).balance == old(escrow).balance + receipt.total_paid
                &&& final(escrow).store == store_id
                &&& final(products)@.len() == old(products)@.len()
                &&& forall|i: int|
                    0 <= i < old(products)@.len() ==> stock_decremented(
                        old(products)@[i],
                        #[trigger] final(products)@[i],
                        quantities@[i],
                    )
                &&& receipt.product_uuids@ == product_uuids@
                &&& receipt.quantities@ == quantities@
                &&& receipt.gas_fee == gas_fee
                &&& receipt.status == TransactionStatus::Completed
                &&& receipt.store == store_id
                &&& receipt.buyer == buyer
                &&& receipt.timestamp == timestamp
            },
            Err(e) => {
                &&& final(products)@ == old(products)@
                &&& final(escrow).store == old(escrow).store
                &&& final(escrow).balance == old(escrow).balance
                &&& match cart_failure(store_id, old(products)@, product_uuids@, quantities@,
                total_amount_paid) {
                    Some(f) => e == f,
                    None => e == CustomError::ArithmeticError && (match check_cart(
                        store_id,
                        old(products)@,
                        product_uuids@,
                        quantities@,
                        0,
                    ) {
                        Ok(total) => old(escrow).balance + total > u64::MAX,
                        Err(_) => false,
                    }),
                }
            },
        },
{
    let total = match validate_cart_and_payment(
        store_id,
        products,
        &product_uuids,
        &quantities,
        total_amount_paid,
    ) {
        Ok(t) => t,
        Err(e) => {
            return Err(e);
        },
    };
    let new_balance = match escrow.balance.checked_add(total) {
        Some(v) => v,
        None => {
            return Err(CustomError::ArithmeticError);
        },
    };
    proof {
        lemma_check_cart_ok(store_id, products@, product_uuids@, quantities@, 0);
    }
    escrow.store = store_id;
    escrow.balance = new_balance;
    let n = product_uuids.len();
    let mut i: usize = 0;
    while i < n
        invariant
            n == quantities@.len(),
            n == products@.len(),
            i <= n,
            forall|j: int|
                0 <= j < i ==> stock_decremented(
                    old(products)@[j],
                    #[trigger] products@[j],
                    quantities@[j],
                ),
            forall|j: int| i <= j < n ==> #[trigger] products@[j] == old(products)@[j],
            forall|j: int|
                0 <= j < n ==> (#[trigger] old(products)@[j]).stock >= quantities@[j],
        decreases n - i,
    {
        let ghost pre = products@;
        let q = quantities[i];
        let mut p = products.remove(i);
        match p.stock.checked_sub(q) {
            Some(s) => {
                p.stock = s;
            },
            None => {
                // Unreachable: validation has already established stock
                // sufficiency for every line; kept as a checked abort, never
                // a panic.
                return Err(CustomError::StockUnderflow);
            },
        }
        products.insert(i, p);
        proof {
            assert(products@ == pre.remove(i as int).insert(i as int, p));
            assert forall|j: int| 0 <= j < n && j != i implies #[trigger] products@[j] == pre[j] by {
                if j < i {
                    assert(pre.remove(i as int)[j] == pre[j]);
                } else {
                    assert(pre.remove(i as int)[j - 1] == pre[j]);
                }
            }
            assert(products@[i as int] == p);
        }
        i = i + 1;
    }
    Ok(
        Purchase {
            product_uuids,
            quantities,
            total_paid: total,
            gas_fee,
            status: TransactionStatus::Completed,
            store: store_id,
            buyer,
            timestamp,
        },
    )
}

} // verus!
