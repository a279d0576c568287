//! Product catalog records: price, stock, activity flag and metadata.
//!
//! A product is created by its store's authority; price, stock, metadata and
//! token type stay mutable by that authority, and deactivation only sets a
//! flag — a product is never removed.  Text lengths are counted in
//! characters.

use vstd::prelude::*;
use vstd::string::StrSliceExecFns;

use crate::error::CustomError;
use crate::types::{ProductUuid, Pubkey, TokenizedType};

verus! {

/// The most characters a product's metadata reference may hold.
pub const MAX_METADATA_URI_LEN: usize = 128;

/// A product's persistent record.
pub struct Product {
    pub uuid: ProductUuid,
    pub price: u64,
    pub stock: u64,
    pub tokenized_type: TokenizedType,
    pub is_active: bool,
    pub metadata_uri: String,
    pub store: Pubkey,
    pub authority: Pubkey,
}

impl Product {
    /// The product invariant: its metadata reference is within bounds.
    pub open spec fn wf(&self) -> bool {
        self.metadata_uri@.len() <= MAX_METADATA_URI_LEN
    }

    /// Replaces the metadata reference, rejecting oversized text.
    pub fn set_metadata_uri(&mut self, uri: &str) -> (r: Result<(), CustomError>)
        ensures
            final(self).uuid == old(self).uuid,
            final(self).price == old(self).price,
            final(self).stock == old(self).stock,
            final(self).tokenized_type == old(self).tokenized_type,
            final(self).is_active == old(self).is_active,
            final(self).store == old(self).store,
            final(self).authority == old(self).authority,
            match r {
                Ok(()) => uri@.len() <= MAX_METADATA_URI_LEN && final(self).metadata_uri@ == uri@,
                Err(e) => {
                    &&& e == CustomError::StringTooLong
                    &&& uri@.len() > MAX_METADATA_URI_LEN
                    &&& final(self).metadata_uri@ == old(self).metadata_uri@
                },
            },
    {
        if uri.unicode_len() > MAX_METADATA_URI_LEN {
            return Err(CustomError::StringTooLong);
        }
        self.metadata_uri = uri.to_owned();
        Ok(())
    }

    /// Returns a copy of the metadata reference.
    pub fn get_metadata_uri(&self) -> (r: String)
        ensures
            r@ == self.metadata_uri@,
    {
        self.metadata_uri.clone()
    }
}

impl Default for Product {
    /// An inactive, empty product record.
    fn default() -> (r: Product)
        ensures
            r.uuid.value == 0,
            r.price == 0,
            r.stock == 0,
            r.tokenized_type == TokenizedType::NonTokenized,
            !r.is_active,
            r.metadata_uri@.len() == 0,
            r.store.value == 0,
            r.authority.value == 0,
            r.wf(),
    {
        Product {
            uuid: ProductUuid { value: 0 },
            price: 0,
            stock: 0,
            tokenized_type: TokenizedType::NonTokenized,
            is_active: false,
            metadata_uri: String::new(),
            store: Pubkey { value: 0 },
            authority: Pubkey { value: 0 },
        }
    }
}

/// Creates an active product record for `store`, managed by `authority`,
/// rejecting oversized metadata.
pub fn register_product(
    product_uuid: ProductUuid,
    price: u64,
    stock: u64,
    tokenized_type: TokenizedType,
    metadata_uri: String,
    store: Pubkey,
    authority: Pubkey,
) -> (r: Result<Product, CustomError>)
    ensures
        match r {
            Ok(p) => {
                &&& metadata_uri@.len() <= MAX_METADATA_URI_LEN
                &&& p.uuid == product_uuid
                &&& p.price == price
                &&& p.stock == stock
                &&& p.tokenized_type == tokenized_type
                &&& p.is_active
                &&& p.metadata_uri@ == metadata_uri@
                &&& p.store == store
                &&& p.authority == authority
                &&& p.wf()
            },
            Err(e) => {
                &&& e == CustomError::StringTooLong
                &&& metadata_uri@.len() > MAX_METADATA_URI_LEN
            },
        },
{
    if metadata_uri.as_str().unicode_len() > MAX_METADATA_URI_LEN {
        return Err(CustomError::StringTooLong);
    }
    Ok(
        Product {
            uuid: product_uuid,
            price,
            stock,
            tokenized_type,
            is_active: true,
            metadata_uri,
            store,
            authority,
        },
    )
}

/// Updates a product's mutable fields — price, stock, metadata, token type —
/// under the managing authority; absent options leave the corresponding
/// field unchanged.  An oversized metadata option aborts the whole update.
pub fn update_product(
    product: &mut Product,
    authority: Pubkey,
    new_price: Option<u64>,
    new_stock: Option<u64>,
    new_metadata_uri: Option<String>,
    new_tokenized_type: Option<TokenizedType>,
) -> (r: Result<(), CustomError>)
    ensures
        final(product).uuid == old(product).uuid,
        final(product).is_active == old(product).is_active,
        final(product).store == old(product).store,
        final(product).authority == old(product).authority,
        match r {
            Ok(()) => {
                &&& authority == old(product).authority
                &&& (new_metadata_uri is Some ==> new_metadata_uri->0@.len()
                    <= MAX_METADATA_URI_LEN)
                &&& final(product).price == (if new_price is Some {
                    new_price->0
                } else {
                    old(product).price
                })
                &&& final(product).stock == (if new_stock is Some {
                    new_stock->0
                } else {
                    old(product).stock
                })
                &&& final(product).metadata_uri@ == (if new_metadata_uri is Some {
                    new_metadata_uri->0@
                } else {
                    old(product).metadata_uri@
                })
                &&& final(product).tokenized_type == (if new_tokenized_type is Some {
                    new_tokenized_type->0
                } else {
                    old(product).tokenized_type
                })
            },
            Err(e) => {
                &&& final(product).price == old(product).price
                &&& final(product).stock == old(product).stock
                &&& final(product).metadata_uri@ == old(product).metadata_uri@
                &&& final(product).tokenized_type == old(product).tokenized_type
                &&& (e == CustomError::Unauthorized || e == CustomError::StringTooLong)
                &&& (e == CustomError::Unauthorized <==> authority != old(product).authority)
                &&& (e == CustomError::StringTooLong <==> authority == old(product).authority
                    && new_metadata_uri is Some && new_metadata_uri->0@.len()
                    > MAX_METADATA_URI_LEN)
            },
        },
{
    if authority != product.authority {
        return Err(CustomError::Unauthorized);
    }
    if let Some(uri) = &new_metadata_uri {
        if uri.as_str().unicode_len() > MAX_METADATA_URI_LEN {
            return Err(CustomError::StringTooLong);
        }
    }
    if let Some(price) = new_price {
        product.price = price;
    }
    if let Some(stock) = new_stock {
        product.stock = stock;
    }
    if let Some(uri) = new_metadata_uri {
        product.metadata_uri = uri;
    }
    if let Some(tokenized_type) = new_tokenized_type {
        product.tokenized_type = tokenized_type;
    }
    Ok(())
}

/// Marks a product inactive under the managing authority; the record itself
/// is kept.
pub fn deactivate_product(product: &mut Product, authority: Pubkey) -> (r: Result<
    (),
    CustomError,
>)
    ensures
        final(product).uuid == old(product).uuid,
        final(product).price == old(product).price,
        final(product).stock == old(product).stock,
        final(product).tokenized_type == old(product).tokenized_type,
        final(product).metadata_uri@ == old(product).metadata_uri@,
        final(product).store == old(product).store,
        final(product).authority == old(product).authority,
        match r {
            Ok(()) => authority == old(product).authority && !final(product).is_active,
            Err(e) => {
                &&& e == CustomError::Unauthorized
                &&& authority != old(product).authority
                &&& final(product).is_active == old(product).is_active
            },
        },
{
    if authority != product.authority {
        return Err(CustomError::Unauthorized);
    }
    product.is_active = false;
    Ok(())
}

} // verus!
