//! A multi-tenant commerce ledger: stores with product catalogs, escrowed
//! payments, bounded administrator registries, and a loyalty-points economy.
//!
//! Every operation is an all-or-nothing transition on plain records: it
//! validates its inputs in full before touching any state, and either commits
//! all of its writes or none of them.  Persistent-record addressing, signer
//! verification, the token ledger (mint/burn/transfer) and the clock are
//! external collaborators: the hosting environment performs them and hands
//! this library plain values.

pub mod admin;
pub mod cart;
pub mod error;
pub mod escrow;
pub mod events;
pub mod loyalty;
pub mod product;
pub mod store;
pub mod types;
pub mod user;
