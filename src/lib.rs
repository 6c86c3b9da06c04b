//! A two-account money transfer: accounts keep an append-only ledger of
//! signed entries, and a transfer debits one account and credits another
//! when the source holds enough.

pub mod context;
pub mod data;
