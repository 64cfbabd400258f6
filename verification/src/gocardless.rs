//! The provider that is linked by consent: the linking handshake and the
//! incremental synchronisation of accounts, balances and transactions.

pub mod accounts;
pub mod buckets;
pub mod config;
pub mod connect;
pub mod files;
pub mod institutions;
pub mod sync;
pub mod transactions;
