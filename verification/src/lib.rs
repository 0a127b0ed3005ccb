//! Account-state core of a small ledger: a bounded-memory replay-protection
//! window for per-account transaction nonces, and the balance bookkeeping
//! built on top of it.

pub mod account;
pub mod nonce_pool;

pub use account::Account;
pub use account::AccountError;
pub use account::AccountModel;
pub use nonce_pool::NoncePool;
pub use nonce_pool::PoolModel;
