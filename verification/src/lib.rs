//! Wallets, signed value transfers and proof-of-work blocks over
//! interchangeable signature schemes.

pub mod block;
pub mod digest;
pub mod signing;
pub mod text;
pub mod transaction;
pub mod wallet;

pub use block::Block;
pub use transaction::Transaction;
pub use wallet::Wallet;
