//! A greeting registry for the Soroban smart-contract platform.
//!
//! The registry counts greetings, in total and per user, remembers each user's
//! last greeting, and lets one administrator reset the total, change the
//! length limit for greetings and hand the role over.
//!
//! - `contract` holds the operations, each with a contract that says what it
//!   answers and what it does to the records.
//! - `registry` is the mathematics behind those contracts: the records as
//!   maps, and what each operation makes of them.
//! - `laws` proves what holds across operations.
//! - `host` is the boundary to the Soroban host, which keeps the records. What
//!   it says of the host is believed; all else is proved from it.
//! - `identity`, `keys`, `text` and `error` hold the small types around these.
pub mod contract;
pub mod error;
pub mod host;
pub mod identity;
pub mod keys;
pub mod laws;
pub mod registry;
pub mod text;

pub use contract::HelloContract;
pub use error::Error;
pub use identity::Identity;
pub use keys::DataKey;
