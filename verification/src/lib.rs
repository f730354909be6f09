//! Data-access layer for per-vessel equipment inventory records.
//!
//! The records of a vessel are kept in a table of a key-value store, each under a hash
//! key that names customer and vessel and a sort key that names inventory type and
//! identifier. For each operation on them this library says what to ask of the store
//! and what the store's answer means; it does not reach the store itself.

pub mod codec;
pub mod creator;
pub mod deleter;
pub mod error;
pub mod fetcher;
pub mod identifier;
pub mod inventory_dao;
pub mod item;
pub mod key;
pub mod lister;
pub mod model;
pub mod table;
pub mod timestamp;

pub use crate::error::{ApiError, RuntimeError};
pub use crate::identifier::Uuid;
pub use crate::inventory_dao::InventoryDao;
pub use crate::model::{DynamoResultsPage, Inventory};
pub use crate::timestamp::Timestamp;
