//! A connection-manager adapter that lets a generic resource pool manage
//! handles to a JSON-file-backed document store.
//!
//! The manager holds a fixed configuration chosen at construction time: either
//! a filesystem path with store options (single-file or directory mode, pretty
//! printing, indentation), or one shared in-memory store. On request it
//! produces a fresh handle to that one dataset, and it reports every handle as
//! valid and never broken, exactly as the pool contract expects of a store
//! with no health check of its own.

mod manager;
mod store;

pub use manager::lemma_handles_share_dataset;
pub use manager::JfsConnectionManager;
pub use store::dataset_of;
pub use store::in_memory_path;
pub use store::sentinel_prefixed;
pub use store::StoreConfig;
pub use store::Target;
