//! Mapping the catalog onto rows of the standard metadata tables.

pub mod codes;
pub mod debug_text;
pub mod mapper;
pub mod snapshot;

pub use mapper::MetadataPersistenceMapper;
pub use snapshot::{MetadataPersistenceRow, MetadataPersistenceSnapshot};
