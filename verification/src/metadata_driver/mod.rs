//! The metadata SQL driver: SQL statements from metadata requests.

pub mod context;
pub mod driver;
pub mod filters;
pub mod helpers;

pub use driver::MetadataSqlDriver;
