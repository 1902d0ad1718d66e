//! The portal provider: SQL clauses from portal column descriptions.

pub mod helpers;
pub mod model;
pub mod provider;
pub mod types;

pub use helpers::{ordinal_index_of, push_unique, sanitize_filter_value};
pub use types::{Column, Dk, Id, Obtainmanner, PortalProviderOption, RefTable, Select};
pub use provider::PortalProvider;
