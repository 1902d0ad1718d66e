//! Metadata-driven SQL building: dialect-aware query and DDL builders,
//! metadata requests and plans, and the portal column provider.

pub mod text;
pub mod value;
pub mod wildcard;
pub mod engine;
pub mod sql;
pub mod metadata;
pub mod metadata_plan;
pub mod metadata_mapping;
pub mod portal_provider;
pub mod metadata_driver;
pub mod portal_provider_adapter;
pub mod metadata_demo;
pub mod execution;
