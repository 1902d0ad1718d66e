//! Plans derived from metadata requests: permissions, queries, writes, deletes and schemas.

pub mod permission;
pub mod query;
pub mod schema;
pub mod write;

pub use permission::PermissionPlan;
pub use query::{ProjectionPlan, QueryPlan, RelationPlan, SortPlan};
pub use schema::{MetadataRuntimeModel, SchemaPlan};
pub use write::{DeletePlan, WriteAssignmentPlan, WritePlan, WriteValuePlan};
