//! What the execution layer decides before and after it talks to a database: the
//! dialect of a datasource, the statements a plan previews, and the results it reports.

pub mod context;
pub mod error;
pub mod executors;
pub mod helpers;
pub mod results;

pub use context::{ExecutionMode, ExecutionOptions};
pub use error::ExecutionError;
pub use executors::{
    DeletePlanExecutor, MetadataCatalogExecutor, QueryPlanExecutor, SchemaPlanExecutor, WritePlanExecutor,
};
pub use helpers::{build_create_queries, schema_plan_from_tables};
pub use results::{DeleteResult, MetadataCatalogResult, QueryResult, SchemaResult, WriteResult};
