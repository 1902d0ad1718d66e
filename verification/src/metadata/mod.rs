//! Metadata: field descriptions, filters, query requests, table schemas and the catalog.

pub mod catalog;
pub mod common;
pub mod field;
pub mod filters;
pub mod query;
pub mod schema;
pub mod standard;

pub use common::{CapabilityMask, FieldInputKind, MetadataId, SortDirection};
pub use field::{FieldSource, LinkReference, LinkStep, LookupReference, MetadataField};
pub use filters::{MetadataFilter, MetadataFilterExpr};
pub use query::{MetadataQueryOptions, MetadataQueryRequest};
pub use schema::{
    MetadataColumnSchema, MetadataColumnType, MetadataForeignKeySchema, MetadataTableSchema,
};
pub use standard::standard_metadata_tables;
pub use catalog::{
    DatabaseKind, MetaColumn, MetaDatasource, MetaExportProfile, MetaImportFieldMapping,
    MetaImportProfile, MetaPolicy, MetaRelation, MetaTable, MetadataCatalog, PolicyKind,
    PrimaryKeyStrategy, RelationKind,
};
