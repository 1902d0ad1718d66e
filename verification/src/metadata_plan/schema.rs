//! The schema plan of the metadata tables and the in-memory runtime model.

use vstd::prelude::*;

use crate::metadata::schema::{table_schemas_model, TableSchemaModel};
use crate::metadata::standard::standard_tables_model;
use crate::metadata::{
    standard_metadata_tables, MetaColumn, MetaDatasource, MetaExportProfile, MetaImportProfile,
    MetaPolicy, MetaRelation, MetaTable, MetadataTableSchema,
};

verus! {

/// The tables to create.
#[derive(Debug, Clone, PartialEq)]
pub struct SchemaPlan {
    pub tables: Vec<MetadataTableSchema>,
}

impl SchemaPlan {
    /// The plan that creates the standard metadata tables.
    pub fn from_standard_metadata() -> (r: SchemaPlan)
        ensures
            table_schemas_model(r.tables@) == standard_tables_model(),
    {
        SchemaPlan { tables: standard_metadata_tables() }
    }
}

/// Catalog records held in memory.
#[derive(Debug, Clone, PartialEq)]
pub struct MetadataRuntimeModel {
    pub datasources: Vec<MetaDatasource>,
    pub tables: Vec<MetaTable>,
    pub columns: Vec<MetaColumn>,
    pub relations: Vec<MetaRelation>,
    pub policies: Vec<MetaPolicy>,
    pub import_profiles: Vec<MetaImportProfile>,
    pub export_profiles: Vec<MetaExportProfile>,
}

impl MetadataRuntimeModel {
    /// An empty model.
    pub fn new() -> (r: MetadataRuntimeModel)
        ensures
            r.datasources@.len() == 0,
            r.tables@.len() == 0,
            r.columns@.len() == 0,
            r.relations@.len() == 0,
            r.policies@.len() == 0,
            r.import_profiles@.len() == 0,
            r.export_profiles@.len() == 0,
    {
        MetadataRuntimeModel {
            datasources: Vec::new(),
            tables: Vec::new(),
            columns: Vec::new(),
            relations: Vec::new(),
            policies: Vec::new(),
            import_profiles: Vec::new(),
            export_profiles: Vec::new(),
        }
    }
}

} // verus!
