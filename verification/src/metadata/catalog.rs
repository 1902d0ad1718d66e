//! The metadata catalog: datasources, tables, columns, relations, policies and
//! import/export profiles.

use vstd::prelude::*;

use super::common::MetadataId;
use super::field::LookupReference;
use super::filters::MetadataFilterExpr;
use super::schema::MetadataColumnType;
use crate::text::owned;
use crate::value::Value;

verus! {

/// The database product behind a datasource.
#[derive(Debug, Clone, PartialEq, Eq)]
pub enum DatabaseKind {
    MySql,
    Postgres,
    Oracle,
    SqlServer,
    Sqlite,
    Custom(String),
}

/// How the primary key of a table is produced.
#[derive(Debug, Clone, PartialEq, Eq)]
pub enum PrimaryKeyStrategy {
    Manual,
    AutoIncrement,
    Sequence(String),
    Snowflake,
    Uuid,
}

/// The cardinality of a relation.
#[derive(Debug, Clone, Copy, PartialEq, Eq, Structural)]
pub enum RelationKind {
    OneToOne,
    OneToMany,
    ManyToOne,
    ManyToMany,
}

/// What a policy governs.
#[derive(Debug, Clone, PartialEq, Eq)]
pub enum PolicyKind {
    RowFilter,
    FieldMask,
    ImportGuard,
    ExportGuard,
    Custom(String),
}

/// A database connection known to the catalog.
#[derive(Debug, Clone, PartialEq)]
pub struct MetaDatasource {
    pub id: MetadataId,
    pub code: String,
    pub name: String,
    pub database_kind: DatabaseKind,
    pub connection_uri: String,
    pub default_schema: Option<String>,
    pub enabled: bool,
    pub options: Value,
}

impl MetaDatasource {
    /// An enabled datasource without default schema or options.
    pub fn new(id: MetadataId, code: &str, name: &str, database_kind: DatabaseKind, connection_uri: &str) -> (r: MetaDatasource)
        ensures
            r.id == id,
            r.code@ == code@,
            r.name@ == name@,
            r.database_kind == database_kind,
            r.connection_uri@ == connection_uri@,
            r.default_schema is None,
            r.enabled,
            r.options == Value::Null,
    {
        MetaDatasource {
            id,
            code: owned(code),
            name: owned(name),
            database_kind,
            connection_uri: owned(connection_uri),
            default_schema: None,
            enabled: true,
            options: Value::Null,
        }
    }

    pub fn with_default_schema(self, schema: &str) -> (r: MetaDatasource)
        ensures
            r.default_schema matches Some(s) && s@ == schema@,
            r == (MetaDatasource { default_schema: r.default_schema, ..self }),
    {
        let mut d = self;
        d.default_schema = Some(owned(schema));
        d
    }

    pub fn with_options(self, options: Value) -> (r: MetaDatasource)
        ensures
            r == (MetaDatasource { options, ..self }),
    {
        let mut d = self;
        d.options = options;
        d
    }
}

/// A table known to the catalog.
#[derive(Debug, Clone, PartialEq, Eq)]
pub struct MetaTable {
    pub id: MetadataId,
    pub datasource_id: MetadataId,
    pub table_code: String,
    pub table_name: String,
    pub display_name: String,
    pub primary_key_strategy: PrimaryKeyStrategy,
    pub logical_delete: bool,
    pub audit_enabled: bool,
    pub default_sort: Vec<String>,
    pub enabled: bool,
}

impl MetaTable {
    /// An enabled table with manual keys, no logical delete, no audit and no default sort.
    pub fn new(id: MetadataId, datasource_id: MetadataId, table_code: &str, table_name: &str, display_name: &str) -> (r: MetaTable)
        ensures
            r.id == id,
            r.datasource_id == datasource_id,
            r.table_code@ == table_code@,
            r.table_name@ == table_name@,
            r.display_name@ == display_name@,
            r.primary_key_strategy == PrimaryKeyStrategy::Manual,
            !r.logical_delete,
            !r.audit_enabled,
            r.default_sort@.len() == 0,
            r.enabled,
    {
        MetaTable {
            id,
            datasource_id,
            table_code: owned(table_code),
            table_name: owned(table_name),
            display_name: owned(display_name),
            primary_key_strategy: PrimaryKeyStrategy::Manual,
            logical_delete: false,
            audit_enabled: false,
            default_sort: Vec::new(),
            enabled: true,
        }
    }

    pub fn with_primary_key_strategy(self, strategy: PrimaryKeyStrategy) -> (r: MetaTable)
        ensures
            r == (MetaTable { primary_key_strategy: strategy, ..self }),
    {
        let mut t = self;
        t.primary_key_strategy = strategy;
        t
    }

    pub fn with_default_sort(self, sort: Vec<String>) -> (r: MetaTable)
        ensures
            r == (MetaTable { default_sort: sort, ..self }),
    {
        let mut t = self;
        t.default_sort = sort;
        t
    }
}

/// A column known to the catalog.
#[derive(Debug, Clone, PartialEq, Eq)]
pub struct MetaColumn {
    pub id: MetadataId,
    pub table_id: MetadataId,
    pub column_code: String,
    pub column_name: String,
    pub display_name: String,
    pub column_type: MetadataColumnType,
    pub nullable: bool,
    pub queryable: bool,
    pub editable: bool,
    pub sortable: bool,
    pub primary_key: bool,
    pub default_value_sql: Option<String>,
    pub lookup: Option<LookupReference>,
}

impl MetaColumn {
    /// A nullable, queryable, editable and sortable column that is not a key.
    pub fn new(
        id: MetadataId,
        table_id: MetadataId,
        column_code: &str,
        column_name: &str,
        display_name: &str,
        column_type: MetadataColumnType,
    ) -> (r: MetaColumn)
        ensures
            r.id == id,
            r.table_id == table_id,
            r.column_code@ == column_code@,
            r.column_name@ == column_name@,
            r.display_name@ == display_name@,
            r.column_type == column_type,
            r.nullable,
            r.queryable,
            r.editable,
            r.sortable,
            !r.primary_key,
            r.default_value_sql is None,
            r.lookup is None,
    {
        MetaColumn {
            id,
            table_id,
            column_code: owned(column_code),
            column_name: owned(column_name),
            display_name: owned(display_name),
            column_type,
            nullable: true,
            queryable: true,
            editable: true,
            sortable: true,
            primary_key: false,
            default_value_sql: None,
            lookup: None,
        }
    }

    pub fn not_null(self) -> (r: MetaColumn)
        ensures
            r == (MetaColumn { nullable: false, ..self }),
    {
        let mut c = self;
        c.nullable = false;
        c
    }

    pub fn primary_key(self) -> (r: MetaColumn)
        ensures
            r == (MetaColumn { primary_key: true, ..self }),
    {
        let mut c = self;
        c.primary_key = true;
        c
    }

    pub fn with_default_sql(self, sql: &str) -> (r: MetaColumn)
        ensures
            r.default_value_sql matches Some(s) && s@ == sql@,
            r == (MetaColumn { default_value_sql: r.default_value_sql, ..self }),
    {
        let mut c = self;
        c.default_value_sql = Some(owned(sql));
        c
    }

    pub fn with_lookup(self, table: &str, display_column: &str) -> (r: MetaColumn)
        ensures
            r.lookup matches Some(l) && l.table@ == table@ && l.display_column@ == display_column@,
            r == (MetaColumn { lookup: r.lookup, ..self }),
    {
        let mut c = self;
        c.lookup = Some(LookupReference { table: owned(table), display_column: owned(display_column) });
        c
    }
}

/// A relation between two catalog tables.
#[derive(Debug, Clone, PartialEq, Eq)]
pub struct MetaRelation {
    pub id: MetadataId,
    pub left_table_id: MetadataId,
    pub right_table_id: MetadataId,
    pub relation_kind: RelationKind,
    pub join_type: String,
    pub left_column: String,
    pub right_column: String,
    pub bridge_table: Option<String>,
}

impl MetaRelation {
    /// A `LEFT` joined relation without bridge table.
    pub fn new(
        id: MetadataId,
        left_table_id: MetadataId,
        right_table_id: MetadataId,
        relation_kind: RelationKind,
        left_column: &str,
        right_column: &str,
    ) -> (r: MetaRelation)
        ensures
            r.id == id,
            r.left_table_id == left_table_id,
            r.right_table_id == right_table_id,
            r.relation_kind == relation_kind,
            r.join_type@ == "LEFT"@,
            r.left_column@ == left_column@,
            r.right_column@ == right_column@,
            r.bridge_table is None,
    {
        MetaRelation {
            id,
            left_table_id,
            right_table_id,
            relation_kind,
            join_type: "LEFT".to_owned(),
            left_column: owned(left_column),
            right_column: owned(right_column),
            bridge_table: None,
        }
    }

    pub fn with_join_type(self, join_type: &str) -> (r: MetaRelation)
        ensures
            r.join_type@ == join_type@,
            r == (MetaRelation { join_type: r.join_type, ..self }),
    {
        let mut x = self;
        x.join_type = owned(join_type);
        x
    }

    pub fn with_bridge_table(self, bridge_table: &str) -> (r: MetaRelation)
        ensures
            r.bridge_table matches Some(b) && b@ == bridge_table@,
            r == (MetaRelation { bridge_table: r.bridge_table, ..self }),
    {
        let mut x = self;
        x.bridge_table = Some(owned(bridge_table));
        x
    }
}

/// An access policy on a catalog table.
#[derive(Debug, Clone, PartialEq)]
pub struct MetaPolicy {
    pub id: MetadataId,
    pub table_id: MetadataId,
    pub policy_code: String,
    pub policy_kind: PolicyKind,
    pub filter: Option<MetadataFilterExpr>,
    pub enabled: bool,
}

impl MetaPolicy {
    /// An enabled policy without filter.
    pub fn new(id: MetadataId, table_id: MetadataId, policy_code: &str, policy_kind: PolicyKind) -> (r: MetaPolicy)
        ensures
            r.id == id,
            r.table_id == table_id,
            r.policy_code@ == policy_code@,
            r.policy_kind == policy_kind,
            r.filter is None,
            r.enabled,
    {
        MetaPolicy { id, table_id, policy_code: owned(policy_code), policy_kind, filter: None, enabled: true }
    }

    pub fn with_filter(self, filter: MetadataFilterExpr) -> (r: MetaPolicy)
        ensures
            r == (MetaPolicy { filter: Some(filter), ..self }),
    {
        let mut p = self;
        p.filter = Some(filter);
        p
    }
}

/// Where an imported value goes.
#[derive(Debug, Clone, PartialEq, Eq)]
pub struct MetaImportFieldMapping {
    pub source_key: String,
    pub target_column_code: String,
    pub required: bool,
}

impl MetaImportFieldMapping {
    /// An optional mapping.
    pub fn new(source_key: &str, target_column_code: &str) -> (r: MetaImportFieldMapping)
        ensures
            r.source_key@ == source_key@,
            r.target_column_code@ == target_column_code@,
            !r.required,
    {
        MetaImportFieldMapping { source_key: owned(source_key), target_column_code: owned(target_column_code), required: false }
    }

    pub fn required(self) -> (r: MetaImportFieldMapping)
        ensures
            r == (MetaImportFieldMapping { required: true, ..self }),
    {
        let mut m = self;
        m.required = true;
        m
    }
}

/// How rows are imported into a catalog table.
#[derive(Debug, Clone, PartialEq, Eq)]
pub struct MetaImportProfile {
    pub id: MetadataId,
    pub table_id: MetadataId,
    pub profile_code: String,
    pub display_name: String,
    pub update_keys: Vec<String>,
    pub field_mappings: Vec<MetaImportFieldMapping>,
}

impl MetaImportProfile {
    /// A profile without update keys or mappings.
    pub fn new(id: MetadataId, table_id: MetadataId, profile_code: &str, display_name: &str) -> (r: MetaImportProfile)
        ensures
            r.id == id,
            r.table_id == table_id,
            r.profile_code@ == profile_code@,
            r.display_name@ == display_name@,
            r.update_keys@.len() == 0,
            r.field_mappings@.len() == 0,
    {
        MetaImportProfile {
            id,
            table_id,
            profile_code: owned(profile_code),
            display_name: owned(display_name),
            update_keys: Vec::new(),
            field_mappings: Vec::new(),
        }
    }

    pub fn with_update_keys(self, keys: Vec<String>) -> (r: MetaImportProfile)
        ensures
            r == (MetaImportProfile { update_keys: keys, ..self }),
    {
        let mut p = self;
        p.update_keys = keys;
        p
    }

    pub fn field_mapping(self, mapping: MetaImportFieldMapping) -> (r: MetaImportProfile)
        ensures
            r.field_mappings@ == self.field_mappings@.push(mapping),
            r.id == self.id,
            r.table_id == self.table_id,
            r.profile_code == self.profile_code,
            r.display_name == self.display_name,
            r.update_keys == self.update_keys,
    {
        let mut p = self;
        p.field_mappings.push(mapping);
        p
    }
}

/// How rows of a catalog table are exported.
#[derive(Debug, Clone, PartialEq)]
pub struct MetaExportProfile {
    pub id: MetadataId,
    pub table_id: MetadataId,
    pub profile_code: String,
    pub display_name: String,
    pub selected_column_codes: Vec<String>,
    pub default_filter: Option<MetadataFilterExpr>,
    pub order_by: Vec<String>,
}

impl MetaExportProfile {
    /// A profile without selected columns, filter or order.
    pub fn new(id: MetadataId, table_id: MetadataId, profile_code: &str, display_name: &str) -> (r: MetaExportProfile)
        ensures
            r.id == id,
            r.table_id == table_id,
            r.profile_code@ == profile_code@,
            r.display_name@ == display_name@,
            r.selected_column_codes@.len() == 0,
            r.default_filter is None,
            r.order_by@.len() == 0,
    {
        MetaExportProfile {
            id,
            table_id,
            profile_code: owned(profile_code),
            display_name: owned(display_name),
            selected_column_codes: Vec::new(),
            default_filter: None,
            order_by: Vec::new(),
        }
    }

    pub fn with_selected_columns(self, columns: Vec<String>) -> (r: MetaExportProfile)
        ensures
            r == (MetaExportProfile { selected_column_codes: columns, ..self }),
    {
        let mut p = self;
        p.selected_column_codes = columns;
        p
    }

    pub fn with_default_filter(self, filter: MetadataFilterExpr) -> (r: MetaExportProfile)
        ensures
            r == (MetaExportProfile { default_filter: Some(filter), ..self }),
    {
        let mut p = self;
        p.default_filter = Some(filter);
        p
    }

    pub fn with_order_by(self, order_by: Vec<String>) -> (r: MetaExportProfile)
        ensures
            r == (MetaExportProfile { order_by, ..self }),
    {
        let mut p = self;
        p.order_by = order_by;
        p
    }
}

/// Everything the catalog knows, each kind in the order it was added.
#[derive(Debug, Clone, PartialEq)]
pub struct MetadataCatalog {
    pub datasources: Vec<MetaDatasource>,
    pub tables: Vec<MetaTable>,
    pub columns: Vec<MetaColumn>,
    pub relations: Vec<MetaRelation>,
    pub policies: Vec<MetaPolicy>,
    pub import_profiles: Vec<MetaImportProfile>,
    pub export_profiles: Vec<MetaExportProfile>,
}

impl MetadataCatalog {
    /// An empty catalog.
    pub fn new() -> (r: MetadataCatalog)
        ensures
            r.datasources@.len() == 0,
            r.tables@.len() == 0,
            r.columns@.len() == 0,
            r.relations@.len() == 0,
            r.policies@.len() == 0,
            r.import_profiles@.len() == 0,
            r.export_profiles@.len() == 0,
    {
        MetadataCatalog {
            datasources: Vec::new(),
            tables: Vec::new(),
            columns: Vec::new(),
            relations: Vec::new(),
            policies: Vec::new(),
            import_profiles: Vec::new(),
            export_profiles: Vec::new(),
        }
    }

    pub fn datasource(self, datasource: MetaDatasource) -> (r: MetadataCatalog)
        ensures
            r.datasources@ == self.datasources@.push(datasource),
            r == (MetadataCatalog { datasources: r.datasources, ..self }),
    {
        let mut c = self;
        c.datasources.push(datasource);
        c
    }

    pub fn table(self, table: MetaTable) -> (r: MetadataCatalog)
        ensures
            r.tables@ == self.tables@.push(table),
            r == (MetadataCatalog { tables: r.tables, ..self }),
    {
        let mut c = self;
        c.tables.push(table);
        c
    }

    pub fn column(self, column: MetaColumn) -> (r: MetadataCatalog)
        ensures
            r.columns@ == self.columns@.push(column),
            r == (MetadataCatalog { columns: r.columns, ..self }),
    {
        let mut c = self;
        c.columns.push(column);
        c
    }

    pub fn relation(self, relation: MetaRelation) -> (r: MetadataCatalog)
        ensures
            r.relations@ == self.relations@.push(relation),
            r == (MetadataCatalog { relations: r.relations, ..self }),
    {
        let mut c = self;
        c.relations.push(relation);
        c
    }

    pub fn policy(self, policy: MetaPolicy) -> (r: MetadataCatalog)
        ensures
            r.policies@ == self.policies@.push(policy),
            r == (MetadataCatalog { policies: r.policies, ..self }),
    {
        let mut c = self;
        c.policies.push(policy);
        c
    }

    pub fn import_profile(self, profile: MetaImportProfile) -> (r: MetadataCatalog)
        ensures
            r.import_profiles@ == self.import_profiles@.push(profile),
            r == (MetadataCatalog { import_profiles: r.import_profiles, ..self }),
    {
        let mut c = self;
        c.import_profiles.push(profile);
        c
    }

    pub fn export_profile(self, profile: MetaExportProfile) -> (r: MetadataCatalog)
        ensures
            r.export_profiles@ == self.export_profiles@.push(profile),
            r == (MetadataCatalog { export_profiles: r.export_profiles, ..self }),
    {
        let mut c = self;
        c.export_profiles.push(profile);
        c
    }
}

} // verus!
