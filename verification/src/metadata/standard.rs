//! The tables that metadata itself is stored in.

use vstd::prelude::*;

use super::schema::{
    table_schemas_model, ColumnSchemaModel, ForeignKeySchemaModel, MetadataColumnSchema,
    MetadataColumnType, MetadataForeignKeySchema, MetadataTableSchema, TableSchemaModel,
};
use crate::text::{string_list1, string_list2};

verus! {

/// A column of a standard table: not null unless `nullable`, with an optional raw default.
pub open spec fn standard_column(name: Seq<char>, column_type: MetadataColumnType, nullable: bool, default_raw: Option<Seq<char>>) -> ColumnSchemaModel {
    ColumnSchemaModel { name, column_type, nullable, unique: false, default_raw }
}

/// A named foreign key of one column to the `id` of `table`, cascading on delete.
pub open spec fn standard_foreign_key(column: Seq<char>, table: Seq<char>, name: Seq<char>) -> ForeignKeySchemaModel {
    ForeignKeySchemaModel {
        name: Some(name),
        columns: seq![column],
        referenced_table: table,
        referenced_columns: seq!["id"@],
        on_delete: Some("CASCADE"@),
    }
}

fn required_column(name: &str, column_type: MetadataColumnType) -> (r: MetadataColumnSchema)
    ensures
        r@ == standard_column(name@, column_type, false, None),
{
    MetadataColumnSchema::new(name, column_type).not_null()
}

fn optional_column(name: &str, column_type: MetadataColumnType) -> (r: MetadataColumnSchema)
    ensures
        r@ == standard_column(name@, column_type, true, None),
{
    MetadataColumnSchema::new(name, column_type)
}

fn defaulted_column(name: &str, column_type: MetadataColumnType, default_raw: &str) -> (r: MetadataColumnSchema)
    ensures
        r@ == standard_column(name@, column_type, false, Some(default_raw@)),
{
    MetadataColumnSchema::new(name, column_type).not_null().default_raw(default_raw)
}

fn id_foreign_key(column: &str, table: &str, name: &str) -> (r: MetadataForeignKeySchema)
    ensures
        r@ == standard_foreign_key(column@, table@, name@),
{
    let f = MetadataForeignKeySchema::new(string_list1(column), table, string_list1("id")).name(name).on_delete("CASCADE");
    f
}

/// The model of the `meta_datasource` table.
pub open spec fn meta_datasource_table_model() -> TableSchemaModel {
    TableSchemaModel {
        name: "meta_datasource"@,
        columns: seq![
            standard_column("id"@, MetadataColumnType::BigInt, false, None),
            standard_column("code"@, MetadataColumnType::Varchar(64usize), false, None),
            standard_column("name"@, MetadataColumnType::Varchar(128usize), false, None),
            standard_column("db_type"@, MetadataColumnType::Varchar(32usize), false, None),
            standard_column("dsn"@, MetadataColumnType::Text, false, None),
            standard_column("default_schema"@, MetadataColumnType::Varchar(64usize), true, None),
            standard_column("options"@, MetadataColumnType::Json, false, None),
            standard_column("enabled"@, MetadataColumnType::Boolean, false, Some("TRUE"@)),
        ],
        primary_key: seq!["id"@],
        unique_keys: seq![seq!["code"@]],
        foreign_keys: seq![],
    }
}

fn meta_datasource_table() -> (r: MetadataTableSchema)
    ensures
        r@ == meta_datasource_table_model(),
{
    let t = MetadataTableSchema::new("meta_datasource")
        .column(required_column("id", MetadataColumnType::BigInt))
        .column(required_column("code", MetadataColumnType::Varchar(64usize)))
        .column(required_column("name", MetadataColumnType::Varchar(128usize)))
        .column(required_column("db_type", MetadataColumnType::Varchar(32usize)))
        .column(required_column("dsn", MetadataColumnType::Text))
        .column(optional_column("default_schema", MetadataColumnType::Varchar(64usize)))
        .column(required_column("options", MetadataColumnType::Json))
        .column(defaulted_column("enabled", MetadataColumnType::Boolean, "TRUE"))
        .primary_key(string_list1("id"))
        .unique_key(string_list1("code"));
    proof {
        let e = meta_datasource_table_model();
        assert(t@.columns =~~= e.columns);
        assert(t@.primary_key =~~= e.primary_key);
        assert(t@.unique_keys =~~= e.unique_keys);
        assert(t@.foreign_keys =~~= e.foreign_keys);
    }
    t
}

/// The model of the `meta_table` table.
pub open spec fn meta_table_table_model() -> TableSchemaModel {
    TableSchemaModel {
        name: "meta_table"@,
        columns: seq![
            standard_column("id"@, MetadataColumnType::BigInt, false, None),
            standard_column("datasource_id"@, MetadataColumnType::BigInt, false, None),
            standard_column("table_code"@, MetadataColumnType::Varchar(64usize), false, None),
            standard_column("table_name"@, MetadataColumnType::Varchar(128usize), false, None),
            standard_column("display_name"@, MetadataColumnType::Varchar(128usize), false, None),
            standard_column("primary_key_strategy"@, MetadataColumnType::Varchar(64usize), false, None),
            standard_column("logical_delete"@, MetadataColumnType::Boolean, false, None),
            standard_column("audit_enabled"@, MetadataColumnType::Boolean, false, None),
            standard_column("default_sort"@, MetadataColumnType::Json, false, None),
            standard_column("enabled"@, MetadataColumnType::Boolean, false, Some("TRUE"@)),
        ],
        primary_key: seq!["id"@],
        unique_keys: seq![seq!["datasource_id"@, "table_code"@]],
        foreign_keys: seq![standard_foreign_key("datasource_id"@, "meta_datasource"@, "fk_meta_table_datasource"@)],
    }
}

fn meta_table_table() -> (r: MetadataTableSchema)
    ensures
        r@ == meta_table_table_model(),
{
    let t = MetadataTableSchema::new("meta_table")
        .column(required_column("id", MetadataColumnType::BigInt))
        .column(required_column("datasource_id", MetadataColumnType::BigInt))
        .column(required_column("table_code", MetadataColumnType::Varchar(64usize)))
        .column(required_column("table_name", MetadataColumnType::Varchar(128usize)))
        .column(required_column("display_name", MetadataColumnType::Varchar(128usize)))
        .column(required_column("primary_key_strategy", MetadataColumnType::Varchar(64usize)))
        .column(required_column("logical_delete", MetadataColumnType::Boolean))
        .column(required_column("audit_enabled", MetadataColumnType::Boolean))
        .column(required_column("default_sort", MetadataColumnType::Json))
        .column(defaulted_column("enabled", MetadataColumnType::Boolean, "TRUE"))
        .primary_key(string_list1("id"))
        .unique_key(string_list2("datasource_id", "table_code"))
        .foreign_key(id_foreign_key("datasource_id", "meta_datasource", "fk_meta_table_datasource"));
    proof {
        let e = meta_table_table_model();
        assert(t@.columns =~~= e.columns);
        assert(t@.primary_key =~~= e.primary_key);
        assert(t@.unique_keys =~~= e.unique_keys);
        assert(t@.foreign_keys =~~= e.foreign_keys);
    }
    t
}

/// The model of the `meta_column` table.
pub open spec fn meta_column_table_model() -> TableSchemaModel {
    TableSchemaModel {
        name: "meta_column"@,
        columns: seq![
            standard_column("id"@, MetadataColumnType::BigInt, false, None),
            standard_column("table_id"@, MetadataColumnType::BigInt, false, None),
            standard_column("column_code"@, MetadataColumnType::Varchar(64usize), false, None),
            standard_column("column_name"@, MetadataColumnType::Varchar(128usize), false, None),
            standard_column("display_name"@, MetadataColumnType::Varchar(128usize), false, None),
            standard_column("data_type"@, MetadataColumnType::Varchar(32usize), false, None),
            standard_column("nullable"@, MetadataColumnType::Boolean, false, None),
            standard_column("queryable"@, MetadataColumnType::Boolean, false, None),
            standard_column("editable"@, MetadataColumnType::Boolean, false, None),
            standard_column("sortable"@, MetadataColumnType::Boolean, false, None),
            standard_column("primary_key"@, MetadataColumnType::Boolean, false, None),
            standard_column("default_value_sql"@, MetadataColumnType::Text, true, None),
        ],
        primary_key: seq!["id"@],
        unique_keys: seq![seq!["table_id"@, "column_code"@]],
        foreign_keys: seq![standard_foreign_key("table_id"@, "meta_table"@, "fk_meta_column_table"@)],
    }
}

fn meta_column_table() -> (r: MetadataTableSchema)
    ensures
        r@ == meta_column_table_model(),
{
    let t = MetadataTableSchema::new("meta_column")
        .column(required_column("id", MetadataColumnType::BigInt))
        .column(required_column("table_id", MetadataColumnType::BigInt))
        .column(required_column("column_code", MetadataColumnType::Varchar(64usize)))
        .column(required_column("column_name", MetadataColumnType::Varchar(128usize)))
        .column(required_column("display_name", MetadataColumnType::Varchar(128usize)))
        .column(required_column("data_type", MetadataColumnType::Varchar(32usize)))
        .column(required_column("nullable", MetadataColumnType::Boolean))
        .column(required_column("queryable", MetadataColumnType::Boolean))
        .column(required_column("editable", MetadataColumnType::Boolean))
        .column(required_column("sortable", MetadataColumnType::Boolean))
        .column(required_column("primary_key", MetadataColumnType::Boolean))
        .column(optional_column("default_value_sql", MetadataColumnType::Text))
        .primary_key(string_list1("id"))
        .unique_key(string_list2("table_id", "column_code"))
        .foreign_key(id_foreign_key("table_id", "meta_table", "fk_meta_column_table"));
    proof {
        let e = meta_column_table_model();
        assert(t@.columns =~~= e.columns);
        assert(t@.primary_key =~~= e.primary_key);
        assert(t@.unique_keys =~~= e.unique_keys);
        assert(t@.foreign_keys =~~= e.foreign_keys);
    }
    t
}

/// The model of the `meta_relation` table.
pub open spec fn meta_relation_table_model() -> TableSchemaModel {
    TableSchemaModel {
        name: "meta_relation"@,
        columns: seq![
            standard_column("id"@, MetadataColumnType::BigInt, false, None),
            standard_column("left_table_id"@, MetadataColumnType::BigInt, false, None),
            standard_column("right_table_id"@, MetadataColumnType::BigInt, false, None),
            standard_column("relation_type"@, MetadataColumnType::Varchar(32usize), false, None),
            standard_column("join_type"@, MetadataColumnType::Varchar(16usize), false, None),
            standard_column("left_column"@, MetadataColumnType::Varchar(64usize), false, None),
            standard_column("right_column"@, MetadataColumnType::Varchar(64usize), false, None),
            standard_column("bridge_table"@, MetadataColumnType::Varchar(128usize), true, None),
        ],
        primary_key: seq!["id"@],
        unique_keys: seq![],
        foreign_keys: seq![standard_foreign_key("left_table_id"@, "meta_table"@, "fk_meta_relation_left_table"@), standard_foreign_key("right_table_id"@, "meta_table"@, "fk_meta_relation_right_table"@)],
    }
}

fn meta_relation_table() -> (r: MetadataTableSchema)
    ensures
        r@ == meta_relation_table_model(),
{
    let t = MetadataTableSchema::new("meta_relation")
        .column(required_column("id", MetadataColumnType::BigInt))
        .column(required_column("left_table_id", MetadataColumnType::BigInt))
        .column(required_column("right_table_id", MetadataColumnType::BigInt))
        .column(required_column("relation_type", MetadataColumnType::Varchar(32usize)))
        .column(required_column("join_type", MetadataColumnType::Varchar(16usize)))
        .column(required_column("left_column", MetadataColumnType::Varchar(64usize)))
        .column(required_column("right_column", MetadataColumnType::Varchar(64usize)))
        .column(optional_column("bridge_table", MetadataColumnType::Varchar(128usize)))
        .primary_key(string_list1("id"))
        .foreign_key(id_foreign_key("left_table_id", "meta_table", "fk_meta_relation_left_table"))
        .foreign_key(id_foreign_key("right_table_id", "meta_table", "fk_meta_relation_right_table"));
    proof {
        let e = meta_relation_table_model();
        assert(t@.columns =~~= e.columns);
        assert(t@.primary_key =~~= e.primary_key);
        assert(t@.unique_keys =~~= e.unique_keys);
        assert(t@.foreign_keys =~~= e.foreign_keys);
    }
    t
}

/// The model of the `meta_policy` table.
pub open spec fn meta_policy_table_model() -> TableSchemaModel {
    TableSchemaModel {
        name: "meta_policy"@,
        columns: seq![
            standard_column("id"@, MetadataColumnType::BigInt, false, None),
            standard_column("table_id"@, MetadataColumnType::BigInt, false, None),
            standard_column("policy_code"@, MetadataColumnType::Varchar(64usize), false, None),
            standard_column("policy_type"@, MetadataColumnType::Varchar(32usize), false, None),
            standard_column("policy_expr"@, MetadataColumnType::Text, false, None),
            standard_column("enabled"@, MetadataColumnType::Boolean, false, None),
        ],
        primary_key: seq!["id"@],
        unique_keys: seq![seq!["table_id"@, "policy_code"@]],
        foreign_keys: seq![standard_foreign_key("table_id"@, "meta_table"@, "fk_meta_policy_table"@)],
    }
}

fn meta_policy_table() -> (r: MetadataTableSchema)
    ensures
        r@ == meta_policy_table_model(),
{
    let t = MetadataTableSchema::new("meta_policy")
        .column(required_column("id", MetadataColumnType::BigInt))
        .column(required_column("table_id", MetadataColumnType::BigInt))
        .column(required_column("policy_code", MetadataColumnType::Varchar(64usize)))
        .column(required_column("policy_type", MetadataColumnType::Varchar(32usize)))
        .column(required_column("policy_expr", MetadataColumnType::Text))
        .column(required_column("enabled", MetadataColumnType::Boolean))
        .primary_key(string_list1("id"))
        .unique_key(string_list2("table_id", "policy_code"))
        .foreign_key(id_foreign_key("table_id", "meta_table", "fk_meta_policy_table"));
    proof {
        let e = meta_policy_table_model();
        assert(t@.columns =~~= e.columns);
        assert(t@.primary_key =~~= e.primary_key);
        assert(t@.unique_keys =~~= e.unique_keys);
        assert(t@.foreign_keys =~~= e.foreign_keys);
    }
    t
}

/// The model of the `meta_import_profile` table.
pub open spec fn meta_import_profile_table_model() -> TableSchemaModel {
    TableSchemaModel {
        name: "meta_import_profile"@,
        columns: seq![
            standard_column("id"@, MetadataColumnType::BigInt, false, None),
            standard_column("table_id"@, MetadataColumnType::BigInt, false, None),
            standard_column("profile_code"@, MetadataColumnType::Varchar(64usize), false, None),
            standard_column("display_name"@, MetadataColumnType::Varchar(128usize), false, None),
            standard_column("update_keys"@, MetadataColumnType::Json, false, None),
        ],
        primary_key: seq!["id"@],
        unique_keys: seq![seq!["table_id"@, "profile_code"@]],
        foreign_keys: seq![standard_foreign_key("table_id"@, "meta_table"@, "fk_meta_import_profile_table"@)],
    }
}

fn meta_import_profile_table() -> (r: MetadataTableSchema)
    ensures
        r@ == meta_import_profile_table_model(),
{
    let t = MetadataTableSchema::new("meta_import_profile")
        .column(required_column("id", MetadataColumnType::BigInt))
        .column(required_column("table_id", MetadataColumnType::BigInt))
        .column(required_column("profile_code", MetadataColumnType::Varchar(64usize)))
        .column(required_column("display_name", MetadataColumnType::Varchar(128usize)))
        .column(required_column("update_keys", MetadataColumnType::Json))
        .primary_key(string_list1("id"))
        .unique_key(string_list2("table_id", "profile_code"))
        .foreign_key(id_foreign_key("table_id", "meta_table", "fk_meta_import_profile_table"));
    proof {
        let e = meta_import_profile_table_model();
        assert(t@.columns =~~= e.columns);
        assert(t@.primary_key =~~= e.primary_key);
        assert(t@.unique_keys =~~= e.unique_keys);
        assert(t@.foreign_keys =~~= e.foreign_keys);
    }
    t
}

/// The model of the `meta_import_mapping` table.
pub open spec fn meta_import_mapping_table_model() -> TableSchemaModel {
    TableSchemaModel {
        name: "meta_import_mapping"@,
        columns: seq![
            standard_column("id"@, MetadataColumnType::BigInt, false, None),
            standard_column("profile_id"@, MetadataColumnType::BigInt, false, None),
            standard_column("source_key"@, MetadataColumnType::Varchar(128usize), false, None),
            standard_column("target_column_code"@, MetadataColumnType::Varchar(64usize), false, None),
            standard_column("required"@, MetadataColumnType::Boolean, false, None),
        ],
        primary_key: seq!["id"@],
        unique_keys: seq![],
        foreign_keys: seq![standard_foreign_key("profile_id"@, "meta_import_profile"@, "fk_meta_import_mapping_profile"@)],
    }
}

fn meta_import_mapping_table() -> (r: MetadataTableSchema)
    ensures
        r@ == meta_import_mapping_table_model(),
{
    let t = MetadataTableSchema::new("meta_import_mapping")
        .column(required_column("id", MetadataColumnType::BigInt))
        .column(required_column("profile_id", MetadataColumnType::BigInt))
        .column(required_column("source_key", MetadataColumnType::Varchar(128usize)))
        .column(required_column("target_column_code", MetadataColumnType::Varchar(64usize)))
        .column(required_column("required", MetadataColumnType::Boolean))
        .primary_key(string_list1("id"))
        .foreign_key(id_foreign_key("profile_id", "meta_import_profile", "fk_meta_import_mapping_profile"));
    proof {
        let e = meta_import_mapping_table_model();
        assert(t@.columns =~~= e.columns);
        assert(t@.primary_key =~~= e.primary_key);
        assert(t@.unique_keys =~~= e.unique_keys);
        assert(t@.foreign_keys =~~= e.foreign_keys);
    }
    t
}

/// The model of the `meta_export_profile` table.
pub open spec fn meta_export_profile_table_model() -> TableSchemaModel {
    TableSchemaModel {
        name: "meta_export_profile"@,
        columns: seq![
            standard_column("id"@, MetadataColumnType::BigInt, false, None),
            standard_column("table_id"@, MetadataColumnType::BigInt, false, None),
            standard_column("profile_code"@, MetadataColumnType::Varchar(64usize), false, None),
            standard_column("display_name"@, MetadataColumnType::Varchar(128usize), false, None),
            standard_column("selected_columns"@, MetadataColumnType::Json, false, None),
            standard_column("default_filter"@, MetadataColumnType::Text, true, None),
            standard_column("order_by"@, MetadataColumnType::Json, false, None),
        ],
        primary_key: seq!["id"@],
        unique_keys: seq![seq!["table_id"@, "profile_code"@]],
        foreign_keys: seq![standard_foreign_key("table_id"@, "meta_table"@, "fk_meta_export_profile_table"@)],
    }
}

fn meta_export_profile_table() -> (r: MetadataTableSchema)
    ensures
        r@ == meta_export_profile_table_model(),
{
    let t = MetadataTableSchema::new("meta_export_profile")
        .column(required_column("id", MetadataColumnType::BigInt))
        .column(required_column("table_id", MetadataColumnType::BigInt))
        .column(required_column("profile_code", MetadataColumnType::Varchar(64usize)))
        .column(required_column("display_name", MetadataColumnType::Varchar(128usize)))
        .column(required_column("selected_columns", MetadataColumnType::Json))
        .column(optional_column("default_filter", MetadataColumnType::Text))
        .column(required_column("order_by", MetadataColumnType::Json))
        .primary_key(string_list1("id"))
        .unique_key(string_list2("table_id", "profile_code"))
        .foreign_key(id_foreign_key("table_id", "meta_table", "fk_meta_export_profile_table"));
    proof {
        let e = meta_export_profile_table_model();
        assert(t@.columns =~~= e.columns);
        assert(t@.primary_key =~~= e.primary_key);
        assert(t@.unique_keys =~~= e.unique_keys);
        assert(t@.foreign_keys =~~= e.foreign_keys);
    }
    t
}

/// The model of the `meta_operation_log` table.
pub open spec fn meta_operation_log_table_model() -> TableSchemaModel {
    TableSchemaModel {
        name: "meta_operation_log"@,
        columns: seq![
            standard_column("id"@, MetadataColumnType::BigInt, false, None),
            standard_column("operator_id"@, MetadataColumnType::BigInt, false, None),
            standard_column("target_table"@, MetadataColumnType::Varchar(128usize), false, None),
            standard_column("statement_type"@, MetadataColumnType::Varchar(16usize), false, None),
            standard_column("payload"@, MetadataColumnType::Json, false, None),
            standard_column("created_at"@, MetadataColumnType::DateTime, false, Some("CURRENT_TIMESTAMP"@)),
        ],
        primary_key: seq!["id"@],
        unique_keys: seq![],
        foreign_keys: seq![],
    }
}

fn meta_operation_log_table() -> (r: MetadataTableSchema)
    ensures
        r@ == meta_operation_log_table_model(),
{
    let t = MetadataTableSchema::new("meta_operation_log")
        .column(required_column("id", MetadataColumnType::BigInt))
        .column(required_column("operator_id", MetadataColumnType::BigInt))
        .column(required_column("target_table", MetadataColumnType::Varchar(128usize)))
        .column(required_column("statement_type", MetadataColumnType::Varchar(16usize)))
        .column(required_column("payload", MetadataColumnType::Json))
        .column(defaulted_column("created_at", MetadataColumnType::DateTime, "CURRENT_TIMESTAMP"))
        .primary_key(string_list1("id"));
    proof {
        let e = meta_operation_log_table_model();
        assert(t@.columns =~~= e.columns);
        assert(t@.primary_key =~~= e.primary_key);
        assert(t@.unique_keys =~~= e.unique_keys);
        assert(t@.foreign_keys =~~= e.foreign_keys);
    }
    t
}

/// The models of the standard metadata tables, in creation order.
pub open spec fn standard_tables_model() -> Seq<TableSchemaModel> {
    seq![
        meta_datasource_table_model(),
        meta_table_table_model(),
        meta_column_table_model(),
        meta_relation_table_model(),
        meta_policy_table_model(),
        meta_import_profile_table_model(),
        meta_import_mapping_table_model(),
        meta_export_profile_table_model(),
        meta_operation_log_table_model(),
    ]
}

/// Whether the foreign key `k` of the `i`-th standard table references, by its primary
/// key, the `j`-th standard table.
pub open spec fn references_table(i: int, k: int, j: int) -> bool {
    let fk = standard_tables_model()[i].foreign_keys[k];
    &&& standard_tables_model()[j].name == fk.referenced_table
    &&& standard_tables_model()[j].primary_key == fk.referenced_columns
}

/// Whether the foreign key `k` of the `i`-th standard table references the primary key of
/// a table that comes before it.
pub open spec fn references_earlier_table(i: int, k: int) -> bool {
    exists|j: int| 0 <= j < i && references_table(i, k, j)
}

/// Every foreign key of a standard table references the primary key of a table that
/// comes before it, so the tables can be created in their order.
pub proof fn standard_tables_reference_earlier_tables()
    ensures
        forall|i: int, k: int|
            0 <= i < standard_tables_model().len() && 0 <= k < standard_tables_model()[i].foreign_keys.len()
                ==> #[trigger] references_earlier_table(i, k),
{
    let t = standard_tables_model();
    assert(t[0] == meta_datasource_table_model());
    assert(t[1] == meta_table_table_model());
    assert(t[2] == meta_column_table_model());
    assert(t[3] == meta_relation_table_model());
    assert(t[4] == meta_policy_table_model());
    assert(t[5] == meta_import_profile_table_model());
    assert(t[6] == meta_import_mapping_table_model());
    assert(t[7] == meta_export_profile_table_model());
    assert(t[8] == meta_operation_log_table_model());
    assert forall|i: int, k: int|
        0 <= i < standard_tables_model().len() && 0 <= k < standard_tables_model()[i].foreign_keys.len()
            implies #[trigger] references_earlier_table(i, k) by {
        if i == 1 {
            assert(references_table(i, k, 0));
        } else if i == 6 {
            assert(references_table(i, k, 5));
        } else if i == 2 || i == 3 || i == 4 || i == 5 || i == 7 {
            assert(references_table(i, k, 1));
        }
    }
}

/// The tables that metadata is stored in: datasources, tables, columns, relations,
/// policies, import profiles and mappings, export profiles and the operation log.
pub fn standard_metadata_tables() -> (r: Vec<MetadataTableSchema>)
    ensures
        table_schemas_model(r@) == standard_tables_model(),
{
    let mut v: Vec<MetadataTableSchema> = Vec::new();
    v.push(meta_datasource_table());
    v.push(meta_table_table());
    v.push(meta_column_table());
    v.push(meta_relation_table());
    v.push(meta_policy_table());
    v.push(meta_import_profile_table());
    v.push(meta_import_mapping_table());
    v.push(meta_export_profile_table());
    v.push(meta_operation_log_table());
    assert(table_schemas_model(v@) =~= standard_tables_model());
    v
}

} // verus!
