//! Turning a catalog into rows of the standard metadata tables.

use vstd::prelude::*;

use super::codes::{
    database_kind_code, database_kind_text, policy_kind_code, policy_kind_text, primary_key_strategy_code,
    primary_key_strategy_text, relation_kind_code, relation_kind_text,
};
use super::debug_text::{expr_debug, filter_expr_text};
use super::snapshot::{rows_model, MetadataPersistenceRow, MetadataPersistenceSnapshot, RowModel};
use crate::metadata::schema::{column_type_text, table_schemas_model};
use crate::metadata::standard::standard_tables_model;
use crate::metadata::{
    standard_metadata_tables, MetaColumn, MetaDatasource, MetaExportProfile, MetaImportFieldMapping,
    MetaImportProfile, MetaPolicy, MetaRelation, MetaTable, MetadataCatalog, MetadataFilterExpr,
};
use crate::text::{copy_string, int_text, owned, strings_view};
use crate::value::{entries_model, lemma_array_view, value_view, values_model, Value, ValueModel};

verus! {

/// A number.
pub open spec fn number_value(n: int) -> ValueModel {
    ValueModel::Number(int_text(n))
}

/// A text, or null.
pub open spec fn optional_text_value(o: Option<String>) -> ValueModel {
    match o {
        Some(s) => ValueModel::Text(s@),
        None => ValueModel::Null,
    }
}

/// An array of texts.
pub open spec fn texts_value(items: Seq<String>) -> ValueModel {
    ValueModel::Array(items.map_values(|s: String| ValueModel::Text(s@)))
}

/// The debug text of a filter, or null.
pub open spec fn optional_filter_value(o: Option<MetadataFilterExpr>) -> ValueModel {
    match o {
        Some(f) => ValueModel::Text(expr_debug(f@)),
        None => ValueModel::Null,
    }
}

pub open spec fn datasource_row(d: MetaDatasource) -> RowModel {
    RowModel {
        table: "meta_datasource"@,
        values: seq![
            ("id"@, number_value(d.id as int)),
            ("code"@, ValueModel::Text(d.code@)),
            ("name"@, ValueModel::Text(d.name@)),
            ("db_type"@, ValueModel::Text(database_kind_text(d.database_kind))),
            ("dsn"@, ValueModel::Text(d.connection_uri@)),
            ("default_schema"@, optional_text_value(d.default_schema)),
            ("options"@, d.options@),
            ("enabled"@, ValueModel::Bool(d.enabled)),
        ],
    }
}

pub open spec fn table_row(t: MetaTable) -> RowModel {
    RowModel {
        table: "meta_table"@,
        values: seq![
            ("id"@, number_value(t.id as int)),
            ("datasource_id"@, number_value(t.datasource_id as int)),
            ("table_code"@, ValueModel::Text(t.table_code@)),
            ("table_name"@, ValueModel::Text(t.table_name@)),
            ("display_name"@, ValueModel::Text(t.display_name@)),
            ("enabled"@, ValueModel::Bool(t.enabled)),
            ("primary_key_strategy"@, ValueModel::Text(primary_key_strategy_text(t.primary_key_strategy))),
            ("logical_delete"@, ValueModel::Bool(t.logical_delete)),
            ("audit_enabled"@, ValueModel::Bool(t.audit_enabled)),
            ("default_sort"@, texts_value(t.default_sort@)),
        ],
    }
}

pub open spec fn column_row(c: MetaColumn) -> RowModel {
    RowModel {
        table: "meta_column"@,
        values: seq![
            ("id"@, number_value(c.id as int)),
            ("table_id"@, number_value(c.table_id as int)),
            ("column_code"@, ValueModel::Text(c.column_code@)),
            ("column_name"@, ValueModel::Text(c.column_name@)),
            ("display_name"@, ValueModel::Text(c.display_name@)),
            ("data_type"@, ValueModel::Text(column_type_text(c.column_type))),
            ("nullable"@, ValueModel::Bool(c.nullable)),
            ("queryable"@, ValueModel::Bool(c.queryable)),
            ("editable"@, ValueModel::Bool(c.editable)),
            ("sortable"@, ValueModel::Bool(c.sortable)),
            ("primary_key"@, ValueModel::Bool(c.primary_key)),
            ("default_value_sql"@, optional_text_value(c.default_value_sql)),
        ],
    }
}

pub open spec fn relation_row(r: MetaRelation) -> RowModel {
    RowModel {
        table: "meta_relation"@,
        values: seq![
            ("id"@, number_value(r.id as int)),
            ("left_table_id"@, number_value(r.left_table_id as int)),
            ("right_table_id"@, number_value(r.right_table_id as int)),
            ("relation_type"@, ValueModel::Text(relation_kind_text(r.relation_kind))),
            ("join_type"@, ValueModel::Text(r.join_type@)),
            ("left_column"@, ValueModel::Text(r.left_column@)),
            ("right_column"@, ValueModel::Text(r.right_column@)),
            ("bridge_table"@, optional_text_value(r.bridge_table)),
        ],
    }
}

pub open spec fn policy_row(p: MetaPolicy) -> RowModel {
    RowModel {
        table: "meta_policy"@,
        values: seq![
            ("id"@, number_value(p.id as int)),
            ("table_id"@, number_value(p.table_id as int)),
            ("policy_code"@, ValueModel::Text(p.policy_code@)),
            ("policy_type"@, ValueModel::Text(policy_kind_text(p.policy_kind))),
            ("policy_expr"@, optional_filter_value(p.filter)),
            ("enabled"@, ValueModel::Bool(p.enabled)),
        ],
    }
}

pub open spec fn import_profile_row(p: MetaImportProfile) -> RowModel {
    RowModel {
        table: "meta_import_profile"@,
        values: seq![
            ("id"@, number_value(p.id as int)),
            ("table_id"@, number_value(p.table_id as int)),
            ("profile_code"@, ValueModel::Text(p.profile_code@)),
            ("display_name"@, ValueModel::Text(p.display_name@)),
            ("update_keys"@, texts_value(p.update_keys@)),
        ],
    }
}

pub open spec fn import_mapping_row(profile_id: int, m: MetaImportFieldMapping, id: int) -> RowModel {
    RowModel {
        table: "meta_import_mapping"@,
        values: seq![
            ("id"@, number_value(id)),
            ("profile_id"@, number_value(profile_id)),
            ("source_key"@, ValueModel::Text(m.source_key@)),
            ("target_column_code"@, ValueModel::Text(m.target_column_code@)),
            ("required"@, ValueModel::Bool(m.required)),
        ],
    }
}

pub open spec fn export_profile_row(p: MetaExportProfile) -> RowModel {
    RowModel {
        table: "meta_export_profile"@,
        values: seq![
            ("id"@, number_value(p.id as int)),
            ("table_id"@, number_value(p.table_id as int)),
            ("profile_code"@, ValueModel::Text(p.profile_code@)),
            ("display_name"@, ValueModel::Text(p.display_name@)),
            ("selected_columns"@, texts_value(p.selected_column_codes@)),
            ("default_filter"@, optional_filter_value(p.default_filter)),
            ("order_by"@, texts_value(p.order_by@)),
        ],
    }
}

/// How many field mappings the profiles hold in all.
pub open spec fn mapping_count(profiles: Seq<MetaImportProfile>) -> int
    decreases profiles.len(),
{
    if profiles.len() == 0 {
        0
    } else {
        mapping_count(profiles.drop_last()) + profiles.last().field_mappings@.len()
    }
}

/// The mapping rows of one profile, numbered from `first_id`.
pub open spec fn mapping_rows(p: MetaImportProfile, first_id: int) -> Seq<RowModel> {
    Seq::new(p.field_mappings@.len(), |j: int| import_mapping_row(p.id as int, p.field_mappings@[j], first_id + j))
}

/// Each import profile followed by its mappings; mappings are numbered from 1 across
/// all profiles.
pub open spec fn import_rows(profiles: Seq<MetaImportProfile>) -> Seq<RowModel>
    decreases profiles.len(),
{
    if profiles.len() == 0 {
        Seq::empty()
    } else {
        let p = profiles.last();
        import_rows(profiles.drop_last()) + seq![import_profile_row(p)]
            + mapping_rows(p, 1 + mapping_count(profiles.drop_last()))
    }
}

/// The rows of a catalog: datasources, tables, columns, relations, policies, import
/// profiles with their mappings, and export profiles, each kind in catalog order.
pub open spec fn catalog_rows(c: MetadataCatalog) -> Seq<RowModel> {
    c.datasources@.map_values(|d: MetaDatasource| datasource_row(d))
        + c.tables@.map_values(|t: MetaTable| table_row(t))
        + c.columns@.map_values(|x: MetaColumn| column_row(x))
        + c.relations@.map_values(|r: MetaRelation| relation_row(r))
        + c.policies@.map_values(|p: MetaPolicy| policy_row(p))
        + import_rows(c.import_profiles@)
        + c.export_profiles@.map_values(|p: MetaExportProfile| export_profile_row(p))
}

fn number(n: i64) -> (r: Value)
    ensures
        r@ == number_value(n as int),
{
    Value::from_i64(n)
}

fn text(s: &String) -> (r: Value)
    ensures
        r@ == ValueModel::Text(s@),
{
    Value::String(copy_string(s))
}

fn optional_text(o: &Option<String>) -> (r: Value)
    ensures
        r@ == optional_text_value(*o),
{
    match o {
        Some(s) => Value::String(copy_string(s)),
        None => Value::Null,
    }
}

fn texts(items: &Vec<String>) -> (r: Value)
    ensures
        r@ == texts_value(items@),
{
    let mut out: Vec<Value> = Vec::new();
    let n = items.len();
    let mut i: usize = 0;
    while i < n
        invariant
            n == items@.len(),
            i <= n,
            out@.len() == i,
            forall|j: int| 0 <= j < i ==> value_view(#[trigger] out@[j]) == ValueModel::Text(items@[j]@),
        decreases n - i,
    {
        out.push(Value::String(copy_string(&items[i])));
        i = i + 1;
    }
    proof {
        lemma_array_view(out);
        assert(values_model(out@) =~= items@.map_values(|s: String| ValueModel::Text(s@)));
    }
    Value::Array(out)
}

fn optional_filter(o: &Option<MetadataFilterExpr>) -> (r: Value)
    ensures
        r@ == optional_filter_value(*o),
{
    match o {
        Some(f) => Value::String(filter_expr_text(f)),
        None => Value::Null,
    }
}

fn push_row(rows: &mut Vec<MetadataPersistenceRow>, r: MetadataPersistenceRow)
    ensures
        rows_model(final(rows)@) == rows_model(old(rows)@).push(r@),
{
    let ghost before = rows@;
    rows.push(r);
    assert(rows_model(rows@) =~= rows_model(before).push(r@));
}

fn entry(key: &str, value: Value) -> (r: (String, Value))
    ensures
        r.0@ == key@,
        r.1@ == value@,
{
    (owned(key), value)
}

fn row(table: &str, values: Vec<(String, Value)>) -> (r: MetadataPersistenceRow)
    ensures
        r@ == (RowModel { table: table@, values: entries_model(values@) }),
{
    MetadataPersistenceRow { table: owned(table), values }
}

fn datasource_to_row(d: &MetaDatasource) -> (r: MetadataPersistenceRow)
    ensures
        r@ == datasource_row(*d),
{
    let mut v: Vec<(String, Value)> = Vec::new();
    v.push(entry("id", number(d.id)));
    v.push(entry("code", text(&d.code)));
    v.push(entry("name", text(&d.name)));
    v.push(entry("db_type", Value::String(database_kind_code(&d.database_kind))));
    v.push(entry("dsn", text(&d.connection_uri)));
    v.push(entry("default_schema", optional_text(&d.default_schema)));
    v.push(entry("options", d.options.duplicate()));
    v.push(entry("enabled", Value::Bool(d.enabled)));
    assert(entries_model(v@) =~= datasource_row(*d).values);
    row("meta_datasource", v)
}

fn table_to_row(t: &MetaTable) -> (r: MetadataPersistenceRow)
    ensures
        r@ == table_row(*t),
{
    let mut v: Vec<(String, Value)> = Vec::new();
    v.push(entry("id", number(t.id)));
    v.push(entry("datasource_id", number(t.datasource_id)));
    v.push(entry("table_code", text(&t.table_code)));
    v.push(entry("table_name", text(&t.table_name)));
    v.push(entry("display_name", text(&t.display_name)));
    v.push(entry("enabled", Value::Bool(t.enabled)));
    v.push(entry("primary_key_strategy", Value::String(primary_key_strategy_code(&t.primary_key_strategy))));
    v.push(entry("logical_delete", Value::Bool(t.logical_delete)));
    v.push(entry("audit_enabled", Value::Bool(t.audit_enabled)));
    v.push(entry("default_sort", texts(&t.default_sort)));
    assert(entries_model(v@) =~= table_row(*t).values);
    row("meta_table", v)
}

fn column_to_row(c: &MetaColumn) -> (r: MetadataPersistenceRow)
    ensures
        r@ == column_row(*c),
{
    let mut v: Vec<(String, Value)> = Vec::new();
    v.push(entry("id", number(c.id)));
    v.push(entry("table_id", number(c.table_id)));
    v.push(entry("column_code", text(&c.column_code)));
    v.push(entry("column_name", text(&c.column_name)));
    v.push(entry("display_name", text(&c.display_name)));
    v.push(entry("data_type", Value::String(c.column_type.sql_type())));
    v.push(entry("nullable", Value::Bool(c.nullable)));
    v.push(entry("queryable", Value::Bool(c.queryable)));
    v.push(entry("editable", Value::Bool(c.editable)));
    v.push(entry("sortable", Value::Bool(c.sortable)));
    v.push(entry("primary_key", Value::Bool(c.primary_key)));
    v.push(entry("default_value_sql", optional_text(&c.default_value_sql)));
    assert(entries_model(v@) =~= column_row(*c).values);
    row("meta_column", v)
}

fn relation_to_row(x: &MetaRelation) -> (r: MetadataPersistenceRow)
    ensures
        r@ == relation_row(*x),
{
    let mut v: Vec<(String, Value)> = Vec::new();
    v.push(entry("id", number(x.id)));
    v.push(entry("left_table_id", number(x.left_table_id)));
    v.push(entry("right_table_id", number(x.right_table_id)));
    v.push(entry("relation_type", Value::String(relation_kind_code(&x.relation_kind))));
    v.push(entry("join_type", text(&x.join_type)));
    v.push(entry("left_column", text(&x.left_column)));
    v.push(entry("right_column", text(&x.right_column)));
    v.push(entry("bridge_table", optional_text(&x.bridge_table)));
    assert(entries_model(v@) =~= relation_row(*x).values);
    row("meta_relation", v)
}

fn policy_to_row(p: &MetaPolicy) -> (r: MetadataPersistenceRow)
    ensures
        r@ == policy_row(*p),
{
    let mut v: Vec<(String, Value)> = Vec::new();
    v.push(entry("id", number(p.id)));
    v.push(entry("table_id", number(p.table_id)));
    v.push(entry("policy_code", text(&p.policy_code)));
    v.push(entry("policy_type", Value::String(policy_kind_code(&p.policy_kind))));
    v.push(entry("policy_expr", optional_filter(&p.filter)));
    v.push(entry("enabled", Value::Bool(p.enabled)));
    assert(entries_model(v@) =~= policy_row(*p).values);
    row("meta_policy", v)
}

fn import_profile_to_row(p: &MetaImportProfile) -> (r: MetadataPersistenceRow)
    ensures
        r@ == import_profile_row(*p),
{
    let mut v: Vec<(String, Value)> = Vec::new();
    v.push(entry("id", number(p.id)));
    v.push(entry("table_id", number(p.table_id)));
    v.push(entry("profile_code", text(&p.profile_code)));
    v.push(entry("display_name", text(&p.display_name)));
    v.push(entry("update_keys", texts(&p.update_keys)));
    assert(entries_model(v@) =~= import_profile_row(*p).values);
    row("meta_import_profile", v)
}

fn import_mapping_to_row(profile_id: i64, m: &MetaImportFieldMapping, id: i64) -> (r: MetadataPersistenceRow)
    ensures
        r@ == import_mapping_row(profile_id as int, *m, id as int),
{
    let mut v: Vec<(String, Value)> = Vec::new();
    v.push(entry("id", number(id)));
    v.push(entry("profile_id", number(profile_id)));
    v.push(entry("source_key", text(&m.source_key)));
    v.push(entry("target_column_code", text(&m.target_column_code)));
    v.push(entry("required", Value::Bool(m.required)));
    assert(entries_model(v@) =~= import_mapping_row(profile_id as int, *m, id as int).values);
    row("meta_import_mapping", v)
}

fn export_profile_to_row(p: &MetaExportProfile) -> (r: MetadataPersistenceRow)
    ensures
        r@ == export_profile_row(*p),
{
    let mut v: Vec<(String, Value)> = Vec::new();
    v.push(entry("id", number(p.id)));
    v.push(entry("table_id", number(p.table_id)));
    v.push(entry("profile_code", text(&p.profile_code)));
    v.push(entry("display_name", text(&p.display_name)));
    v.push(entry("selected_columns", texts(&p.selected_column_codes)));
    v.push(entry("default_filter", optional_filter(&p.default_filter)));
    v.push(entry("order_by", texts(&p.order_by)));
    assert(entries_model(v@) =~= export_profile_row(*p).values);
    row("meta_export_profile", v)
}

/// Builds the persistence snapshot of a catalog.
pub struct MetadataPersistenceMapper;

impl MetadataPersistenceMapper {
    /// The standard metadata schemas and the rows of the catalog. The mappings of all
    /// import profiles are numbered from 1, so there are fewer of them than the largest
    /// `i64`.
    pub fn snapshot_from_catalog(catalog: &MetadataCatalog) -> (r: MetadataPersistenceSnapshot)
        requires
            mapping_count(catalog.import_profiles@) < i64::MAX,
        ensures
            table_schemas_model(r.schemas@) == standard_tables_model(),
            rows_model(r.rows@) == catalog_rows(*catalog),
    {
        let mut rows: Vec<MetadataPersistenceRow> = Vec::new();
        let ghost c = *catalog;

        let n = catalog.datasources.len();
        let mut i: usize = 0;
        while i < n
            invariant
                n == catalog.datasources@.len(),
                i <= n,
                rows_model(rows@) == catalog.datasources@.take(i as int).map_values(|d: MetaDatasource| datasource_row(d)),
            decreases n - i,
        {
            push_row(&mut rows, datasource_to_row(&catalog.datasources[i]));
            assert(catalog.datasources@.take(i + 1).map_values(|d: MetaDatasource| datasource_row(d))
                =~= catalog.datasources@.take(i as int).map_values(|d: MetaDatasource| datasource_row(d)).push(datasource_row(catalog.datasources@[i as int])));
            assert(rows_model(rows@) =~= catalog.datasources@.take(i + 1).map_values(|d: MetaDatasource| datasource_row(d)));
            i = i + 1;
        }
        assert(catalog.datasources@.take(n as int) =~= catalog.datasources@);
        let ghost s1 = rows_model(rows@);

        let n = catalog.tables.len();
        let mut i: usize = 0;
        while i < n
            invariant
                n == catalog.tables@.len(),
                i <= n,
                rows_model(rows@) == s1 + catalog.tables@.take(i as int).map_values(|t: MetaTable| table_row(t)),
            decreases n - i,
        {
            push_row(&mut rows, table_to_row(&catalog.tables[i]));
            assert(catalog.tables@.take(i + 1).map_values(|t: MetaTable| table_row(t))
                =~= catalog.tables@.take(i as int).map_values(|t: MetaTable| table_row(t)).push(table_row(catalog.tables@[i as int])));
            assert(rows_model(rows@) =~= s1 + catalog.tables@.take(i + 1).map_values(|t: MetaTable| table_row(t)));
            i = i + 1;
        }
        assert(catalog.tables@.take(n as int) =~= catalog.tables@);
        let ghost s2 = rows_model(rows@);

        let n = catalog.columns.len();
        let mut i: usize = 0;
        while i < n
            invariant
                n == catalog.columns@.len(),
                i <= n,
                rows_model(rows@) == s2 + catalog.columns@.take(i as int).map_values(|x: MetaColumn| column_row(x)),
            decreases n - i,
        {
            push_row(&mut rows, column_to_row(&catalog.columns[i]));
            assert(catalog.columns@.take(i + 1).map_values(|x: MetaColumn| column_row(x))
                =~= catalog.columns@.take(i as int).map_values(|x: MetaColumn| column_row(x)).push(column_row(catalog.columns@[i as int])));
            assert(rows_model(rows@) =~= s2 + catalog.columns@.take(i + 1).map_values(|x: MetaColumn| column_row(x)));
            i = i + 1;
        }
        assert(catalog.columns@.take(n as int) =~= catalog.columns@);
        let ghost s3 = rows_model(rows@);

        let n = catalog.relations.len();
        let mut i: usize = 0;
        while i < n
            invariant
                n == catalog.relations@.len(),
                i <= n,
                rows_model(rows@) == s3 + catalog.relations@.take(i as int).map_values(|r: MetaRelation| relation_row(r)),
            decreases n - i,
        {
            push_row(&mut rows, relation_to_row(&catalog.relations[i]));
            assert(catalog.relations@.take(i + 1).map_values(|r: MetaRelation| relation_row(r))
                =~= catalog.relations@.take(i as int).map_values(|r: MetaRelation| relation_row(r)).push(relation_row(catalog.relations@[i as int])));
            assert(rows_model(rows@) =~= s3 + catalog.relations@.take(i + 1).map_values(|r: MetaRelation| relation_row(r)));
            i = i + 1;
        }
        assert(catalog.relations@.take(n as int) =~= catalog.relations@);
        let ghost s4 = rows_model(rows@);

        let n = catalog.policies.len();
        let mut i: usize = 0;
        while i < n
            invariant
                n == catalog.policies@.len(),
                i <= n,
                rows_model(rows@) == s4 + catalog.policies@.take(i as int).map_values(|p: MetaPolicy| policy_row(p)),
            decreases n - i,
        {
            push_row(&mut rows, policy_to_row(&catalog.policies[i]));
            assert(catalog.policies@.take(i + 1).map_values(|p: MetaPolicy| policy_row(p))
                =~= catalog.policies@.take(i as int).map_values(|p: MetaPolicy| policy_row(p)).push(policy_row(catalog.policies@[i as int])));
            assert(rows_model(rows@) =~= s4 + catalog.policies@.take(i + 1).map_values(|p: MetaPolicy| policy_row(p)));
            i = i + 1;
        }
        assert(catalog.policies@.take(n as int) =~= catalog.policies@);
        let ghost s5 = rows_model(rows@);

        let mut import_mapping_id: i64 = 1;
        let n = catalog.import_profiles.len();
        let mut i: usize = 0;
        while i < n
            invariant
                n == catalog.import_profiles@.len(),
                i <= n,
                mapping_count(catalog.import_profiles@) < i64::MAX,
                import_mapping_id == 1 + mapping_count(catalog.import_profiles@.take(i as int)),
                rows_model(rows@) == s5 + import_rows(catalog.import_profiles@.take(i as int)),
            decreases n - i,
        {
            let profile = &catalog.import_profiles[i];
            proof {
                lemma_mapping_count_prefix(catalog.import_profiles@, i as int + 1);
                assert(catalog.import_profiles@.take(i + 1).drop_last() =~= catalog.import_profiles@.take(i as int));
                assert(catalog.import_profiles@.take(i + 1).last() == *profile);
            }
            push_row(&mut rows, import_profile_to_row(profile));
            let ghost base = rows_model(rows@);
            let ghost first = import_mapping_id as int;
            let m = profile.field_mappings.len();
            let mut j: usize = 0;
            while j < m
                invariant
                    m == profile.field_mappings@.len(),
                    j <= m,
                    first + m <= i64::MAX,
                    import_mapping_id == first + j,
                    rows_model(rows@) == base + mapping_rows(*profile, first).take(j as int),
                decreases m - j,
            {
                push_row(&mut rows, import_mapping_to_row(profile.id, &profile.field_mappings[j], import_mapping_id));
                assert(mapping_rows(*profile, first).take(j + 1)
                    =~= mapping_rows(*profile, first).take(j as int).push(mapping_rows(*profile, first)[j as int]));
                assert(rows_model(rows@) =~= base + mapping_rows(*profile, first).take(j + 1));
                import_mapping_id = import_mapping_id + 1;
                j = j + 1;
            }
            assert(mapping_rows(*profile, first).take(m as int) =~= mapping_rows(*profile, first));
            assert(rows_model(rows@) =~= s5 + import_rows(catalog.import_profiles@.take(i + 1)));
            i = i + 1;
        }
        assert(catalog.import_profiles@.take(n as int) =~= catalog.import_profiles@);
        let ghost s6 = rows_model(rows@);

        let n = catalog.export_profiles.len();
        let mut i: usize = 0;
        while i < n
            invariant
                n == catalog.export_profiles@.len(),
                i <= n,
                rows_model(rows@) == s6 + catalog.export_profiles@.take(i as int).map_values(|p: MetaExportProfile| export_profile_row(p)),
            decreases n - i,
        {
            push_row(&mut rows, export_profile_to_row(&catalog.export_profiles[i]));
            assert(catalog.export_profiles@.take(i + 1).map_values(|p: MetaExportProfile| export_profile_row(p))
                =~= catalog.export_profiles@.take(i as int).map_values(|p: MetaExportProfile| export_profile_row(p)).push(export_profile_row(catalog.export_profiles@[i as int])));
            assert(rows_model(rows@) =~= s6 + catalog.export_profiles@.take(i + 1).map_values(|p: MetaExportProfile| export_profile_row(p)));
            i = i + 1;
        }
        assert(catalog.export_profiles@.take(n as int) =~= catalog.export_profiles@);
        assert(rows_model(rows@) =~= catalog_rows(*catalog));

        MetadataPersistenceSnapshot { schemas: standard_metadata_tables(), rows }
    }
}

/// Whether `name` names one of the standard metadata tables.
pub open spec fn is_standard_table(name: Seq<char>) -> bool {
    exists|j: int| 0 <= j < standard_tables_model().len() && #[trigger] standard_tables_model()[j].name == name
}

/// Whether every row goes into a standard metadata table.
pub open spec fn rows_in_standard_tables(rows: Seq<RowModel>) -> bool {
    forall|i: int| 0 <= i < rows.len() ==> is_standard_table(#[trigger] rows[i].table)
}

proof fn lemma_standard_table_names()
    ensures
        is_standard_table("meta_datasource"@),
        is_standard_table("meta_table"@),
        is_standard_table("meta_column"@),
        is_standard_table("meta_relation"@),
        is_standard_table("meta_policy"@),
        is_standard_table("meta_import_profile"@),
        is_standard_table("meta_import_mapping"@),
        is_standard_table("meta_export_profile"@),
{
    let t = standard_tables_model();
    assert(t[0].name == "meta_datasource"@);
    assert(t[1].name == "meta_table"@);
    assert(t[2].name == "meta_column"@);
    assert(t[3].name == "meta_relation"@);
    assert(t[4].name == "meta_policy"@);
    assert(t[5].name == "meta_import_profile"@);
    assert(t[6].name == "meta_import_mapping"@);
    assert(t[7].name == "meta_export_profile"@);
}

proof fn lemma_rows_concat(a: Seq<RowModel>, b: Seq<RowModel>)
    requires
        rows_in_standard_tables(a),
        rows_in_standard_tables(b),
    ensures
        rows_in_standard_tables(a + b),
{
    assert forall|i: int| 0 <= i < (a + b).len() implies is_standard_table(#[trigger] (a + b)[i].table) by {
        if i < a.len() {
            assert((a + b)[i] == a[i]);
        } else {
            assert((a + b)[i] == b[i - a.len()]);
        }
    }
}

proof fn lemma_import_rows_standard(profiles: Seq<MetaImportProfile>)
    ensures
        rows_in_standard_tables(import_rows(profiles)),
    decreases profiles.len(),
{
    lemma_standard_table_names();
    if profiles.len() > 0 {
        let p = profiles.last();
        lemma_import_rows_standard(profiles.drop_last());
        let first = seq![import_profile_row(p)];
        let mappings = mapping_rows(p, 1 + mapping_count(profiles.drop_last()));
        assert(rows_in_standard_tables(first));
        assert(rows_in_standard_tables(mappings));
        lemma_rows_concat(import_rows(profiles.drop_last()), first);
        lemma_rows_concat(import_rows(profiles.drop_last()) + first, mappings);
    }
}

/// Every row of a catalog goes into one of the standard metadata tables, so the snapshot's
/// schemas can hold all of its rows.
pub proof fn catalog_rows_fill_standard_tables(c: MetadataCatalog)
    ensures
        rows_in_standard_tables(catalog_rows(c)),
{
    lemma_standard_table_names();
    let d = c.datasources@.map_values(|d: MetaDatasource| datasource_row(d));
    let t = c.tables@.map_values(|t: MetaTable| table_row(t));
    let x = c.columns@.map_values(|x: MetaColumn| column_row(x));
    let r = c.relations@.map_values(|r: MetaRelation| relation_row(r));
    let p = c.policies@.map_values(|p: MetaPolicy| policy_row(p));
    let i = import_rows(c.import_profiles@);
    let e = c.export_profiles@.map_values(|p: MetaExportProfile| export_profile_row(p));
    assert(rows_in_standard_tables(d));
    assert(rows_in_standard_tables(t));
    assert(rows_in_standard_tables(x));
    assert(rows_in_standard_tables(r));
    assert(rows_in_standard_tables(p));
    lemma_import_rows_standard(c.import_profiles@);
    assert(rows_in_standard_tables(e));
    lemma_rows_concat(d, t);
    lemma_rows_concat(d + t, x);
    lemma_rows_concat(d + t + x, r);
    lemma_rows_concat(d + t + x + r, p);
    lemma_rows_concat(d + t + x + r + p, i);
    lemma_rows_concat(d + t + x + r + p + i, e);
}

/// The mappings of a prefix of the profiles are no more than those of all of them.
pub proof fn lemma_mapping_count_prefix(profiles: Seq<MetaImportProfile>, k: int)
    requires
        0 <= k <= profiles.len(),
    ensures
        mapping_count(profiles.take(k)) <= mapping_count(profiles),
        k > 0 ==> mapping_count(profiles.take(k)) == mapping_count(profiles.take(k - 1))
            + profiles[k - 1].field_mappings@.len(),
    decreases profiles.len() - k,
{
    if k > 0 {
        assert(profiles.take(k).drop_last() =~= profiles.take(k - 1));
    }
    if k < profiles.len() {
        lemma_mapping_count_prefix(profiles, k + 1);
        assert(profiles.take(k + 1).drop_last() =~= profiles.take(k));
    } else {
        assert(profiles.take(k) =~= profiles);
    }
}

} // verus!
