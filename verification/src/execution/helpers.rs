//! The dialect of a datasource and the statements built for it.

use vstd::prelude::*;

use super::ExecutionError;
use crate::engine::builders::{insert_text, InsertModel, SqlValueModel};
use crate::engine::ddl::{create_table_text, CreateTableModel};
use crate::engine::{AnyDialect, BuiltQuery, InsertBuilder, MetaSqlEngine, SqlDialect};
use crate::metadata::schema::create_table_of;
use crate::metadata::{DatabaseKind, MetaDatasource, MetadataTableSchema};
use crate::metadata_plan::SchemaPlan;
use crate::text::{occurs_in, replace_all, replaced, replacing_absent_text_changes_nothing};
use crate::metadata_driver::filters::{object_get, object_value};
use crate::metadata_driver::helpers::{all_digits, digits_u64, digits_value};
use crate::value::{entries_model, lemma_object_view, values_model, Value, ValueModel};

verus! {

/// The built-in dialect of a database kind; a custom kind has none.
pub open spec fn dialect_of(kind: DatabaseKind) -> Option<AnyDialect> {
    match kind {
        DatabaseKind::Sqlite => Some(AnyDialect::Sqlite),
        DatabaseKind::Postgres => Some(AnyDialect::Postgres),
        DatabaseKind::MySql => Some(AnyDialect::MySql),
        DatabaseKind::Oracle => Some(AnyDialect::Oracle),
        DatabaseKind::SqlServer => Some(AnyDialect::SqlServer),
        DatabaseKind::Custom(_) => None,
    }
}

/// Why a custom database kind cannot be planned for.
pub open spec fn custom_kind_message(kind: Seq<char>) -> Seq<char> {
    "custom datasource kind '"@ + kind + "' requires a custom dialect binding"@
}

/// Whether `e` is the planning error of the custom kind `kind`.
pub open spec fn is_custom_kind_error(e: ExecutionError, kind: DatabaseKind) -> bool {
    &&& kind matches DatabaseKind::Custom(k)
    &&& e matches ExecutionError::Planning(m)
    &&& m@ == custom_kind_message(k@)
}

/// The dialect a datasource of `database_kind` is queried in.
pub fn dialect_for(database_kind: &DatabaseKind) -> (r: Result<AnyDialect, ExecutionError>)
    ensures
        match r {
            Ok(d) => dialect_of(*database_kind) == Some(d),
            Err(e) => dialect_of(*database_kind) is None && is_custom_kind_error(e, *database_kind),
        },
{
    match database_kind {
        DatabaseKind::Sqlite => Ok(AnyDialect::Sqlite),
        DatabaseKind::Postgres => Ok(AnyDialect::Postgres),
        DatabaseKind::MySql => Ok(AnyDialect::MySql),
        DatabaseKind::Oracle => Ok(AnyDialect::Oracle),
        DatabaseKind::SqlServer => Ok(AnyDialect::SqlServer),
        DatabaseKind::Custom(kind) => {
            let mut message = "custom datasource kind '".to_owned();
            message.append(kind.as_str());
            message.append("' requires a custom dialect binding");
            Err(ExecutionError::Planning(message))
        },
    }
}

/// The insert of a row whose columns are bound as parameters, in order.
pub open spec fn row_insert(table: Seq<char>, values: Seq<(Seq<char>, ValueModel)>) -> InsertModel {
    InsertModel {
        table,
        assignments: values.map_values(|e: (Seq<char>, ValueModel)| (e.0, SqlValueModel::Param(e.1))),
    }
}

/// The `INSERT` of one row into `table`, every value bound as a parameter.
pub fn build_insert_from_row<D: SqlDialect>(table: &str, values: &[(String, Value)], dialect: &D) -> (r: BuiltQuery)
    ensures
        r.sql@ == insert_text(*dialect, row_insert(table@, entries_model(values@))).0,
        values_model(r.params@) == insert_text(*dialect, row_insert(table@, entries_model(values@))).1,
{
    let ghost target = row_insert(table@, entries_model(values@));
    let mut builder = InsertBuilder::new(table);
    assert(target.assignments.take(0) =~= Seq::<(Seq<char>, SqlValueModel)>::empty());
    let n = values.len();
    let mut i: usize = 0;
    while i < n
        invariant
            n == values@.len(),
            i <= n,
            target == row_insert(table@, entries_model(values@)),
            builder@ == (InsertModel { assignments: target.assignments.take(i as int), ..target }),
        decreases n - i,
    {
        let (column, value) = &values[i];
        let ghost before = builder@;
        builder = builder.value(column.as_str(), value.duplicate());
        assert(builder@.assignments =~= target.assignments.take(i + 1));
        i = i + 1;
    }
    assert(target.assignments.take(n as int) =~= target.assignments);
    builder.build(dialect)
}

/// The SQL as a datasource runs it: SQLite knows `CURRENT_TIMESTAMP`, not `sysdate`.
pub open spec fn executable_sql(kind: DatabaseKind, sql: Seq<char>) -> Seq<char> {
    if kind is Sqlite {
        replaced(sql, "sysdate"@, "CURRENT_TIMESTAMP"@)
    } else {
        sql
    }
}

/// A statement without `sysdate` runs unchanged on every datasource.
pub proof fn statements_without_sysdate_run_unchanged(kind: DatabaseKind, sql: Seq<char>)
    requires
        !occurs_in(sql, "sysdate"@),
    ensures
        executable_sql(kind, sql) == sql,
{
    replacing_absent_text_changes_nothing(sql, "sysdate"@, "CURRENT_TIMESTAMP"@);
}

/// A built query made runnable on `datasource`; its parameters are kept.
pub fn normalize_built_query_for_execution(datasource: &MetaDatasource, built: BuiltQuery) -> (r: BuiltQuery)
    ensures
        r.sql@ == executable_sql(datasource.database_kind, built.sql@),
        r.params == built.params,
{
    let mut built = built;
    if matches!(datasource.database_kind, DatabaseKind::Sqlite) {
        proof {
            reveal_strlit("sysdate");
        }
        built.sql = replace_all(built.sql.as_str(), "sysdate", "CURRENT_TIMESTAMP");
    }
    built
}

/// A plan that creates `tables`, in order.
pub fn schema_plan_from_tables(tables: Vec<MetadataTableSchema>) -> (r: SchemaPlan)
    ensures
        r.tables == tables,
{
    SchemaPlan { tables }
}

/// The `CREATE TABLE IF NOT EXISTS` statement of a table schema.
pub open spec fn create_if_missing_text(t: crate::metadata::schema::TableSchemaModel) -> Seq<char> {
    create_table_text(CreateTableModel { if_not_exists: true, ..create_table_of(t) })
}

/// The `CREATE TABLE IF NOT EXISTS` statements of a plan's tables, in order, in the
/// dialect of `datasource`; a custom datasource kind fails to plan.
pub fn build_create_queries(datasource: &MetaDatasource, plan: &SchemaPlan) -> (r: Result<Vec<BuiltQuery>, ExecutionError>)
    ensures
        match r {
            Ok(queries) => {
                &&& dialect_of(datasource.database_kind) is Some
                &&& queries@.len() == plan.tables@.len()
                &&& forall|i: int| 0 <= i < queries@.len() ==> {
                    &&& (#[trigger] queries@[i]).sql@ == create_if_missing_text(plan.tables@[i]@)
                    &&& queries@[i].params@.len() == 0
                }
            },
            Err(e) => dialect_of(datasource.database_kind) is None && is_custom_kind_error(e, datasource.database_kind),
        },
{
    let engine = MetaSqlEngine;
    let dialect = match dialect_for(&datasource.database_kind) {
        Ok(d) => d,
        Err(e) => return Err(e),
    };
    let mut queries: Vec<BuiltQuery> = Vec::new();
    let n = plan.tables.len();
    let mut i: usize = 0;
    while i < n
        invariant
            n == plan.tables@.len(),
            i <= n,
            queries@.len() == i,
            forall|j: int| 0 <= j < i ==> {
                &&& (#[trigger] queries@[j]).sql@ == create_if_missing_text(plan.tables@[j]@)
                &&& queries@[j].params@.len() == 0
            },
        decreases n - i,
    {
        let builder = plan.tables[i].to_create_table_builder().if_not_exists();
        queries.push(engine.build_create_table(&dialect, builder));
        i = i + 1;
    }
    Ok(queries)
}

/// Every query of `queries` made runnable on `datasource`, in order.
pub fn normalize_all(datasource: &MetaDatasource, queries: Vec<BuiltQuery>) -> (r: Vec<BuiltQuery>)
    ensures
        r@.len() == queries@.len(),
        forall|i: int| 0 <= i < r@.len() ==> {
            &&& (#[trigger] r@[i]).sql@ == executable_sql(datasource.database_kind, queries@[i].sql@)
            &&& r@[i].params == queries@[i].params
        },
{
    let ghost given = queries@;
    let mut out: Vec<BuiltQuery> = Vec::new();
    let mut rest = queries;
    let n = rest.len();
    let mut i: usize = 0;
    while i < n
        invariant
            n == given.len(),
            i <= n,
            rest@ == given.skip(i as int),
            out@.len() == i,
            forall|j: int| 0 <= j < i ==> {
                &&& (#[trigger] out@[j]).sql@ == executable_sql(datasource.database_kind, given[j].sql@)
                &&& out@[j].params == given[j].params
            },
        decreases n - i,
    {
        let q = rest.remove(0);
        assert(rest@ =~= given.skip(i + 1));
        out.push(normalize_built_query_for_execution(datasource, q));
        i = i + 1;
    }
    out
}

/// The SQL texts of `queries`, in order.
pub fn sql_texts(queries: &Vec<BuiltQuery>) -> (r: Vec<String>)
    ensures
        r@.len() == queries@.len(),
        forall|i: int| 0 <= i < r@.len() ==> (#[trigger] r@[i])@ == queries@[i].sql@,
{
    let mut out: Vec<String> = Vec::new();
    let n = queries.len();
    let mut i: usize = 0;
    while i < n
        invariant
            n == queries@.len(),
            i <= n,
            out@.len() == i,
            forall|j: int| 0 <= j < i ==> (#[trigger] out@[j])@ == queries@[j].sql@,
        decreases n - i,
    {
        out.push(crate::text::copy_string(&queries[i].sql));
        i = i + 1;
    }
    out
}

/// How many connections a datasource's options ask for: a `max_connections` entry that
/// is a whole number fitting in 64 bits, at most `u32::MAX`; 1 when there is none.
pub open spec fn connection_limit(options: ValueModel) -> nat {
    let requested = match options {
        ValueModel::Object(entries) => object_get(entries, "max_connections"@),
        _ => None,
    };
    match requested {
        Some(ValueModel::Number(t)) => if all_digits(t) && digits_value(t) <= u64::MAX {
            if digits_value(t) <= u32::MAX { digits_value(t) } else { u32::MAX as nat }
        } else {
            1
        },
        _ => 1,
    }
}

/// How many connections to open for a datasource with `options`.
pub fn connection_limit_of(options: &Value) -> (r: u32)
    ensures
        r == connection_limit(options@),
{
    match options {
        Value::Object(entries) => {
            proof {
                lemma_object_view(*entries);
            }
            match object_value(entries, "max_connections") {
                Some(Value::Number(t)) => match digits_u64(t.as_str()) {
                    Some(v) => if v <= 4294967295 { v as u32 } else { 4294967295 },
                    None => 1,
                },
                _ => 1,
            }
        },
        _ => 1,
    }
}

} // verus!
