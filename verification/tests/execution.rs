use ora_sql_builder::execution::helpers::{connection_limit_of, dialect_for, normalize_built_query_for_execution};
use ora_sql_builder::execution::{
    build_create_queries, schema_plan_from_tables, DeletePlanExecutor, ExecutionError, ExecutionMode,
    ExecutionOptions, MetadataCatalogExecutor, QueryPlanExecutor, QueryResult, SchemaPlanExecutor,
    WritePlanExecutor,
};
use ora_sql_builder::engine::{AnyDialect, BuiltQuery};
use ora_sql_builder::metadata::{
    DatabaseKind, FieldSource, MetaDatasource, MetaTable, MetadataCatalog, MetadataColumnSchema, MetadataColumnType,
    MetadataField, MetadataFilterExpr, MetadataQueryOptions, MetadataQueryRequest, MetadataTableSchema,
};
use ora_sql_builder::metadata::LinkReference;
use ora_sql_builder::metadata_driver::MetadataSqlDriver;
use ora_sql_builder::metadata_plan::{DeletePlan, QueryPlan, SchemaPlan, WritePlan};
use ora_sql_builder::sql::StatementType;
use ora_sql_builder::value::Value;

fn sqlite_datasource() -> MetaDatasource {
    MetaDatasource::new(1, "sqlite_main", "SQLite 主数据源", DatabaseKind::Sqlite, "sqlite::memory:")
}

fn postgres_datasource() -> MetaDatasource {
    MetaDatasource::new(2, "pg", "PG", DatabaseKind::Postgres, "postgres://demo")
}

fn custom_datasource() -> MetaDatasource {
    MetaDatasource::new(3, "duck", "Duck", DatabaseKind::Custom("duckdb".to_string()), "duckdb://")
}

fn planning_message(e: ExecutionError) -> String {
    match e {
        ExecutionError::Planning(message) => message,
        other => panic!("unexpected error {:?}", other),
    }
}

fn retail_insert() -> MetadataQueryRequest {
    MetadataQueryRequest::new(
        893,
        StatementType::INSERT,
        vec![
            MetadataField::new("m_retail", FieldSource::Column("name".to_string()))
                .with_access("1")
                .with_value(Value::text("苹果")),
            MetadataField::new("m_retail", FieldSource::Column("tenant_id".to_string()))
                .with_access("1")
                .with_value(Value::from_i64(37)),
        ],
    )
    .with_options(MetadataQueryOptions { id: Some(1), ..Default::default() })
}

#[test]
fn execution_options_default_to_a_real_query() {
    let options = ExecutionOptions::default();
    assert_eq!(options.mode, ExecutionMode::Query);
    assert!(!options.dry_run);
    assert!(!options.transactional);
    assert_eq!(options.max_rows, None);
}

#[test]
fn dialects_follow_the_database_kind() {
    assert!(matches!(dialect_for(&DatabaseKind::Sqlite), Ok(AnyDialect::Sqlite)));
    assert!(matches!(dialect_for(&DatabaseKind::Postgres), Ok(AnyDialect::Postgres)));
    assert!(matches!(dialect_for(&DatabaseKind::MySql), Ok(AnyDialect::MySql)));
    assert!(matches!(dialect_for(&DatabaseKind::Oracle), Ok(AnyDialect::Oracle)));
    assert!(matches!(dialect_for(&DatabaseKind::SqlServer), Ok(AnyDialect::SqlServer)));
    let error = dialect_for(&DatabaseKind::Custom("duckdb".to_string())).err().unwrap();
    assert_eq!(planning_message(error), "custom datasource kind 'duckdb' requires a custom dialect binding".to_string());
}

#[test]
fn write_preview_binds_parameters_in_the_datasource_dialect() {
    let plan = WritePlan::from_insert_request(&retail_insert());
    let built = WritePlanExecutor.preview(&sqlite_datasource(), &plan).unwrap();
    assert_eq!(
        built.sql,
        "INSERT INTO m_retail (id, ad_client_id, ad_org_id, ownerid, modifiered, creationdate, modifieddate, name, tenant_id) VALUES (?, ?, ?, ?, ?, sysdate, sysdate, ?, ?)".to_string()
    );
    let pg = WritePlanExecutor.preview(&postgres_datasource(), &plan).unwrap();
    assert_eq!(
        pg.sql,
        "INSERT INTO m_retail (id, ad_client_id, ad_org_id, ownerid, modifiered, creationdate, modifieddate, name, tenant_id) VALUES ($1, $2, $3, $4, $5, sysdate, sysdate, $6, $7)".to_string()
    );
    assert_eq!(built.params, pg.params);
    assert_eq!(
        built.params,
        vec![
            Value::from_i64(1),
            Value::from_i64(37),
            Value::from_i64(27),
            Value::from_i64(893),
            Value::from_i64(893),
            Value::text("苹果"),
            Value::from_i64(37),
        ]
    );
    let runnable = normalize_built_query_for_execution(&sqlite_datasource(), built);
    assert_eq!(
        runnable.sql,
        "INSERT INTO m_retail (id, ad_client_id, ad_org_id, ownerid, modifiered, creationdate, modifieddate, name, tenant_id) VALUES (?, ?, ?, ?, ?, CURRENT_TIMESTAMP, CURRENT_TIMESTAMP, ?, ?)".to_string()
    );
    assert_eq!(runnable.params.len(), 7);
}

#[test]
fn only_sqlite_rewrites_sysdate() {
    let built = BuiltQuery { sql: "UPDATE t SET d = sysdate, e = sysdate".to_string(), params: vec![] };
    let kept = normalize_built_query_for_execution(&postgres_datasource(), built);
    assert_eq!(kept.sql, "UPDATE t SET d = sysdate, e = sysdate".to_string());
    let rewritten = normalize_built_query_for_execution(&sqlite_datasource(), kept);
    assert_eq!(rewritten.sql, "UPDATE t SET d = CURRENT_TIMESTAMP, e = CURRENT_TIMESTAMP".to_string());
    let plain = BuiltQuery { sql: "SELECT sysdat, sys date FROM dual".to_string(), params: vec![Value::Null] };
    let unchanged = normalize_built_query_for_execution(&sqlite_datasource(), plain);
    assert_eq!(unchanged.sql, "SELECT sysdat, sys date FROM dual".to_string());
    assert_eq!(unchanged.params, vec![Value::Null]);
}

#[test]
fn query_and_delete_previews_use_the_plan_request() {
    let query_request = MetadataQueryRequest::new(
        893,
        StatementType::SELECT,
        vec![
            MetadataField::new("m_retail", FieldSource::Column("id".to_string())),
            MetadataField::new("m_retail", FieldSource::Column("name".to_string())).with_access("1").with_output_alias("name"),
        ],
    )
    .with_options(MetadataQueryOptions { table_filter: Some("tenant_id = 37".to_string()), ..Default::default() })
    .with_filters(vec![MetadataFilterExpr::eq("name", Value::text("苹果"))]);
    let query = QueryPlanExecutor.preview(&sqlite_datasource(), &QueryPlan::from_request(&query_request)).unwrap();
    assert_eq!(
        query.sql,
        "SELECT m_retail.id AS \"id\", m_retail.name AS \"name\" FROM m_retail WHERE tenant_id = 37 AND m_retail.name = ?".to_string()
    );
    assert_eq!(query.params, vec![Value::text("苹果")]);

    let delete_request = MetadataQueryRequest::new(
        893,
        StatementType::DELETE,
        vec![MetadataField::new("m_retail", FieldSource::Column("id".to_string()))],
    )
    .with_options(MetadataQueryOptions { id: Some(1), table_filter: Some("tenant_id = 37".to_string()), ..Default::default() });
    let delete = DeletePlanExecutor.preview(&sqlite_datasource(), &DeletePlan::from_request(&delete_request)).unwrap();
    assert_eq!(delete.sql, "DELETE FROM m_retail WHERE tenant_id = 37 AND id = ?".to_string());
    assert_eq!(delete.params, vec![Value::from_i64(1)]);

    let error = DeletePlanExecutor.preview(&custom_datasource(), &DeletePlan::from_request(&delete_request)).err().unwrap();
    assert_eq!(planning_message(error), "custom datasource kind 'duckdb' requires a custom dialect binding".to_string());
}

#[test]
fn schema_preview_creates_missing_tables_in_order() {
    let plan = schema_plan_from_tables(vec![
        MetadataTableSchema::new("m_retail")
            .column(MetadataColumnSchema::new("id", MetadataColumnType::BigInt).not_null())
            .column(MetadataColumnSchema::new("creationdate", MetadataColumnType::DateTime).not_null())
            .column(MetadataColumnSchema::new("name", MetadataColumnType::Varchar(64)).not_null())
            .primary_key(vec!["id".to_string()]),
        MetadataTableSchema::new("m_note").column(MetadataColumnSchema::new("body", MetadataColumnType::Text)),
    ]);
    let queries = SchemaPlanExecutor.preview(&sqlite_datasource(), &plan).unwrap();
    assert_eq!(queries.len(), 2);
    assert_eq!(
        queries[0].sql,
        "CREATE TABLE IF NOT EXISTS m_retail (id BIGINT NOT NULL, creationdate TIMESTAMP NOT NULL, name VARCHAR(64) NOT NULL, PRIMARY KEY (id))".to_string()
    );
    assert_eq!(queries[1].sql, "CREATE TABLE IF NOT EXISTS m_note (body TEXT)".to_string());
    assert!(queries.iter().all(|q| q.params.is_empty()));
    assert!(build_create_queries(&custom_datasource(), &plan).is_err());
    let standard = build_create_queries(&postgres_datasource(), &SchemaPlan::from_standard_metadata()).unwrap();
    assert_eq!(standard.len(), 9);
    assert!(standard[0].sql.starts_with("CREATE TABLE IF NOT EXISTS meta_datasource ("));
}

#[test]
fn catalog_preview_inserts_every_row() {
    let catalog = MetadataCatalog::new()
        .datasource(MetaDatasource::new(1, "main", "主数据源", DatabaseKind::Postgres, "postgres://demo"))
        .table(MetaTable::new(10, 1, "retail", "m_retail", "零售单"));
    let queries = MetadataCatalogExecutor.preview(&sqlite_datasource(), &catalog).unwrap();
    assert_eq!(queries.len(), 2);
    assert!(queries[0].sql.starts_with("INSERT INTO meta_datasource (id, "));
    assert!(queries[1].sql.starts_with("INSERT INTO meta_table (id, "));
    assert_eq!(queries[0].params[0], Value::from_i64(1));
    assert_eq!(queries[1].params[0], Value::from_i64(10));
    assert!(queries[0].sql.contains("VALUES (?"));
    assert!(MetadataCatalogExecutor.preview(&custom_datasource(), &catalog).is_err());
}

#[test]
fn query_results_keep_at_most_max_rows() {
    let rows = vec![Value::from_i64(1), Value::from_i64(2), Value::from_i64(3)];
    let limited = QueryResult::limited("SELECT 1".to_string(), rows.clone(), Some(2));
    assert_eq!(limited.rows, vec![Value::from_i64(1), Value::from_i64(2)]);
    assert_eq!(limited.row_count, 2);
    let all = QueryResult::limited("SELECT 1".to_string(), rows.clone(), Some(10));
    assert_eq!(all.row_count, 3);
    let unlimited = QueryResult::limited("SELECT 1".to_string(), rows, None);
    assert_eq!(unlimited.rows.len(), 3);
    let dry = QueryResult::limited("SELECT 1".to_string(), Vec::new(), None);
    assert_eq!(dry.row_count, 0);
}

#[test]
fn connection_limits_come_from_the_options() {
    let options = |v: Value| Value::Object(vec![("max_connections".to_string(), v)]);
    assert_eq!(connection_limit_of(&Value::Null), 1);
    assert_eq!(connection_limit_of(&options(Value::from_i64(5))), 5);
    assert_eq!(connection_limit_of(&options(Value::number_text("4294967296"))), u32::MAX);
    assert_eq!(connection_limit_of(&options(Value::number_text("18446744073709551616"))), 1);
    assert_eq!(connection_limit_of(&options(Value::number_text("2.5"))), 1);
    assert_eq!(connection_limit_of(&options(Value::from_i64(-3))), 1);
    assert_eq!(connection_limit_of(&options(Value::text("7"))), 1);
    assert_eq!(connection_limit_of(&Value::Object(vec![("other".to_string(), Value::from_i64(9))])), 1);
}

#[test]
fn requests_the_driver_cannot_build_are_recognised() {
    assert!(MetadataSqlDriver::new(retail_insert()).is_ready());
    let empty = MetadataQueryRequest::new(1, StatementType::SELECT, Vec::new());
    assert!(!MetadataSqlDriver::new(empty).is_ready());
    let no_id = MetadataQueryRequest::new(
        1,
        StatementType::INSERT,
        vec![MetadataField::new("m", FieldSource::Column("a".to_string()))],
    );
    assert!(!MetadataSqlDriver::new(no_id).is_ready());
    let stepless = MetadataQueryRequest::new(
        1,
        StatementType::SELECT,
        vec![MetadataField::new("m", FieldSource::Linked(LinkReference { steps: Vec::new(), target_column: "name".to_string() }))],
    );
    assert!(!MetadataSqlDriver::new(stepless).is_ready());
    let too_big = MetadataQueryRequest::new(
        1,
        StatementType::UPDATE,
        vec![MetadataField::new("m", FieldSource::Column("a".to_string())).with_value(Value::text("9223372036854775808"))],
    );
    assert!(!MetadataSqlDriver::new(too_big).is_ready());
    let fits = MetadataQueryRequest::new(
        1,
        StatementType::UPDATE,
        vec![MetadataField::new("m", FieldSource::Column("a".to_string())).with_value(Value::text("9223372036854775807"))],
    );
    assert!(MetadataSqlDriver::new(fits).is_ready());
}
