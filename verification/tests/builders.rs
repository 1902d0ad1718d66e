use ora_sql_builder::engine::{
    AlterTableBuilder, ColumnDefinition, CreateTableBuilder, DdlValue, DeleteBuilder, DropTableBuilder,
    ForeignKeyDefinition, JoinType, MetaSqlEngine, MySqlDialect, Pagination, PostgresDialect, Predicate, Relation,
    SelectBuilder, SqlServerDialect, SqliteDialect, TableRef,
};
use ora_sql_builder::metadata::{
    DatabaseKind, FieldSource, MetaDatasource, MetadataField, MetadataFilterExpr, MetadataQueryOptions,
    MetadataQueryRequest,
};
use ora_sql_builder::metadata_driver::MetadataSqlDriver;
use ora_sql_builder::sql::StatementType;
use ora_sql_builder::value::Value;

#[test]
fn alter_table_renders_each_operation_as_its_own_statement() {
    let alter = MetaSqlEngine.build_alter_table(
        &SqliteDialect,
        AlterTableBuilder::new("t")
            .drop_column("a")
            .rename_table("u")
            .raw("ADD COLUMN b INT")
            .add_column(ColumnDefinition::new("c", "TEXT").default_value(DdlValue::Null)),
    );
    assert_eq!(
        alter.sql,
        "ALTER TABLE t DROP COLUMN a; ALTER TABLE t RENAME TO u; ALTER TABLE t ADD COLUMN b INT; ALTER TABLE t ADD COLUMN c TEXT DEFAULT NULL".to_string()
    );
    assert!(alter.params.is_empty());
}

#[test]
fn drop_table_can_cascade() {
    let drop = MetaSqlEngine.build_drop_table(&PostgresDialect, DropTableBuilder::new("t").if_exists().cascade());
    assert_eq!(drop.sql, "DROP TABLE IF EXISTS t CASCADE".to_string());
    let plain = DropTableBuilder::new("t").build(&PostgresDialect);
    assert_eq!(plain.sql, "DROP TABLE t".to_string());
}

#[test]
fn foreign_keys_render_both_actions() {
    let create = CreateTableBuilder::new("child")
        .column(ColumnDefinition::new("parent_id", "BIGINT"))
        .foreign_key(
            ForeignKeyDefinition::new(vec!["parent_id".to_string()], "parent", vec!["id".to_string()])
                .on_delete("CASCADE")
                .on_update("RESTRICT"),
        )
        .build(&MySqlDialect);
    assert_eq!(
        create.sql,
        "CREATE TABLE child (parent_id BIGINT, FOREIGN KEY (parent_id) REFERENCES parent (id) ON DELETE CASCADE ON UPDATE RESTRICT)".to_string()
    );
}

#[test]
fn delete_without_predicates_has_no_where() {
    let delete = DeleteBuilder::new("t").build(&PostgresDialect);
    assert_eq!(delete.sql, "DELETE FROM t".to_string());
}

#[test]
fn right_joins_and_having_render_in_place() {
    let query = SelectBuilder::new(TableRef::new("o"))
        .select("o.id")
        .relation(Relation::new(JoinType::Right, "o", "c_id", TableRef::new("c"), "id"))
        .group_by("o.id")
        .having(Predicate::gt("count(1)", Value::from_i64(2)))
        .build(&PostgresDialect);
    assert_eq!(
        query.sql,
        "SELECT o.id FROM o RIGHT JOIN c ON o.c_id = c.id GROUP BY o.id HAVING count(1) > $1".to_string()
    );
    assert_eq!(query.params, vec![Value::from_i64(2)]);
}

#[test]
fn having_filters_of_a_request_follow_its_where_filters() {
    let request = MetadataQueryRequest::new(
        1,
        StatementType::SELECT,
        vec![
            MetadataField::new("m", FieldSource::Column("dept".to_string())).with_access("1"),
            MetadataField::new("m", FieldSource::Formula("sum(qty)".to_string())).with_access("1").with_output_alias("total"),
        ],
    )
    .with_options(MetadataQueryOptions { grouped: true, ..Default::default() })
    .with_filters(vec![MetadataFilterExpr::eq("dept", Value::text("A"))])
    .with_having(vec![MetadataFilterExpr::gt("total", Value::from_i64(10))]);
    let query = MetadataSqlDriver::new(request).build(&PostgresDialect);
    assert_eq!(
        query.sql,
        "SELECT m.dept AS \"dept\", sum(qty) AS \"total\" FROM m WHERE m.dept = $1 GROUP BY m.dept HAVING sum(qty) > $2 ORDER BY m.dept".to_string()
    );
    assert_eq!(query.params, vec![Value::text("A"), Value::from_i64(10)]);
}

#[test]
fn datasources_and_fields_take_their_optional_settings() {
    let datasource = MetaDatasource::new(1, "main", "Main", DatabaseKind::MySql, "mysql://")
        .with_default_schema("app");
    assert_eq!(datasource.default_schema, Some("app".to_string()));
    let field = MetadataField::new("v_store", FieldSource::Column("id".to_string())).with_real_table("c_store");
    assert_eq!(field.real_table, Some("c_store".to_string()));
}

#[test]
fn pages_past_the_usize_sum_are_written_where_the_dialect_does_not_add() {
    let query = SelectBuilder::new(TableRef::new("t")).paginate(Pagination { offset: usize::MAX, limit: 10 }).build(&MySqlDialect);
    assert_eq!(query.sql, format!("SELECT * FROM t LIMIT 10 OFFSET {}", usize::MAX));
    let server = SelectBuilder::new(TableRef::new("t"))
        .paginate(Pagination { offset: usize::MAX, limit: usize::MAX })
        .build(&SqlServerDialect);
    assert_eq!(
        server.sql,
        format!("SELECT * FROM t ORDER BY (SELECT 1) OFFSET {} ROWS FETCH NEXT {} ROWS ONLY", usize::MAX, usize::MAX)
    );
}

#[test]
fn ddl_values_convert_from_texts_flags_and_numbers() {
    assert_eq!(DdlValue::from("ALL"), DdlValue::String("ALL".to_string()));
    assert_eq!(DdlValue::from("x".to_string()), DdlValue::String("x".to_string()));
    assert_eq!(DdlValue::from(true), DdlValue::Boolean(true));
    assert_eq!(DdlValue::from(-7i32), DdlValue::Number("-7".to_string()));
    assert_eq!(DdlValue::from(i64::MIN), DdlValue::Number(i64::MIN.to_string()));
    assert_eq!(DdlValue::from(7u32), DdlValue::Number("7".to_string()));
    assert_eq!(DdlValue::from(u64::MAX), DdlValue::Number(u64::MAX.to_string()));
    assert_eq!(DdlValue::from(12usize), DdlValue::Number("12".to_string()));
    let create = CreateTableBuilder::new("t")
        .column(ColumnDefinition::new("enabled", "BOOLEAN").default_value(true.into()))
        .column(ColumnDefinition::new("scope", "TEXT").default_value("ALL".into()))
        .column(ColumnDefinition::new("qty", "INT").default_value(0i64.into()))
        .build(&SqliteDialect);
    assert_eq!(
        create.sql,
        "CREATE TABLE t (enabled BOOLEAN DEFAULT TRUE, scope TEXT DEFAULT 'ALL', qty INT DEFAULT 0)".to_string()
    );
}
