use ora_sql_builder::engine::{
    AlterTableBuilder, ColumnDefinition, CreateTableBuilder, DdlValue, DeleteBuilder, DropTableBuilder,
    ForeignKeyDefinition, InsertBuilder, JoinType, MetaSqlEngine, MySqlDialect, OracleDialect, Pagination,
    PostgresDialect, Predicate, Relation, SelectBuilder, SqlServerDialect, SqliteDialect, TableRef,
    UpdateBuilder,
};
use ora_sql_builder::value::Value;

fn num(n: i64) -> Value {
    Value::from_i64(n)
}

fn text(s: &str) -> Value {
    Value::text(s)
}

fn strings(items: &[&str]) -> Vec<String> {
    items.iter().map(|s| s.to_string()).collect()
}

#[test]
fn engine_build_postgres_select_with_relation_predicates_and_pagination() {
    let engine = MetaSqlEngine;
    let dialect = PostgresDialect;
    let query = engine.build_select(
        &dialect,
        SelectBuilder::new(TableRef::new("m_retail").alias("mr"))
            .select("mr.id")
            .select_as("store.name", "store_name")
            .relation(Relation::new(JoinType::Left, "mr", "store_id", TableRef::new("c_store").alias("store"), "id"))
            .predicate(Predicate::eq("mr.owner_id", num(893)))
            .predicate(Predicate::like("store.name", text("%旗舰%")))
            .predicate(Predicate::in_list("mr.status", vec![text("OPEN"), text("CLOSED")]))
            .group_by("mr.id")
            .group_by("store.name")
            .order_by("mr.id DESC")
            .paginate(Pagination { offset: 20, limit: 10 }),
    );

    assert_eq!(
        query.sql,
        "SELECT mr.id, store.name AS store_name FROM m_retail mr LEFT JOIN c_store store ON mr.store_id = store.id WHERE mr.owner_id = $1 AND store.name LIKE $2 AND mr.status IN ($3, $4) GROUP BY mr.id, store.name ORDER BY mr.id DESC LIMIT 10 OFFSET 20".to_string()
    );
    assert_eq!(query.params, vec![num(893), text("%旗舰%"), text("OPEN"), text("CLOSED")]);
}

#[test]
fn engine_build_mysql_insert_uses_question_mark_placeholders() {
    let engine = MetaSqlEngine;
    let dialect = MySqlDialect;
    let query = engine.build_insert(
        &dialect,
        InsertBuilder::new("m_retail").value("id", num(1)).value("code", text("RE-001")).value("enabled", Value::from_bool(true)),
    );

    assert_eq!(query.sql, "INSERT INTO m_retail (id, code, enabled) VALUES (?, ?, ?)".to_string());
    assert_eq!(query.params, vec![num(1), text("RE-001"), Value::from_bool(true)]);
}

#[test]
fn engine_build_oracle_update_uses_numbered_placeholders_in_order() {
    let engine = MetaSqlEngine;
    let dialect = OracleDialect;
    let query = engine.build_update(
        &dialect,
        UpdateBuilder::new("m_retail")
            .set("name", text("新名称"))
            .set("qty", num(30))
            .predicate(Predicate::gte("modified_date", text("2026-01-01")))
            .predicate(Predicate::eq("id", num(1))),
    );

    assert_eq!(query.sql, "UPDATE m_retail SET name = :1, qty = :2 WHERE modified_date >= :3 AND id = :4".to_string());
    assert_eq!(query.params, vec![text("新名称"), num(30), text("2026-01-01"), num(1)]);
}

#[test]
fn engine_build_sql_server_delete_adds_fallback_order_by_for_pagination() {
    let dialect = SqlServerDialect;
    let query = SelectBuilder::new(TableRef::new("meta_table"))
        .select("id")
        .predicate(Predicate::is_null("deleted_at"))
        .paginate(Pagination { offset: 5, limit: 15 })
        .build(&dialect);

    assert_eq!(
        query.sql,
        "SELECT id FROM meta_table WHERE deleted_at IS NULL ORDER BY (SELECT 1) OFFSET 5 ROWS FETCH NEXT 15 ROWS ONLY".to_string()
    );
    assert_eq!(query.params, Vec::<Value>::new());
}

#[test]
fn engine_build_delete_with_raw_and_empty_in_list_is_safe() {
    let engine = MetaSqlEngine;
    let dialect = PostgresDialect;
    let query = engine.build_delete(
        &dialect,
        DeleteBuilder::new("meta_operation_log")
            .predicate(Predicate::raw("tenant_id = 37"))
            .predicate(Predicate::in_list("id", Vec::new())),
    );

    assert_eq!(query.sql, "DELETE FROM meta_operation_log WHERE tenant_id = 37 AND 1 = 0".to_string());
    assert_eq!(query.params, Vec::<Value>::new());
}

#[test]
fn engine_build_sql_server_select_keeps_explicit_order_by_when_paginating() {
    let dialect = SqlServerDialect;
    let query = SelectBuilder::new(TableRef::new("meta_table"))
        .order_by("id DESC")
        .paginate(Pagination { offset: 0, limit: 5 })
        .build(&dialect);

    assert_eq!(query.sql, "SELECT * FROM meta_table ORDER BY id DESC OFFSET 0 ROWS FETCH NEXT 5 ROWS ONLY".to_string());
    assert_eq!(query.params, Vec::<Value>::new());
}

#[test]
fn engine_build_oracle_select_wraps_paginated_query() {
    let dialect = OracleDialect;
    let query = SelectBuilder::new(TableRef::new("meta_table"))
        .select("id")
        .paginate(Pagination { offset: 10, limit: 20 })
        .build(&dialect);

    assert_eq!(
        query.sql,
        "SELECT * FROM (SELECT inner_query.*, ROWNUM AS row_num FROM (SELECT id FROM meta_table) inner_query WHERE ROWNUM <= 30) WHERE row_num > 10".to_string()
    );
    assert_eq!(query.params, Vec::<Value>::new());
}

#[test]
fn engine_build_inner_join_select_renders_join_keyword() {
    let dialect = PostgresDialect;
    let query = SelectBuilder::new(TableRef::new("m_order").alias("o"))
        .select("o.id")
        .relation(Relation::new(JoinType::Inner, "o", "customer_id", TableRef::new("c_customer").alias("c"), "id"))
        .build(&dialect);

    assert_eq!(query.sql, "SELECT o.id FROM m_order o INNER JOIN c_customer c ON o.customer_id = c.id".to_string());
    assert_eq!(query.params, Vec::<Value>::new());
}

#[test]
fn tests_build_postgres_select_with_relation_predicates_and_pagination() {
    let engine = MetaSqlEngine;
    let dialect = PostgresDialect;
    let query = engine.build_select(
        &dialect,
        SelectBuilder::new(TableRef::new("m_retail").alias("mr"))
            .select("mr.id")
            .select_as("store.name", "store_name")
            .relation(Relation::new(JoinType::Left, "mr", "store_id", TableRef::new("c_store").alias("store"), "id"))
            .predicate(Predicate::eq("mr.owner_id", num(893)))
            .predicate(Predicate::like("store.name", text("%旗舰%")))
            .predicate(Predicate::in_list("mr.status", vec![text("OPEN"), text("CLOSED")]))
            .group_by("mr.id")
            .group_by("store.name")
            .order_by("mr.id DESC")
            .paginate(Pagination { offset: 20, limit: 10 }),
    );

    assert_eq!(
        query.sql,
        "SELECT mr.id, store.name AS store_name FROM m_retail mr LEFT JOIN c_store store ON mr.store_id = store.id WHERE mr.owner_id = $1 AND store.name LIKE $2 AND mr.status IN ($3, $4) GROUP BY mr.id, store.name ORDER BY mr.id DESC LIMIT 10 OFFSET 20".to_string()
    );
    assert_eq!(query.params, vec![num(893), text("%旗舰%"), text("OPEN"), text("CLOSED")]);
}

#[test]
fn tests_build_mysql_insert_uses_question_mark_placeholders() {
    let engine = MetaSqlEngine;
    let dialect = MySqlDialect;
    let query = engine.build_insert(
        &dialect,
        InsertBuilder::new("m_retail").value("id", num(1)).value("code", text("RE-001")).value("enabled", Value::from_bool(true)),
    );

    assert_eq!(query.sql, "INSERT INTO m_retail (id, code, enabled) VALUES (?, ?, ?)".to_string());
    assert_eq!(query.params, vec![num(1), text("RE-001"), Value::from_bool(true)]);
}

#[test]
fn tests_build_oracle_update_uses_numbered_placeholders_in_order() {
    let engine = MetaSqlEngine;
    let dialect = OracleDialect;
    let query = engine.build_update(
        &dialect,
        UpdateBuilder::new("m_retail")
            .set("name", text("新名称"))
            .set("qty", num(30))
            .predicate(Predicate::gte("modified_date", text("2026-01-01")))
            .predicate(Predicate::eq("id", num(1))),
    );

    assert_eq!(query.sql, "UPDATE m_retail SET name = :1, qty = :2 WHERE modified_date >= :3 AND id = :4".to_string());
    assert_eq!(query.params, vec![text("新名称"), num(30), text("2026-01-01"), num(1)]);
}

#[test]
fn tests_build_sql_server_delete_adds_fallback_order_by_for_pagination() {
    let dialect = SqlServerDialect;
    let query = SelectBuilder::new(TableRef::new("meta_table"))
        .select("id")
        .predicate(Predicate::is_null("deleted_at"))
        .paginate(Pagination { offset: 5, limit: 15 })
        .build(&dialect);

    assert_eq!(
        query.sql,
        "SELECT id FROM meta_table WHERE deleted_at IS NULL ORDER BY (SELECT 1) OFFSET 5 ROWS FETCH NEXT 15 ROWS ONLY".to_string()
    );
    assert_eq!(query.params, Vec::<Value>::new());
}

#[test]
fn tests_build_delete_with_raw_and_empty_in_list_is_safe() {
    let engine = MetaSqlEngine;
    let dialect = PostgresDialect;
    let query = engine.build_delete(
        &dialect,
        DeleteBuilder::new("meta_operation_log")
            .predicate(Predicate::raw("tenant_id = 37"))
            .predicate(Predicate::in_list("id", Vec::new())),
    );

    assert_eq!(query.sql, "DELETE FROM meta_operation_log WHERE tenant_id = 37 AND 1 = 0".to_string());
    assert_eq!(query.params, Vec::<Value>::new());
}

#[test]
fn tests_build_sql_server_select_keeps_explicit_order_by_when_paginating() {
    let dialect = SqlServerDialect;
    let query = SelectBuilder::new(TableRef::new("meta_table"))
        .order_by("id DESC")
        .paginate(Pagination { offset: 0, limit: 5 })
        .build(&dialect);

    assert_eq!(query.sql, "SELECT * FROM meta_table ORDER BY id DESC OFFSET 0 ROWS FETCH NEXT 5 ROWS ONLY".to_string());
    assert_eq!(query.params, Vec::<Value>::new());
}

#[test]
fn tests_build_oracle_select_wraps_paginated_query() {
    let dialect = OracleDialect;
    let query = SelectBuilder::new(TableRef::new("meta_table"))
        .select("id")
        .paginate(Pagination { offset: 10, limit: 20 })
        .build(&dialect);

    assert_eq!(
        query.sql,
        "SELECT * FROM (SELECT inner_query.*, ROWNUM AS row_num FROM (SELECT id FROM meta_table) inner_query WHERE ROWNUM <= 30) WHERE row_num > 10".to_string()
    );
    assert_eq!(query.params, Vec::<Value>::new());
}

#[test]
fn tests_build_inner_join_select_renders_join_keyword() {
    let dialect = PostgresDialect;
    let query = SelectBuilder::new(TableRef::new("m_order").alias("o"))
        .select("o.id")
        .relation(Relation::new(JoinType::Inner, "o", "customer_id", TableRef::new("c_customer").alias("c"), "id"))
        .build(&dialect);

    assert_eq!(query.sql, "SELECT o.id FROM m_order o INNER JOIN c_customer c ON o.customer_id = c.id".to_string());
    assert_eq!(query.params, Vec::<Value>::new());
}


#[test]
fn build_select_supports_advanced_predicates() {
    let dialect = PostgresDialect;
    let query = SelectBuilder::new(TableRef::new("m_retail").alias("mr"))
        .select("mr.id")
        .predicate(Predicate::eq("mr.owner_id", num(893)))
        .predicate(Predicate::ne("mr.status", text("CANCELLED")))
        .predicate(Predicate::gt("mr.qty", num(0)))
        .predicate(Predicate::gte("mr.bill_date", text("2026-01-01")))
        .predicate(Predicate::lt("mr.bill_date", text("2026-02-01")))
        .predicate(Predicate::lte("mr.bill_date", text("2026-01-31")))
        .predicate(Predicate::between("mr.amt", num(10), num(99)))
        .predicate(Predicate::exists_query(
            "SELECT 1 FROM c_store s WHERE s.id = mr.store_id AND s.enabled = ?",
            vec![text("Y")],
        ))
        .build(&dialect);

    assert_eq!(
        query.sql,
        "SELECT mr.id FROM m_retail mr WHERE mr.owner_id = $1 AND mr.status != $2 AND mr.qty > $3 AND mr.bill_date >= $4 AND mr.bill_date < $5 AND mr.bill_date <= $6 AND mr.amt BETWEEN $7 AND $8 AND EXISTS (SELECT 1 FROM c_store s WHERE s.id = mr.store_id AND s.enabled = $9)".to_string()
    );
    assert_eq!(
        query.params,
        vec![
            num(893),
            text("CANCELLED"),
            num(0),
            text("2026-01-01"),
            text("2026-02-01"),
            text("2026-01-31"),
            num(10),
            num(99),
            text("Y"),
        ]
    );
}

#[test]
fn build_insert_and_update_support_raw_sql_expressions() {
    let dialect = OracleDialect;
    let insert = InsertBuilder::new("m_retail")
        .value("id", num(1))
        .raw_value("created_at", "sysdate")
        .raw_value("docno", "get_sequenceno('RE', 37)")
        .build(&dialect);
    let update = UpdateBuilder::new("m_retail")
        .set("modifierid", num(893))
        .set_raw("modifieddate", "sysdate")
        .predicate(Predicate::eq("id", num(1)))
        .build(&dialect);

    assert_eq!(
        insert.sql,
        "INSERT INTO m_retail (id, created_at, docno) VALUES (:1, sysdate, get_sequenceno('RE', 37))".to_string()
    );
    assert_eq!(insert.params, vec![num(1)]);

    assert_eq!(update.sql, "UPDATE m_retail SET modifierid = :1, modifieddate = sysdate WHERE id = :2".to_string());
    assert_eq!(update.params, vec![num(893), num(1)]);
}

#[test]
fn build_sqlite_select_uses_question_mark_placeholders_and_limit_offset() {
    let dialect = SqliteDialect;
    let query = SelectBuilder::new(TableRef::new("meta_table"))
        .select("id")
        .predicate(Predicate::eq("owner_id", num(37)))
        .predicate(Predicate::between("sort_no", num(1), num(10)))
        .paginate(Pagination { offset: 5, limit: 10 })
        .build(&dialect);

    assert_eq!(
        query.sql,
        "SELECT id FROM meta_table WHERE owner_id = ? AND sort_no BETWEEN ? AND ? LIMIT 10 OFFSET 5".to_string()
    );
    assert_eq!(query.params, vec![num(37), num(1), num(10)]);
}

#[test]
fn build_create_table_supports_metadata_driven_schema_definition() {
    let engine = MetaSqlEngine;
    let dialect = PostgresDialect;
    let query = engine.build_create_table(
        &dialect,
        CreateTableBuilder::new("meta_export_profile")
            .if_not_exists()
            .column(ColumnDefinition::new("id", "BIGINT").not_null())
            .column(ColumnDefinition::new("profile_code", "VARCHAR(64)").not_null().unique())
            .column(ColumnDefinition::new("enabled", "BOOLEAN").not_null().default_value(DdlValue::Boolean(true)))
            .column(ColumnDefinition::new("datasource_id", "BIGINT").not_null())
            .primary_key(strings(&["id"]))
            .foreign_key(
                ForeignKeyDefinition::new(strings(&["datasource_id"]), "meta_datasource", strings(&["id"]))
                    .name("fk_meta_export_profile_datasource")
                    .on_delete("CASCADE"),
            ),
    );

    assert_eq!(
        query.sql,
        "CREATE TABLE IF NOT EXISTS meta_export_profile (id BIGINT NOT NULL, profile_code VARCHAR(64) NOT NULL UNIQUE, enabled BOOLEAN NOT NULL DEFAULT TRUE, datasource_id BIGINT NOT NULL, PRIMARY KEY (id), CONSTRAINT fk_meta_export_profile_datasource FOREIGN KEY (datasource_id) REFERENCES meta_datasource (id) ON DELETE CASCADE)".to_string()
    );
    assert_eq!(query.params, Vec::<Value>::new());
}

#[test]
fn build_alter_and_drop_table_support_schema_evolution() {
    let engine = MetaSqlEngine;
    let dialect = SqliteDialect;
    let alter = engine.build_alter_table(
        &dialect,
        AlterTableBuilder::new("meta_export_profile")
            .add_column(
                ColumnDefinition::new("tenant_scope", "VARCHAR(128)")
                    .not_null()
                    .default_value(DdlValue::String("ALL".to_string())),
            )
            .rename_column("profile_code", "profile_key")
            .add_constraint("ADD CONSTRAINT uq_meta_export_profile_key UNIQUE (profile_key)"),
    );
    let drop = engine.build_drop_table(&dialect, DropTableBuilder::new("meta_export_profile_backup").if_exists());

    assert_eq!(
        alter.sql,
        "ALTER TABLE meta_export_profile ADD COLUMN tenant_scope VARCHAR(128) NOT NULL DEFAULT 'ALL'; ALTER TABLE meta_export_profile RENAME COLUMN profile_code TO profile_key; ALTER TABLE meta_export_profile ADD CONSTRAINT uq_meta_export_profile_key UNIQUE (profile_key)".to_string()
    );
    assert_eq!(alter.params, Vec::<Value>::new());

    assert_eq!(drop.sql, "DROP TABLE IF EXISTS meta_export_profile_backup".to_string());
    assert_eq!(drop.params, Vec::<Value>::new());
}
