use ora_sql_builder::engine::SqliteDialect;
use ora_sql_builder::metadata::{DatabaseKind, FieldInputKind, FieldSource, MetadataColumnType, MetadataFilterExpr};
use ora_sql_builder::metadata_demo::{
    demo_sales_table_schemas, direct_order_insert_request, imported_order_insert_request, order_delete_request,
    order_export_request, order_query_request, order_update_request, sqlite_demo_datasource,
};
use ora_sql_builder::metadata_driver::MetadataSqlDriver;
use ora_sql_builder::sql::StatementType;
use ora_sql_builder::value::Value;

#[test]
fn demo_datasource_is_an_in_memory_sqlite_with_one_connection() {
    let datasource = sqlite_demo_datasource();
    assert_eq!(datasource.id, 1);
    assert_eq!(datasource.code, "sqlite_demo".to_string());
    assert_eq!(datasource.name, "SQLite Demo Datasource".to_string());
    assert_eq!(datasource.database_kind, DatabaseKind::Sqlite);
    assert_eq!(datasource.connection_uri, "sqlite::memory:".to_string());
    assert!(datasource.enabled);
    assert_eq!(datasource.options, Value::Object(vec![("max_connections".to_string(), Value::from_i64(1))]));
}

#[test]
fn demo_schemas_describe_stores_customers_and_orders() {
    let schemas = demo_sales_table_schemas();
    let names: Vec<&str> = schemas.iter().map(|t| t.name.as_str()).collect();
    assert_eq!(names, vec!["demo_store", "demo_customer", "demo_sale_order"]);
    assert_eq!(schemas[0].columns.len(), 3);
    assert_eq!(schemas[1].columns.len(), 4);
    assert_eq!(schemas[2].columns.len(), 15);
    assert!(schemas.iter().all(|t| t.primary_key == vec!["id".to_string()]));
    assert!(schemas.iter().all(|t| t.columns.iter().all(|c| !c.nullable)));
    let modifier = &schemas[2].columns[5];
    assert_eq!(modifier.name, "modifierid".to_string());
    assert_eq!(modifier.default_raw, Some("0".to_string()));
    assert_eq!(schemas[2].columns[12].column_type, MetadataColumnType::Decimal { precision: 18, scale: 2 });
}

#[test]
fn order_query_filters_open_or_approved_enabled_orders() {
    let request = order_query_request();
    assert_eq!(request.user_id, 893);
    assert_eq!(request.statement_type, StatementType::SELECT);
    assert_eq!(request.fields.len(), 6);
    assert_eq!(request.options.table_filter, Some("tenant_id = 37".to_string()));
    assert_eq!(
        request.filters,
        vec![MetadataFilterExpr::and(vec![
            MetadataFilterExpr::or(vec![
                MetadataFilterExpr::eq("status", Value::text("OPEN")),
                MetadataFilterExpr::eq("status", Value::text("APPROVED")),
            ]),
            MetadataFilterExpr::between("total_amount", Value::from_i64(100), Value::from_i64(500)),
            MetadataFilterExpr::eq("demo_sale_order.enabled", Value::text("Y")),
        ])]
    );
    let query = MetadataSqlDriver::new(request).build(&SqliteDialect);
    assert!(query.sql.starts_with("SELECT demo_sale_order.id AS \"id\", demo_sale_order.code AS \"order_code\""));
    assert!(query.sql.contains("LEFT JOIN demo_store a1 ON demo_sale_order.store_id = a1.id"));
    assert!(query.sql.contains("WHERE tenant_id = 37 AND "));
    assert_eq!(
        query.params,
        vec![Value::text("OPEN"), Value::text("APPROVED"), Value::from_i64(100), Value::from_i64(500), Value::text("Y")]
    );
}

#[test]
fn order_export_keeps_the_listing_with_only_the_enabled_filter() {
    let query = order_query_request();
    let export = order_export_request();
    assert_eq!(export.fields, query.fields);
    assert_eq!(export.options, query.options);
    assert_eq!(export.filters, vec![MetadataFilterExpr::eq("demo_sale_order.enabled", Value::text("Y"))]);
    let built = MetadataSqlDriver::new(export).build(&SqliteDialect);
    assert_eq!(built.params, vec![Value::text("Y")]);
}

#[test]
fn order_inserts_name_store_and_customer_by_id_or_by_name() {
    let direct = direct_order_insert_request(7, "SO-7", 1, 2, Value::number_text("199.5"), "OPEN");
    assert_eq!(direct.statement_type, StatementType::INSERT);
    assert_eq!(direct.options.id, Some(7));
    assert_eq!(direct.fields.len(), 7);
    assert_eq!(direct.fields[1].value, Some(Value::from_i64(1)));
    assert_eq!(direct.fields[4].value, Some(Value::number_text("199.5")));
    let built = MetadataSqlDriver::new(direct).build(&SqliteDialect);
    assert_eq!(
        built.sql,
        "INSERT INTO demo_sale_order (id, ad_client_id, ad_org_id, ownerid, modifiered, creationdate, modifieddate, code, store_id, customer_id, status, total_amount, tenant_id, enabled) VALUES (?, ?, ?, ?, ?, sysdate, sysdate, ?, ?, ?, ?, ?, ?, ?)".to_string()
    );

    let imported = imported_order_insert_request(8, "SO-8", "一号店", "张三", Value::from_i64(300), "APPROVED");
    assert_eq!(imported.fields[1].input_kind, FieldInputKind::Lookup);
    assert_eq!(imported.fields[2].value, Some(Value::text("张三")));
    let built = MetadataSqlDriver::new(imported).build(&SqliteDialect);
    assert!(built.sql.contains("(select id from demo_store where name = '一号店')"));
    assert!(built.sql.contains("(select id from demo_customer where name = '张三')"));
}

#[test]
fn order_update_and_delete_target_one_order_of_the_tenant() {
    let update = order_update_request(5, Value::number_text("20.25"), "CLOSED");
    let built = MetadataSqlDriver::new(update).build(&SqliteDialect);
    assert_eq!(
        built.sql,
        "UPDATE demo_sale_order SET modifierid = ?, modifieddate = sysdate, status = ?, total_amount = ? WHERE tenant_id = 37 AND id = ?".to_string()
    );
    assert_eq!(
        built.params,
        vec![Value::from_i64(893), Value::text("CLOSED"), Value::number_text("20.25"), Value::from_i64(5)]
    );
    let delete = order_delete_request(5);
    assert_eq!(delete.fields[0].source, FieldSource::Column("id".to_string()));
    let built = MetadataSqlDriver::new(delete).build(&SqliteDialect);
    assert_eq!(built.sql, "DELETE FROM demo_sale_order WHERE tenant_id = 37 AND id = ?".to_string());
    assert_eq!(built.params, vec![Value::from_i64(5)]);
}
