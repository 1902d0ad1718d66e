use ora_sql_builder::engine::PostgresDialect;
use ora_sql_builder::metadata::{
    FieldSource, LinkReference, LinkStep, MetadataField, MetadataQueryOptions, MetadataQueryRequest, SortDirection,
};
use ora_sql_builder::metadata_driver::MetadataSqlDriver;
use ora_sql_builder::sql::StatementType;
use ora_sql_builder::value::Value;

fn num(n: i64) -> Value {
    Value::from_i64(n)
}

fn text(s: &str) -> Value {
    Value::text(s)
}

fn column(name: &str) -> FieldSource {
    FieldSource::Column(name.to_string())
}

#[test]
fn select_with_lookup_and_link_fields_builds_expected_sql() {
    let request = MetadataQueryRequest::new(
        893,
        StatementType::SELECT,
        vec![
            MetadataField::new("m_retail", column("id")),
            MetadataField::new("m_retail", column("name")).with_access("1").with_output_alias("name"),
            MetadataField::new("m_retail", column("store_id"))
                .with_access("1")
                .with_lookup("c_store", "name")
                .with_output_alias("store_id"),
            MetadataField::new(
                "m_retail",
                FieldSource::Linked(LinkReference {
                    steps: vec![
                        LinkStep { foreign_key: "store_id".to_string(), table: "c_store".to_string() },
                        LinkStep { foreign_key: "store_kind_id".to_string(), table: "c_store_kind".to_string() },
                    ],
                    target_column: "name".to_string(),
                }),
            )
            .with_access("1")
            .with_output_alias("store_kind_name"),
        ],
    );

    let query = MetadataSqlDriver::new(request).build(&PostgresDialect);

    assert_eq!(
        query.sql,
        "SELECT m_retail.id AS \"id\", m_retail.name AS \"name\", m_retail.store_id AS \"store_id\", (select name as dk from c_store x where id = m_retail.store_id) as \"store_id.dk\", a2.name AS \"store_kind_name\" FROM m_retail LEFT JOIN c_store a1 ON m_retail.store_id = a1.id LEFT JOIN c_store_kind a2 ON a1.store_kind_id = a2.id".to_string()
    );
    assert_eq!(query.params, Vec::<Value>::new());
}

#[test]
fn select_filters_are_parameterized() {
    let request = MetadataQueryRequest::new(
        893,
        StatementType::SELECT,
        vec![
            MetadataField::new("m_retail", column("id")),
            MetadataField::new("m_retail", column("name"))
                .with_access("1")
                .with_value(text("旗舰 店"))
                .with_sort(SortDirection::Asc),
            MetadataField::new("m_retail", column("enabled")).with_access("1").with_value(Value::from_bool(true)),
            MetadataField::new("m_retail", column("status"))
                .with_access("1")
                .with_value(Value::Array(vec![text("OPEN"), text("CLOSED")])),
            MetadataField::new("m_retail", column("amt")).with_access("1").with_value(Value::Object(vec![
                ("type".to_string(), text("between")),
                ("begin".to_string(), num(10)),
                ("end".to_string(), num(20)),
            ])),
        ],
    )
    .with_options(MetadataQueryOptions { table_filter: Some("tenant_id = 37".to_string()), ..Default::default() });

    let query = MetadataSqlDriver::new(request).build(&PostgresDialect);

    assert_eq!(
        query.sql,
        "SELECT m_retail.id AS \"id\", m_retail.name AS \"name\", m_retail.enabled AS \"enabled\", m_retail.status AS \"status\", m_retail.amt AS \"amt\" FROM m_retail WHERE tenant_id = 37 AND (m_retail.name LIKE $1 OR m_retail.name LIKE $2) AND m_retail.enabled = $3 AND m_retail.status IN ($4, $5) AND m_retail.amt >= $6 AND m_retail.amt <= $7 ORDER BY m_retail.name asc nulls first".to_string()
    );
    assert_eq!(
        query.params,
        vec![text("%旗舰%"), text("%店%"), text("Y"), text("OPEN"), text("CLOSED"), num(10), num(20)]
    );
}

#[test]
fn grouped_select_orders_by_grouped_dimensions() {
    let request = MetadataQueryRequest::new(
        893,
        StatementType::SELECT,
        vec![
            MetadataField::new("m_retail", column("id")),
            MetadataField::new("m_retail", column("dept_name")).with_access("1").with_output_alias("dept_name"),
            MetadataField::new("m_retail", FieldSource::Formula("sum(qty)".to_string()))
                .with_access("1")
                .with_output_alias("total_qty"),
        ],
    )
    .with_options(MetadataQueryOptions { grouped: true, ..Default::default() });

    let query = MetadataSqlDriver::new(request).build(&PostgresDialect);

    assert_eq!(
        query.sql,
        "SELECT m_retail.dept_name AS \"dept_name\", sum(qty) AS \"total_qty\" FROM m_retail GROUP BY m_retail.dept_name ORDER BY m_retail.dept_name".to_string()
    );
    assert_eq!(query.params, Vec::<Value>::new());
}

#[test]
fn insert_uses_parameters_and_raw_sql_expressions() {
    let request = MetadataQueryRequest::new(
        893,
        StatementType::INSERT,
        vec![
            MetadataField::new("m_retail", column("code")).with_access("1").with_default(text("默认值")),
            MetadataField::new("m_retail", column("name")).with_access("1").with_value(text("名称")),
            MetadataField::new("m_retail", column("qty")).with_access("1").with_value(num(30)),
            MetadataField::new("m_retail", column("docno")).with_access("1").with_sequence("RE"),
            MetadataField::new("m_retail", column("customer_id"))
                .with_access("1")
                .with_lookup("c_store", "name")
                .with_value(text("一号店")),
        ],
    )
    .with_options(MetadataQueryOptions { id: Some(1), ..Default::default() });

    let query = MetadataSqlDriver::new(request).build(&PostgresDialect);

    assert_eq!(
        query.sql,
        "INSERT INTO m_retail (id, ad_client_id, ad_org_id, ownerid, modifiered, creationdate, modifieddate, code, name, qty, docno, customer_id) VALUES ($1, $2, $3, $4, $5, sysdate, sysdate, $6, $7, $8, get_sequenceno('RE', 37), (select id from c_store where name = '一号店'))".to_string()
    );
    assert_eq!(
        query.params,
        vec![num(1), num(37), num(27), num(893), num(893), text("默认值"), text("名称"), num(30)]
    );
}

#[test]
fn update_uses_mixed_parameter_and_raw_assignments() {
    let request = MetadataQueryRequest::new(
        893,
        StatementType::UPDATE,
        vec![
            MetadataField::new("m_retail", column("name")).with_access("1").with_value(text("新名称")),
            MetadataField::new("m_retail", column("store_id"))
                .with_access("1")
                .with_lookup("c_store", "name")
                .with_value(text("一号店")),
            MetadataField::new("m_retail", column("enabled")).with_access("1").with_value(Value::from_bool(true)),
        ],
    )
    .with_options(MetadataQueryOptions {
        id: Some(1),
        table_filter: Some("tenant_id = 37".to_string()),
        ..Default::default()
    });

    let query = MetadataSqlDriver::new(request).build(&PostgresDialect);

    assert_eq!(
        query.sql,
        "UPDATE m_retail SET modifierid = $1, modifieddate = sysdate, name = $2, store_id = (select id from c_store where name = '一号店'), enabled = $3 WHERE tenant_id = 37 AND id = $4".to_string()
    );
    assert_eq!(query.params, vec![num(893), text("新名称"), text("Y"), num(1)]);
}

#[test]
fn delete_uses_table_filter_and_id_predicate() {
    let request =
        MetadataQueryRequest::new(893, StatementType::DELETE, vec![MetadataField::new("m_retail", column("id"))])
            .with_options(MetadataQueryOptions {
                id: Some(9),
                table_filter: Some("tenant_id = 37".to_string()),
                ..Default::default()
            });

    let query = MetadataSqlDriver::new(request).build(&PostgresDialect);

    assert_eq!(query.sql, "DELETE FROM m_retail WHERE tenant_id = 37 AND id = $1".to_string());
    assert_eq!(query.params, vec![num(9)]);
}

#[test]
fn a_repeated_object_key_means_its_last_value() {
    let request = MetadataQueryRequest::new(
        893,
        StatementType::SELECT,
        vec![MetadataField::new("m", column("amt")).with_access("1").with_value(Value::Object(vec![
            ("type".to_string(), text("between")),
            ("begin".to_string(), num(10)),
            ("end".to_string(), num(20)),
            ("end".to_string(), num(30)),
        ]))],
    );
    let query = MetadataSqlDriver::new(request).build(&PostgresDialect);
    assert_eq!(query.sql, "SELECT m.id AS \"id\", m.amt AS \"amt\" FROM m WHERE m.amt >= $1 AND m.amt <= $2".to_string());
    assert_eq!(query.params, vec![num(10), num(30)]);
}
