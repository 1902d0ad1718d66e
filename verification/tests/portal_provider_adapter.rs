use ora_sql_builder::engine::PostgresDialect;
use ora_sql_builder::metadata::{FieldInputKind, FieldSource, MetadataFilterExpr, SortDirection};
use ora_sql_builder::metadata_driver::MetadataSqlDriver;
use ora_sql_builder::portal_provider::{Column, Obtainmanner, PortalProviderOption};
use ora_sql_builder::portal_provider_adapter::{metadata_field_from_portal_column, portal_to_metadata_request};
use ora_sql_builder::sql::StatementType;
use ora_sql_builder::value::Value;

#[test]
fn portal_select_can_be_adapted_to_metadata_request() {
    let request = portal_to_metadata_request(
        893,
        StatementType::SELECT,
        vec![
            Column { dbname: "id".to_string(), current_table: "m_retail".to_string(), ..Column::default() },
            Column {
                dbname: "name".to_string(),
                mask: "1".to_string(),
                current_table: "m_retail".to_string(),
                value: Some(Value::text("旗舰 店")),
                order_by: "+".to_string(),
                ..Column::default()
            },
            Column {
                dbname: "enabled".to_string(),
                mask: "1".to_string(),
                current_table: "m_retail".to_string(),
                value: Some(Value::from_bool(true)),
                ..Column::default()
            },
        ],
        PortalProviderOption { max_idx: Some(0), table_filter: Some("tenant_id = 37".to_string()), ..Default::default() },
    );

    let query = MetadataSqlDriver::new(request).build(&PostgresDialect);

    assert_eq!(
        query.sql,
        "SELECT m_retail.id AS \"id\", m_retail.name AS \"name\", m_retail.enabled AS \"enabled\" FROM m_retail WHERE tenant_id = 37 AND (m_retail.name LIKE $1 OR m_retail.name LIKE $2) AND m_retail.enabled = $3 ORDER BY m_retail.name asc nulls first".to_string()
    );
    assert_eq!(query.params, vec![Value::text("%旗舰%"), Value::text("%店%"), Value::from_bool(true)]);
}

#[test]
fn portal_insert_can_be_adapted_to_metadata_request() {
    let request = portal_to_metadata_request(
        893,
        StatementType::INSERT,
        vec![
            Column {
                dbname: "code".to_string(),
                mask: "1".to_string(),
                current_table: "m_retail".to_string(),
                default_value: "默认值".to_string(),
                ..Column::default()
            },
            Column {
                dbname: "docno".to_string(),
                mask: "1".to_string(),
                current_table: "m_retail".to_string(),
                sequencename: "RE".to_string(),
                obtainmanner: Obtainmanner::SheetNo.to_string(),
                ..Column::default()
            },
        ],
        PortalProviderOption { id: Some(1), max_idx: Some(0), ..Default::default() },
    );

    let query = MetadataSqlDriver::new(request).build(&PostgresDialect);

    assert_eq!(
        query.sql,
        "INSERT INTO m_retail (id, ad_client_id, ad_org_id, ownerid, modifiered, creationdate, modifieddate, code, docno) VALUES ($1, $2, $3, $4, $5, sysdate, sysdate, $6, get_sequenceno('RE', 37))".to_string()
    );
    assert_eq!(
        query.params,
        vec![
            Value::from_i64(1),
            Value::from_i64(37),
            Value::from_i64(27),
            Value::from_i64(893),
            Value::from_i64(893),
            Value::text("默认值")
        ]
    );
}

#[test]
fn portal_column_sources_follow_the_column_name() {
    let column = |dbname: &str| Column { dbname: dbname.to_string(), current_table: "m_retail".to_string(), ..Column::default() };
    let formula = metadata_field_from_portal_column(&column("nvl(qty,0)"), StatementType::SELECT);
    assert_eq!(formula.source, FieldSource::Formula("nvl(qty,0)".to_string()));
    let spaced = metadata_field_from_portal_column(&column("qty - 1"), StatementType::SELECT);
    assert_eq!(spaced.source, FieldSource::Formula("qty - 1".to_string()));
    let qualified = metadata_field_from_portal_column(&column("t.qty"), StatementType::SELECT);
    assert_eq!(qualified.source, FieldSource::Qualified("t.qty".to_string()));
    let plain = metadata_field_from_portal_column(&column("qty"), StatementType::SELECT);
    assert_eq!(plain.source, FieldSource::Column("qty".to_string()));
    let half_call = metadata_field_from_portal_column(&column("nvl(qty"), StatementType::SELECT);
    assert_eq!(half_call.source, FieldSource::Column("nvl(qty".to_string()));
}

#[test]
fn portal_linked_column_keeps_one_step_per_link_table() {
    let column = Column {
        dbname: "C_STORE_ID;C_STOREKIND_ID;NAME".to_string(),
        current_table: "m_retail".to_string(),
        columnlink_tablenames: vec!["C_STORE".to_string(), "C_STOREKIND".to_string()],
        obtainmanner: "triger".to_string(),
        order_by: "-".to_string(),
        ..Column::default()
    };
    let field = metadata_field_from_portal_column(&column, StatementType::UPDATE);
    match &field.source {
        FieldSource::Linked(link) => {
            assert_eq!(link.target_column, "NAME".to_string());
            assert_eq!(link.steps.len(), 2);
            assert_eq!(link.steps[0].foreign_key, "C_STORE_ID".to_string());
            assert_eq!(link.steps[1].table, "C_STOREKIND".to_string());
        },
        _ => panic!("a linked column"),
    }
    assert_eq!(field.input_kind, FieldInputKind::Trigger);
    assert_eq!(field.sort, Some(SortDirection::Desc));
}

#[test]
fn portal_values_become_filters_only_for_selects() {
    let columns = || {
        vec![
            Column {
                dbname: "code".to_string(),
                mask: "1".to_string(),
                current_table: "m_retail".to_string(),
                value: Some(Value::text("=RE-1")),
                ..Column::default()
            },
            Column {
                dbname: "qty".to_string(),
                mask: "1".to_string(),
                current_table: "m_retail".to_string(),
                value: Some(Value::Null),
                ..Column::default()
            },
        ]
    };
    let select = portal_to_metadata_request(1, StatementType::SELECT, columns(), PortalProviderOption::default());
    assert_eq!(select.filters, vec![MetadataFilterExpr::eq("code", Value::text("RE-1"))]);
    assert!(select.fields.iter().all(|f| f.value.is_none()));
    let update = portal_to_metadata_request(1, StatementType::UPDATE, columns(), PortalProviderOption::default());
    assert!(update.filters.is_empty());
    assert_eq!(update.fields[0].value, Some(Value::text("=RE-1")));
}
