use ora_sql_builder::metadata::{
    standard_metadata_tables, DatabaseKind, MetaColumn, MetaDatasource, MetaExportProfile, MetaImportFieldMapping,
    MetaImportProfile, MetaPolicy, MetaRelation, MetaTable, MetadataCatalog, MetadataColumnType, MetadataFilterExpr,
    PolicyKind, RelationKind,
};
use ora_sql_builder::metadata_mapping::{MetadataPersistenceMapper, MetadataPersistenceSnapshot};
use ora_sql_builder::value::Value;

fn sample_catalog() -> MetadataCatalog {
    MetadataCatalog::new()
        .datasource(MetaDatasource::new(1, "main", "主数据源", DatabaseKind::Postgres, "postgres://demo"))
        .table(MetaTable::new(10, 1, "retail", "m_retail", "零售单"))
        .column(MetaColumn::new(100, 10, "code", "code", "单号", MetadataColumnType::Varchar(64)))
        .relation(MetaRelation::new(200, 10, 11, RelationKind::ManyToOne, "store_id", "id"))
        .policy(
            MetaPolicy::new(300, 10, "tenant_scope", PolicyKind::RowFilter)
                .with_filter(MetadataFilterExpr::eq("tenant_id", Value::from_i64(37))),
        )
        .import_profile(
            MetaImportProfile::new(400, 10, "retail_import", "零售导入")
                .field_mapping(MetaImportFieldMapping::new("bill_code", "code").required()),
        )
        .export_profile(
            MetaExportProfile::new(500, 10, "retail_export", "零售导出")
                .with_selected_columns(vec!["code".to_string(), "name".to_string()])
                .with_default_filter(MetadataFilterExpr::eq("enabled", Value::from_bool(true))),
        )
}

#[test]
fn snapshot_covers_standard_entities_and_extended_profile_tables() {
    let catalog = sample_catalog();

    let snapshot = MetadataPersistenceMapper::snapshot_from_catalog(&catalog);

    assert_eq!(snapshot.rows_for("meta_datasource").len(), 1);
    assert_eq!(snapshot.rows_for("meta_table").len(), 1);
    assert_eq!(snapshot.rows_for("meta_column").len(), 1);
    assert_eq!(snapshot.rows_for("meta_relation").len(), 1);
    assert_eq!(snapshot.rows_for("meta_policy").len(), 1);
    assert_eq!(snapshot.rows_for("meta_import_profile").len(), 1);
    assert_eq!(snapshot.rows_for("meta_import_mapping").len(), 1);
    assert_eq!(snapshot.rows_for("meta_export_profile").len(), 1);
    assert!(snapshot.schemas.iter().any(|table| table.name == "meta_export_profile"));
    assert!(snapshot.schemas.iter().any(|table| table.name == "meta_import_mapping"));
}

#[test]
fn snapshot_can_produce_ddl_builders_from_same_schema_source() {
    let snapshot = MetadataPersistenceSnapshot { schemas: standard_metadata_tables(), rows: Vec::new() };

    let builders = snapshot.ddl_builders();

    assert_eq!(builders.len(), standard_metadata_tables().len());
}

#[test]
fn every_catalog_row_goes_into_a_standard_table() {
    let snapshot = MetadataPersistenceMapper::snapshot_from_catalog(&sample_catalog());
    assert_eq!(snapshot.rows.len(), 8);
    for row in &snapshot.rows {
        assert!(snapshot.schemas.iter().any(|table| table.name == row.table));
    }
}

#[test]
fn import_mappings_are_numbered_across_profiles() {
    let catalog = MetadataCatalog::new()
        .import_profile(
            MetaImportProfile::new(1, 10, "a", "A")
                .field_mapping(MetaImportFieldMapping::new("x", "x"))
                .field_mapping(MetaImportFieldMapping::new("y", "y")),
        )
        .import_profile(MetaImportProfile::new(2, 10, "b", "B").field_mapping(MetaImportFieldMapping::new("z", "z")));
    let snapshot = MetadataPersistenceMapper::snapshot_from_catalog(&catalog);
    let mappings = snapshot.rows_for("meta_import_mapping");
    assert_eq!(mappings.len(), 3);
    let ids: Vec<&Value> = mappings.iter().map(|row| &row.values[0].1).collect();
    assert_eq!(ids, vec![&Value::from_i64(1), &Value::from_i64(2), &Value::from_i64(3)]);
    let tables: Vec<&str> = snapshot.rows.iter().map(|row| row.table.as_str()).collect();
    assert_eq!(
        tables,
        vec!["meta_import_profile", "meta_import_mapping", "meta_import_mapping", "meta_import_profile", "meta_import_mapping"]
    );
}

#[test]
fn policy_filters_are_stored_as_their_debug_text() {
    let catalog = MetadataCatalog::new()
        .policy(
            MetaPolicy::new(1, 10, "tenant_scope", PolicyKind::RowFilter)
                .with_filter(MetadataFilterExpr::eq("tenant_id", Value::from_i64(37))),
        )
        .policy(MetaPolicy::new(2, 10, "names", PolicyKind::FieldMask).with_filter(MetadataFilterExpr::or(vec![
            MetadataFilterExpr::like("name", "a\"b\u{85}旗舰"),
            MetadataFilterExpr::in_list("code", vec![Value::Null, Value::from_bool(true)]),
        ])));
    let snapshot = MetadataPersistenceMapper::snapshot_from_catalog(&catalog);
    let policies = snapshot.rows_for("meta_policy");
    assert_eq!(policies[0].values[4].0, "policy_expr".to_string());
    assert_eq!(
        policies[0].values[4].1,
        Value::text("Field { field: \"tenant_id\", filter: Eq(Number(37)) }")
    );
    assert_eq!(
        policies[1].values[4].1,
        Value::text(
            "Or([Field { field: \"name\", filter: Like(\"a\\\"b\\u{85}旗舰\") }, Field { field: \"code\", filter: In([Null, Bool(true)]) }])"
        )
    );
}

#[test]
fn object_values_print_as_maps_in_key_order() {
    let object = Value::Object(vec![
        ("b".to_string(), Value::from_i64(1)),
        ("a".to_string(), Value::from_i64(2)),
        ("é".to_string(), Value::Null),
        ("ab".to_string(), Value::Bool(true)),
        ("b".to_string(), Value::from_i64(3)),
    ]);
    let catalog = MetadataCatalog::new().policy(
        MetaPolicy::new(1, 10, "p", PolicyKind::RowFilter).with_filter(MetadataFilterExpr::eq("x", object)),
    );
    let snapshot = MetadataPersistenceMapper::snapshot_from_catalog(&catalog);
    assert_eq!(
        snapshot.rows_for("meta_policy")[0].values[4].1,
        Value::text(
            "Field { field: \"x\", filter: Eq(Object {\"a\": Number(2), \"ab\": Bool(true), \"b\": Number(3), \"é\": Null}) }"
        )
    );
}
