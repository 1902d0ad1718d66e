use ora_sql_builder::engine::{
    InsertBuilder, MySqlDialect, OracleDialect, PostgresDialect, Predicate, SelectBuilder, SqlServerDialect,
    SqliteDialect, TableRef, UpdateBuilder,
};
use ora_sql_builder::metadata::{CapabilityMask, FieldSource, MetadataField, MetadataQueryOptions, MetadataQueryRequest};
use ora_sql_builder::metadata_driver::MetadataSqlDriver;
use ora_sql_builder::sql::StatementType;
use ora_sql_builder::portal_provider::{ordinal_index_of, push_unique, sanitize_filter_value, Obtainmanner};
use ora_sql_builder::value::Value;

fn sample_predicate() -> Predicate {
    Predicate::and(vec![
        Predicate::eq("a", Value::from_i64(1)),
        Predicate::or(vec![
            Predicate::in_list("b", vec![Value::text("x"), Value::text("y")]),
            Predicate::not(Predicate::between("c", Value::from_i64(2), Value::from_i64(3))),
        ]),
        Predicate::custom("d = ? OR e = ?", vec![Value::text("p"), Value::text("q")]),
        Predicate::raw("f IS NOT NULL"),
    ])
}

#[test]
fn obtainmanner_text_reads_back_as_the_same_manner() {
    for manner in [
        Obtainmanner::Text,
        Obtainmanner::Object,
        Obtainmanner::Ignore,
        Obtainmanner::Operate,
        Obtainmanner::SheetNo,
        Obtainmanner::Triger,
    ] {
        assert_eq!(Obtainmanner::from_text(manner.to_string().as_str()), manner);
    }
    assert_eq!(Obtainmanner::SheetNo.to_string(), "sheetNo".to_string());
    assert_eq!(Obtainmanner::from_text("unknown"), Obtainmanner::Text);
}

#[test]
fn filter_inputs_without_percent_are_kept() {
    assert_eq!(sanitize_filter_value("旗舰店 A01"), "旗舰店 A01".to_string());
    assert_eq!(sanitize_filter_value("a%4"), "a%4".to_string());
    assert_eq!(sanitize_filter_value("a%41b%zz"), "ab%zz".to_string());
    assert_eq!(sanitize_filter_value("%df%5c"), "".to_string());
}

#[test]
fn empty_in_lists_match_nothing_in_every_dialect() {
    let build = |d: &str| {
        let builder = SelectBuilder::new(TableRef::new("t")).predicate(Predicate::in_list("id", Vec::new()));
        match d {
            "mysql" => builder.build(&MySqlDialect),
            "postgres" => builder.build(&PostgresDialect),
            "oracle" => builder.build(&OracleDialect),
            "sqlserver" => builder.build(&SqlServerDialect),
            _ => builder.build(&SqliteDialect),
        }
    };
    for d in ["mysql", "postgres", "oracle", "sqlserver", "sqlite"] {
        let query = build(d);
        assert_eq!(query.sql, "SELECT * FROM t WHERE 1 = 0".to_string());
        assert!(query.params.is_empty());
    }
}

#[test]
fn predicates_bind_the_same_values_in_every_dialect() {
    let pg = SelectBuilder::new(TableRef::new("t")).predicate(sample_predicate()).build(&PostgresDialect);
    let my = SelectBuilder::new(TableRef::new("t")).predicate(sample_predicate()).build(&MySqlDialect);
    let ora = SelectBuilder::new(TableRef::new("t")).predicate(sample_predicate()).build(&OracleDialect);
    assert_eq!(
        pg.sql,
        "SELECT * FROM t WHERE (a = $1 AND (b IN ($2, $3) OR NOT (c BETWEEN $4 AND $5)) AND d = $6 OR e = $7 AND f IS NOT NULL)".to_string()
    );
    assert_eq!(
        my.sql,
        "SELECT * FROM t WHERE (a = ? AND (b IN (?, ?) OR NOT (c BETWEEN ? AND ?)) AND d = ? OR e = ? AND f IS NOT NULL)".to_string()
    );
    let expected = vec![
        Value::from_i64(1),
        Value::text("x"),
        Value::text("y"),
        Value::from_i64(2),
        Value::from_i64(3),
        Value::text("p"),
        Value::text("q"),
    ];
    assert_eq!(pg.params, expected);
    assert_eq!(my.params, expected);
    assert_eq!(ora.params, expected);
}

#[test]
fn assigned_values_are_numbered_in_column_order() {
    let insert = InsertBuilder::new("t")
        .raw_value("a", "sysdate")
        .value("b", Value::text("x"))
        .raw_value("c", "0")
        .value("d", Value::from_i64(4))
        .build(&OracleDialect);
    assert_eq!(insert.sql, "INSERT INTO t (a, b, c, d) VALUES (sysdate, :1, 0, :2)".to_string());
    assert_eq!(insert.params, vec![Value::text("x"), Value::from_i64(4)]);
    let update = UpdateBuilder::new("t")
        .set_raw("a", "a + 1")
        .set("b", Value::Null)
        .predicate(Predicate::eq("id", Value::from_i64(9)))
        .build(&SqlServerDialect);
    assert_eq!(update.sql, "UPDATE t SET a = a + 1, b = @p1 WHERE id = @p2".to_string());
    assert_eq!(update.params, vec![Value::Null, Value::from_i64(9)]);
}

#[test]
fn capability_masks_grant_the_flagged_positions() {
    let mask = CapabilityMask::from_text("1011");
    assert!(mask.allows(0));
    assert!(!mask.allows(1));
    assert!(mask.allows(2));
    assert!(mask.allows(3));
    assert!(!mask.allows(4));
    assert!(!CapabilityMask::from_text("").allows(0));
}

#[test]
fn ordinal_positions_count_occurrences_from_one() {
    assert_eq!(ordinal_index_of("a;b;c", ';', 2), 3);
    assert_eq!(ordinal_index_of("a;b;c", ';', 1), 1);
}

#[test]
fn push_unique_adds_only_new_items() {
    let mut list = vec!["a".to_string()];
    push_unique(&mut list, "b".to_string());
    push_unique(&mut list, "a".to_string());
    assert_eq!(list, vec!["a".to_string(), "b".to_string()]);
}

#[test]
fn values_clone_to_equal_values() {
    let value = Value::Object(vec![("k".to_string(), Value::Array(vec![Value::from_bool(false), Value::Null]))]);
    assert_eq!(value.clone(), value);
    assert_eq!(value.duplicate(), value);
}

#[test]
fn requests_bind_the_same_values_in_every_dialect() {
    let request = || {
        MetadataQueryRequest::new(
            893,
            StatementType::UPDATE,
            vec![
                MetadataField::new("m", FieldSource::Column("name".to_string()))
                    .with_access("1")
                    .with_value(Value::text("x")),
                MetadataField::new("m", FieldSource::Column("flag".to_string()))
                    .with_access("1")
                    .with_value(Value::from_bool(false)),
            ],
        )
        .with_options(MetadataQueryOptions { id: Some(4), ..Default::default() })
    };
    let pg = MetadataSqlDriver::new(request()).build(&PostgresDialect);
    let my = MetadataSqlDriver::new(request()).build(&MySqlDialect);
    let ss = MetadataSqlDriver::new(request()).build(&SqlServerDialect);
    assert_eq!(pg.sql, "UPDATE m SET modifierid = $1, modifieddate = sysdate, name = $2, flag = $3 WHERE id = $4".to_string());
    assert_eq!(my.sql, "UPDATE m SET modifierid = ?, modifieddate = sysdate, name = ?, flag = ? WHERE id = ?".to_string());
    assert_eq!(pg.params, vec![Value::from_i64(893), Value::text("x"), Value::text("N"), Value::from_i64(4)]);
    assert_eq!(pg.params, my.params);
    assert_eq!(pg.params, ss.params);
}
