use ora_sql_builder::sql::{SQLStatement, StatementType};

#[test]
fn build_query_test() {
    let mut sql = SQLStatement::new(StatementType::SELECT);
    sql.select.push("level".to_string());
    sql.select.push("count(1) as num".to_string());
    sql.tables.push("c_store".to_string());
    sql.wheres.push("type=1".to_string());
    sql.group_by.push("level".to_string());
    sql.having.push("count(1) > 2".to_string());
    sql.order_by.push("level asc".to_string());
    let rst = sql.sql();
    assert_eq!(
        rst,
        "SELECT level, count(1) as num\nFROM c_store\nWHERE (type=1)\nGROUP BY level\nHAVING (count(1) > 2)\nORDER BY level asc"
            .to_string()
    );
}

#[test]
fn build_insert_test() {
    let mut sql = SQLStatement::new(StatementType::INSERT);
    sql.tables.push("c_store".to_string());
    sql.columns.push("id".to_string());
    sql.columns.push("code".to_string());
    sql.columns.push("name".to_string());
    sql.values.push("1".to_string());
    sql.values.push("'001'".to_string());
    sql.values.push("'Big Star'".to_string());
    let rst = sql.sql();
    assert_eq!(rst, "INSERT INTO c_store\n (id, code, name)\nVALUES (1, '001', 'Big Star')".to_string());
}

#[test]
fn build_update_test() {
    let mut sql = SQLStatement::new(StatementType::UPDATE);
    sql.tables.push("c_store".to_string());
    sql.sets.push("code = '002'".to_string());
    sql.sets.push("name = 'Big Sun'".to_string());
    sql.wheres.push("id = 1".to_string());
    let rst = sql.sql();
    assert_eq!(rst, "UPDATE c_store\nSET code = '002', name = 'Big Sun'\nWHERE (id = 1)".to_string());
}

#[test]
fn build_delete_test() {
    let mut sql = SQLStatement::new(StatementType::DELETE);
    sql.tables.push("c_store".to_string());
    sql.wheres.push("id = 1".to_string());
    let rst = sql.sql();
    assert_eq!(rst, "DELETE FROM c_store\nWHERE (id = 1)".to_string());
}

#[test]
fn where_parts_are_joined_with_and_but_not_next_to_connectives() {
    let mut sql = SQLStatement::new(StatementType::SELECT);
    sql.select.push("id".to_string());
    sql.tables.push("c_store".to_string());
    sql.wheres.push("a = 1".to_string());
    sql.wheres.push("b = 2".to_string());
    sql.wheres.push(") \n OR (".to_string());
    sql.wheres.push("c = 3".to_string());
    let rst = sql.sql();
    assert_eq!(rst, "SELECT id\nFROM c_store\nWHERE (a = 1 AND b = 2) \n OR (c = 3)".to_string());
}

#[test]
fn distinct_select_and_empty_clauses() {
    let mut sql = SQLStatement::new(StatementType::SELECT);
    sql.distinct = true;
    sql.select.push("level".to_string());
    sql.tables.push("c_store".to_string());
    let rst = sql.sql();
    assert_eq!(rst, "SELECT DISTINCT level\nFROM c_store".to_string());
}
