//! What an execution reports.

use vstd::prelude::*;

use crate::value::Value;

verus! {

/// The SQL a query ran and the rows it returned.
#[derive(Debug, Clone, PartialEq)]
pub struct QueryResult {
    pub sql: String,
    pub rows: Vec<Value>,
    pub row_count: usize,
}

/// The SQL a write ran and how many rows it changed.
#[derive(Debug, Clone, PartialEq, Eq)]
pub struct WriteResult {
    pub sql: String,
    pub rows_affected: u64,
}

/// The SQL a delete ran and how many rows it removed.
#[derive(Debug, Clone, PartialEq, Eq)]
pub struct DeleteResult {
    pub sql: String,
    pub rows_affected: u64,
}

/// The DDL a schema execution ran, in order.
#[derive(Debug, Clone, PartialEq, Eq)]
pub struct SchemaResult {
    pub executed_sql: Vec<String>,
}

/// How many catalog rows were inserted, and the statements that inserted them.
#[derive(Debug, Clone, PartialEq, Eq)]
pub struct MetadataCatalogResult {
    pub inserted_rows: usize,
    pub executed_sql: Vec<String>,
}

impl QueryResult {
    /// The result of `sql` returning `rows`, of which at most `max_rows` are kept.
    pub fn limited(sql: String, rows: Vec<Value>, max_rows: Option<usize>) -> (r: QueryResult)
        ensures
            r.sql == sql,
            r.rows@ == (match max_rows {
                Some(m) => if m < rows@.len() { rows@.take(m as int) } else { rows@ },
                None => rows@,
            }),
            r.row_count == r.rows@.len(),
    {
        let mut rows = rows;
        match max_rows {
            Some(m) => rows.truncate(m),
            None => {},
        }
        let row_count = rows.len();
        QueryResult { sql, rows, row_count }
    }
}

} // verus!
