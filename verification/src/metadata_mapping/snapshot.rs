//! Rows to persist and the schemas they go into.

use vstd::prelude::*;

use crate::engine::ddl::{CreateTableBuilder, CreateTableModel};
use crate::metadata::schema::{create_table_of, table_schemas_model};
use crate::metadata::MetadataTableSchema;
use crate::text::str_eq;
use crate::value::{entries_model, Value, ValueModel};

verus! {

/// One row of a metadata table: its table and its column values, in order.
#[derive(Debug, Clone, PartialEq)]
pub struct MetadataPersistenceRow {
    pub table: String,
    pub values: Vec<(String, Value)>,
}

/// The model of a [`MetadataPersistenceRow`].
pub struct RowModel {
    pub table: Seq<char>,
    pub values: Seq<(Seq<char>, ValueModel)>,
}

impl View for MetadataPersistenceRow {
    type V = RowModel;

    open spec fn view(&self) -> RowModel {
        RowModel { table: self.table@, values: entries_model(self.values@) }
    }
}

/// The models of a sequence of rows.
pub open spec fn rows_model(rows: Seq<MetadataPersistenceRow>) -> Seq<RowModel> {
    rows.map_values(|r: MetadataPersistenceRow| r@)
}

/// The rows of `table`.
pub open spec fn of_table(table: Seq<char>) -> spec_fn(MetadataPersistenceRow) -> bool {
    |r: MetadataPersistenceRow| r.table@ == table
}

/// The schemas of the metadata tables and the rows to store in them.
#[derive(Debug, Clone, PartialEq)]
pub struct MetadataPersistenceSnapshot {
    pub schemas: Vec<MetadataTableSchema>,
    pub rows: Vec<MetadataPersistenceRow>,
}

impl MetadataPersistenceSnapshot {
    /// The rows of `table`, in order.
    pub fn rows_for(&self, table: &str) -> (r: Vec<&MetadataPersistenceRow>)
        ensures
            r@.map_values(|x: &MetadataPersistenceRow| *x) == self.rows@.filter(of_table(table@)),
    {
        let mut out: Vec<&MetadataPersistenceRow> = Vec::new();
        proof {
            crate::text::lemma_filter_empty(self.rows@.take(0), of_table(table@));
            assert(out@.map_values(|x: &MetadataPersistenceRow| *x) =~= self.rows@.take(0).filter(of_table(table@)));
        }
        let n = self.rows.len();
        let mut i: usize = 0;
        while i < n
            invariant
                n == self.rows@.len(),
                i <= n,
                out@.map_values(|x: &MetadataPersistenceRow| *x) == self.rows@.take(i as int).filter(of_table(table@)),
            decreases n - i,
        {
            proof {
                crate::text::lemma_filter_take(self.rows@, of_table(table@), i as int);
            }
            let row = &self.rows[i];
            if str_eq(row.table.as_str(), table) {
                let ghost before = out@;
                out.push(row);
                proof {
                    assert(out@.map_values(|x: &MetadataPersistenceRow| *x)
                        =~= before.map_values(|x: &MetadataPersistenceRow| *x).push(self.rows@[i as int]));
                }
            }
            i = i + 1;
        }
        proof {
            assert(self.rows@.take(n as int) =~= self.rows@);
        }
        out
    }

    /// The `CREATE TABLE` builders of the schemas, in order.
    pub fn ddl_builders(&self) -> (r: Vec<CreateTableBuilder>)
        ensures
            r@.map_values(|b: CreateTableBuilder| b@)
                == table_schemas_model(self.schemas@).map_values(|t| create_table_of(t)),
    {
        let mut out: Vec<CreateTableBuilder> = Vec::new();
        let n = self.schemas.len();
        let mut i: usize = 0;
        while i < n
            invariant
                n == self.schemas@.len(),
                i <= n,
                out@.len() == i,
                forall|j: int| 0 <= j < i ==> #[trigger] out@[j]@ == create_table_of(self.schemas@[j]@),
            decreases n - i,
        {
            out.push(self.schemas[i].to_create_table_builder());
            i = i + 1;
        }
        assert(out@.map_values(|b: CreateTableBuilder| b@)
            =~= table_schemas_model(self.schemas@).map_values(|t| create_table_of(t)));
        out
    }
}

} // verus!
