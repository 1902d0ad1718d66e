//! The engine facade: one entry point that renders any builder for a dialect.

use vstd::prelude::*;

use super::builders::{
    delete_text, insert_text, select_text, update_text, DeleteBuilder, InsertBuilder,
    SelectBuilder, UpdateBuilder,
};
use super::ddl::{
    alter_table_text, create_table_text, drop_table_text, AlterTableBuilder, CreateTableBuilder,
    DropTableBuilder,
};
use super::dialect::SqlDialect;
use super::query::BuiltQuery;
use crate::value::values_model;

verus! {

/// Renders builders for a dialect; it holds no state of its own.
#[derive(Debug, Default, Clone, Copy)]
pub struct MetaSqlEngine;

impl MetaSqlEngine {
    pub fn build_select<D: SqlDialect>(&self, dialect: &D, builder: SelectBuilder) -> (r: BuiltQuery)
        requires
            builder@.pagination matches Some(p) ==> dialect.admits_page(p),
        ensures
            r.sql@ == select_text(*dialect, builder@).0,
            values_model(r.params@) == select_text(*dialect, builder@).1,
    {
        builder.build(dialect)
    }

    pub fn build_insert<D: SqlDialect>(&self, dialect: &D, builder: InsertBuilder) -> (r: BuiltQuery)
        ensures
            r.sql@ == insert_text(*dialect, builder@).0,
            values_model(r.params@) == insert_text(*dialect, builder@).1,
    {
        builder.build(dialect)
    }

    pub fn build_update<D: SqlDialect>(&self, dialect: &D, builder: UpdateBuilder) -> (r: BuiltQuery)
        ensures
            r.sql@ == update_text(*dialect, builder@).0,
            values_model(r.params@) == update_text(*dialect, builder@).1,
    {
        builder.build(dialect)
    }

    pub fn build_delete<D: SqlDialect>(&self, dialect: &D, builder: DeleteBuilder) -> (r: BuiltQuery)
        ensures
            r.sql@ == delete_text(*dialect, builder@).0,
            values_model(r.params@) == delete_text(*dialect, builder@).1,
    {
        builder.build(dialect)
    }

    pub fn build_create_table<D: SqlDialect>(&self, dialect: &D, builder: CreateTableBuilder) -> (r: BuiltQuery)
        ensures
            r.sql@ == create_table_text(builder@),
            r.params@.len() == 0,
    {
        builder.build(dialect)
    }

    pub fn build_alter_table<D: SqlDialect>(&self, dialect: &D, builder: AlterTableBuilder) -> (r: BuiltQuery)
        ensures
            r.sql@ == alter_table_text(builder@),
            r.params@.len() == 0,
    {
        builder.build(dialect)
    }

    pub fn build_drop_table<D: SqlDialect>(&self, dialect: &D, builder: DropTableBuilder) -> (r: BuiltQuery)
        ensures
            r.sql@ == drop_table_text(builder@),
            r.params@.len() == 0,
    {
        builder.build(dialect)
    }
}

} // verus!
