//! The SQL engine: dialects, query builders, DDL builders and the engine facade.

pub mod builders;
pub mod ddl;
pub mod dialect;
pub mod facade;
pub mod query;

pub use builders::{DeleteBuilder, InsertBuilder, SelectBuilder, SqlValue, UpdateBuilder};
pub use ddl::{
    AlterTableBuilder, AlterTableOperation, ColumnDefinition, CreateTableBuilder, DdlValue,
    DropTableBuilder, ForeignKeyDefinition,
};
pub use dialect::{
    AnyDialect, MySqlDialect, OracleDialect, PostgresDialect, SqlDialect, SqlServerDialect,
    SqliteDialect,
};
pub use facade::MetaSqlEngine;
pub use query::{BuiltQuery, JoinType, Pagination, Predicate, Relation, TableRef};
