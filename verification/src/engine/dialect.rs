//! SQL dialects: how a placeholder is written and how a query is paginated.

use vstd::prelude::*;

use super::query::Pagination;
use crate::text::{nat_text, push_usize, usize_text};

verus! {

/// How one database writes bind placeholders and pagination.
pub trait SqlDialect {
    /// The text of the placeholder of the `index`-th parameter (counted from 1).
    spec fn placeholder_text(&self, index: nat) -> Seq<char>;

    /// The text of `sql` restricted to the page `pagination`.
    spec fn paginate_text(&self, sql: Seq<char>, pagination: Pagination, has_order_by: bool) -> Seq<char>;

    fn placeholder(&self, index: usize) -> (r: String)
        ensures
            r@ == self.placeholder_text(index as nat),
    ;

    /// Whether this dialect can write the page `pagination`: Oracle adds offset and limit,
    /// so their sum must fit a `usize`; the others take any page.
    spec fn admits_page(&self, pagination: Pagination) -> bool;

    fn paginate(&self, sql: String, pagination: &Pagination, has_order_by: bool) -> (r: String)
        requires
            self.admits_page(*pagination),
        ensures
            r@ == self.paginate_text(sql@, *pagination, has_order_by),
    ;
}

pub struct MySqlDialect;

pub struct PostgresDialect;

pub struct OracleDialect;

pub struct SqlServerDialect;

pub struct SqliteDialect;

/// `sql LIMIT <limit> OFFSET <offset>`, the pagination of MySQL, PostgreSQL and SQLite.
pub open spec fn limit_offset_text(sql: Seq<char>, p: Pagination) -> Seq<char> {
    sql + " LIMIT "@ + nat_text(p.limit as nat) + " OFFSET "@ + nat_text(p.offset as nat)
}

fn limit_offset(sql: String, p: &Pagination) -> (r: String)
    ensures
        r@ == limit_offset_text(sql@, *p),
{
    let mut s = sql;
    s.append(" LIMIT ");
    push_usize(&mut s, p.limit);
    s.append(" OFFSET ");
    push_usize(&mut s, p.offset);
    s
}

/// Oracle wraps the query and filters on `ROWNUM`.
pub open spec fn oracle_page_text(sql: Seq<char>, p: Pagination) -> Seq<char> {
    "SELECT * FROM (SELECT inner_query.*, ROWNUM AS row_num FROM ("@ + sql
        + ") inner_query WHERE ROWNUM <= "@ + nat_text((p.offset + p.limit) as nat)
        + ") WHERE row_num > "@ + nat_text(p.offset as nat)
}

/// SQL Server needs an `ORDER BY` before `OFFSET`; `ORDER BY (SELECT 1)` stands in when
/// the query has none.
pub open spec fn sql_server_page_text(sql: Seq<char>, p: Pagination, has_order_by: bool) -> Seq<char> {
    (if has_order_by { sql } else { sql + " ORDER BY (SELECT 1)"@ }) + " OFFSET "@
        + nat_text(p.offset as nat) + " ROWS FETCH NEXT "@ + nat_text(p.limit as nat)
        + " ROWS ONLY"@
}

impl SqlDialect for MySqlDialect {
    open spec fn admits_page(&self, pagination: Pagination) -> bool {
        true
    }

    open spec fn placeholder_text(&self, index: nat) -> Seq<char> {
        "?"@
    }

    open spec fn paginate_text(&self, sql: Seq<char>, pagination: Pagination, has_order_by: bool) -> Seq<char> {
        limit_offset_text(sql, pagination)
    }

    fn placeholder(&self, _index: usize) -> (r: String) {
        "?".to_owned()
    }

    fn paginate(&self, sql: String, pagination: &Pagination, _has_order_by: bool) -> (r: String) {
        limit_offset(sql, pagination)
    }
}

impl SqlDialect for SqliteDialect {
    open spec fn admits_page(&self, pagination: Pagination) -> bool {
        true
    }

    open spec fn placeholder_text(&self, index: nat) -> Seq<char> {
        "?"@
    }

    open spec fn paginate_text(&self, sql: Seq<char>, pagination: Pagination, has_order_by: bool) -> Seq<char> {
        limit_offset_text(sql, pagination)
    }

    fn placeholder(&self, _index: usize) -> (r: String) {
        "?".to_owned()
    }

    fn paginate(&self, sql: String, pagination: &Pagination, _has_order_by: bool) -> (r: String) {
        limit_offset(sql, pagination)
    }
}

impl SqlDialect for PostgresDialect {
    open spec fn admits_page(&self, pagination: Pagination) -> bool {
        true
    }

    open spec fn placeholder_text(&self, index: nat) -> Seq<char> {
        "$"@ + nat_text(index)
    }

    open spec fn paginate_text(&self, sql: Seq<char>, pagination: Pagination, has_order_by: bool) -> Seq<char> {
        limit_offset_text(sql, pagination)
    }

    fn placeholder(&self, index: usize) -> (r: String) {
        let mut s = "$".to_owned();
        push_usize(&mut s, index);
        s
    }

    fn paginate(&self, sql: String, pagination: &Pagination, _has_order_by: bool) -> (r: String) {
        limit_offset(sql, pagination)
    }
}

impl SqlDialect for OracleDialect {
    open spec fn admits_page(&self, pagination: Pagination) -> bool {
        pagination.offset + pagination.limit <= usize::MAX
    }

    open spec fn placeholder_text(&self, index: nat) -> Seq<char> {
        ":"@ + nat_text(index)
    }

    open spec fn paginate_text(&self, sql: Seq<char>, pagination: Pagination, has_order_by: bool) -> Seq<char> {
        oracle_page_text(sql, pagination)
    }

    fn placeholder(&self, index: usize) -> (r: String) {
        let mut s = ":".to_owned();
        push_usize(&mut s, index);
        s
    }

    fn paginate(&self, sql: String, pagination: &Pagination, _has_order_by: bool) -> (r: String) {
        let upper = pagination.offset + pagination.limit;
        let mut s = "SELECT * FROM (SELECT inner_query.*, ROWNUM AS row_num FROM (".to_owned();
        s.append(sql.as_str());
        s.append(") inner_query WHERE ROWNUM <= ");
        push_usize(&mut s, upper);
        s.append(") WHERE row_num > ");
        push_usize(&mut s, pagination.offset);
        s
    }
}

impl SqlDialect for SqlServerDialect {
    open spec fn admits_page(&self, pagination: Pagination) -> bool {
        true
    }

    open spec fn placeholder_text(&self, index: nat) -> Seq<char> {
        "@p"@ + nat_text(index)
    }

    open spec fn paginate_text(&self, sql: Seq<char>, pagination: Pagination, has_order_by: bool) -> Seq<char> {
        sql_server_page_text(sql, pagination, has_order_by)
    }

    fn placeholder(&self, index: usize) -> (r: String) {
        let mut s = "@p".to_owned();
        push_usize(&mut s, index);
        s
    }

    fn paginate(&self, sql: String, pagination: &Pagination, has_order_by: bool) -> (r: String) {
        let mut s = sql;
        if !has_order_by {
            s.append(" ORDER BY (SELECT 1)");
        }
        s.append(" OFFSET ");
        push_usize(&mut s, pagination.offset);
        s.append(" ROWS FETCH NEXT ");
        push_usize(&mut s, pagination.limit);
        s.append(" ROWS ONLY");
        s
    }
}

/// One of the built-in dialects, chosen at run time.
pub enum AnyDialect {
    MySql,
    Postgres,
    Oracle,
    SqlServer,
    Sqlite,
}

impl SqlDialect for AnyDialect {
    open spec fn admits_page(&self, pagination: Pagination) -> bool {
        match self {
            AnyDialect::MySql => MySqlDialect.admits_page(pagination),
            AnyDialect::Postgres => PostgresDialect.admits_page(pagination),
            AnyDialect::Oracle => OracleDialect.admits_page(pagination),
            AnyDialect::SqlServer => SqlServerDialect.admits_page(pagination),
            AnyDialect::Sqlite => SqliteDialect.admits_page(pagination),
        }
    }

    open spec fn placeholder_text(&self, index: nat) -> Seq<char> {
        match self {
            AnyDialect::MySql => MySqlDialect.placeholder_text(index),
            AnyDialect::Postgres => PostgresDialect.placeholder_text(index),
            AnyDialect::Oracle => OracleDialect.placeholder_text(index),
            AnyDialect::SqlServer => SqlServerDialect.placeholder_text(index),
            AnyDialect::Sqlite => SqliteDialect.placeholder_text(index),
        }
    }

    open spec fn paginate_text(&self, sql: Seq<char>, pagination: Pagination, has_order_by: bool) -> Seq<char> {
        match self {
            AnyDialect::MySql => MySqlDialect.paginate_text(sql, pagination, has_order_by),
            AnyDialect::Postgres => PostgresDialect.paginate_text(sql, pagination, has_order_by),
            AnyDialect::Oracle => OracleDialect.paginate_text(sql, pagination, has_order_by),
            AnyDialect::SqlServer => SqlServerDialect.paginate_text(sql, pagination, has_order_by),
            AnyDialect::Sqlite => SqliteDialect.paginate_text(sql, pagination, has_order_by),
        }
    }

    fn placeholder(&self, index: usize) -> (r: String) {
        match self {
            AnyDialect::MySql => MySqlDialect.placeholder(index),
            AnyDialect::Postgres => PostgresDialect.placeholder(index),
            AnyDialect::Oracle => OracleDialect.placeholder(index),
            AnyDialect::SqlServer => SqlServerDialect.placeholder(index),
            AnyDialect::Sqlite => SqliteDialect.placeholder(index),
        }
    }

    fn paginate(&self, sql: String, pagination: &Pagination, has_order_by: bool) -> (r: String) {
        match self {
            AnyDialect::MySql => MySqlDialect.paginate(sql, pagination, has_order_by),
            AnyDialect::Postgres => PostgresDialect.paginate(sql, pagination, has_order_by),
            AnyDialect::Oracle => OracleDialect.paginate(sql, pagination, has_order_by),
            AnyDialect::SqlServer => SqlServerDialect.paginate(sql, pagination, has_order_by),
            AnyDialect::Sqlite => SqliteDialect.paginate(sql, pagination, has_order_by),
        }
    }
}

} // verus!
