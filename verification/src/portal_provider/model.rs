//! What a portal provider answers for each clause, stated over its columns.

use vstd::prelude::*;

use super::helpers::{prefix_before, sanitized, with_unique};
use super::types::{Column, Id, PortalProviderOption};
use crate::metadata_driver::filters::object_get;
use crate::metadata_driver::helpers::is_plain_number;
use crate::sql::{Readiness, StatementModel, StatementType};
use crate::text::{escape_quotes, has_char, int_text, join, nat_text, split_words, strip_leading};
use crate::value::ValueModel;
use crate::wildcard::glob_match;

verus! {

/// How many times `c` occurs in `s`.
pub open spec fn count_of(s: Seq<char>, c: char) -> nat
    decreases s.len(),
{
    if s.len() == 0 { 0 } else { count_of(s.drop_last(), c) + (if s.last() == c { 1nat } else { 0nat }) }
}

/// The segments of the first `n` characters of `s` split at `sep`, and the segment
/// still being read.
pub open spec fn segments_state(s: Seq<char>, sep: char, n: int) -> (Seq<Seq<char>>, Seq<char>)
    decreases n,
{
    if n <= 0 {
        (Seq::empty(), Seq::empty())
    } else {
        let (done, current) = segments_state(s, sep, n - 1);
        if s[n - 1] == sep { (done.push(current), Seq::empty()) } else { (done, current.push(s[n - 1])) }
    }
}

/// The segments of `s` split at `sep` (what `str::split` with a char yields).
pub open spec fn split_on(s: Seq<char>, sep: char) -> Seq<Seq<char>> {
    let (done, current) = segments_state(s, sep, s.len() as int);
    done.push(current)
}

/// The last segment of `s` split at `;`.
pub open spec fn last_segment(s: Seq<char>) -> Seq<char> {
    split_on(s, ';').last()
}

/// The first position from `i` on where `pattern` occurs in `s`.
pub open spec fn occurrence_from(s: Seq<char>, pattern: Seq<char>, i: int) -> Option<int>
    decreases s.len() + 1 - i,
{
    if i < 0 || i + pattern.len() > s.len() {
        None
    } else if s.subrange(i, i + pattern.len() as int) == pattern {
        Some(i)
    } else {
        occurrence_from(s, pattern, i + 1)
    }
}

/// The text of `s` before its first ` as `.
pub open spec fn before_as(s: Seq<char>) -> Option<Seq<char>> {
    match occurrence_from(s, " as "@, 0) {
        Some(k) => Some(s.take(k)),
        None => None,
    }
}

/// Whether `s` is `id` in upper case (`ID`; `i`, `I` and the dotless `ı` all become `I`).
pub open spec fn is_upper_id(s: Seq<char>) -> bool {
    s.len() == 2 && (s[0] == 'i' || s[0] == 'I' || s[0] == '\u{131}') && (s[1] == 'd' || s[1] == 'D')
}

/// The state a provider answers from.
pub struct PortalModel {
    pub statement_type: StatementType,
    pub user_id: Id,
    pub data: Seq<Column>,
    pub args: PortalProviderOption,
}

/// One link of a column: the key of a chain of foreign keys, its alias and its table.
pub type LinkEntry = (Seq<char>, Seq<char>, Seq<char>);

/// The position in the masks that the provider checks.
pub open spec fn mask_index(args: PortalProviderOption) -> int {
    match args.max_idx {
        Some(i) => i as int,
        None => 0,
    }
}

/// Whether a column's mask grants the checked position.
pub open spec fn mask_matches(c: Column, args: PortalProviderOption) -> bool {
    let k = mask_index(args);
    k < c.mask@.len() && c.mask@[k] == '1'
}

/// `real current` when the column has a real table, else `current`.
pub open spec fn table_with_alias(c: Column) -> Seq<char> {
    match c.real_table {
        Some(r) => r@ + " "@ + c.current_table@,
        None => c.current_table@,
    }
}

/// The table an insert writes: the real table, else the current one.
pub open spec fn insert_table(c: Column) -> Seq<char> {
    match c.real_table {
        Some(r) => r@,
        None => c.current_table@,
    }
}

pub open spec fn entry_keys(entries: Seq<LinkEntry>) -> Seq<Seq<char>> {
    entries.map_values(|e: LinkEntry| e.0)
}

/// The links after the first `j` link tables of a column: the key of the first `j`
/// foreign keys gets the next alias `aN` and the `j`-th table, unless it has one.
pub open spec fn column_links(entries: Seq<LinkEntry>, c: Column, j: int) -> Seq<LinkEntry>
    decreases j,
{
    if j <= 0 || j > c.columnlink_tablenames@.len() {
        entries
    } else {
        let prev = column_links(entries, c, j - 1);
        let key = prefix_before(c.dbname@, ';', j as nat);
        if entry_keys(prev).contains(key) {
            prev
        } else {
            prev.push((key, "a"@ + nat_text((prev.len() + 1) as nat), c.columnlink_tablenames@[j - 1]@))
        }
    }
}

/// The links of the first `n` columns.
pub open spec fn links_upto(cols: Seq<Column>, n: int) -> Seq<LinkEntry>
    decreases n,
{
    if n <= 0 || n > cols.len() {
        Seq::empty()
    } else {
        column_links(links_upto(cols, n - 1), cols[n - 1], cols[n - 1].columnlink_tablenames@.len() as int)
    }
}

/// The tables of a select after the first `n` columns: the first column's table, then
/// the table of each column without link tables, once each.
pub open spec fn select_tables_upto(cols: Seq<Column>, n: int) -> Seq<Seq<char>>
    decreases n,
{
    if n <= 0 || n > cols.len() {
        if cols.len() > 0 { seq![table_with_alias(cols[0])] } else { Seq::empty() }
    } else {
        let prev = select_tables_upto(cols, n - 1);
        if cols[n - 1].columnlink_tablenames@.len() == 0 { with_unique(prev, table_with_alias(cols[n - 1])) } else { prev }
    }
}

/// The tables clause.
pub open spec fn tables_of(m: PortalModel) -> Seq<Seq<char>> {
    match m.statement_type {
        StatementType::SELECT => select_tables_upto(m.data, m.data.len() as int),
        StatementType::INSERT => if m.data.len() > 0 { seq![insert_table(m.data[0])] } else { Seq::empty() },
        _ => if m.data.len() > 0 { seq![table_with_alias(m.data[0])] } else { Seq::empty() },
    }
}

/// The links of a select; other statements have none.
pub open spec fn links_of(m: PortalModel) -> Seq<LinkEntry> {
    if m.statement_type == StatementType::SELECT { links_upto(m.data, m.data.len() as int) } else { Seq::empty() }
}

/// The first table from position `i` on without a space.
pub open spec fn first_spaceless(tables: Seq<Seq<char>>, i: int) -> Option<int>
    decreases tables.len() - i,
{
    if i < 0 || i >= tables.len() {
        None
    } else if !has_char(tables[i], ' ') {
        Some(i)
    } else {
        first_spaceless(tables, i + 1)
    }
}

/// The main table: the first table without a space, else the last word of the first table.
pub open spec fn main_table_of(tables: Seq<Seq<char>>) -> Seq<char> {
    match first_spaceless(tables, 0) {
        Some(i) => tables[i],
        None => if tables.len() > 0 && split_words(tables[0]).len() > 0 { split_words(tables[0]).last() } else { Seq::empty() },
    }
}

/// The alias and table of a key.
pub open spec fn link_lookup(entries: Seq<LinkEntry>, key: Seq<char>) -> Option<(Seq<char>, Seq<char>)>
    decreases entries.len(),
{
    if entries.len() == 0 {
        None
    } else if entries[0].0 == key {
        Some((entries[0].1, entries[0].2))
    } else {
        link_lookup(entries.drop_first(), key)
    }
}

/// The alias of the table a link column reads: that of the chain before its last `;`.
pub open spec fn link_alias_of(entries: Seq<LinkEntry>, link: Seq<char>) -> Seq<char> {
    match link_lookup(entries, prefix_before(link, ';', count_of(link, ';'))) {
        Some(p) => p.0,
        None => Seq::empty(),
    }
}

/// Whether a column displays another table's column: it has a referenced table and is
/// filled as `object` or `operate`.
pub open spec fn is_reference_lookup(c: Column) -> bool {
    c.ref_table_id is Some && c.ref_table is Some && (c.obtainmanner@ == "object"@ || c.obtainmanner@ == "operate"@)
}

/// The select expressions of a column.
pub open spec fn select_expressions_of(main: Seq<char>, c: Column, entries: Seq<LinkEntry>) -> Seq<Seq<char>> {
    let db = c.dbname@;
    if is_reference_lookup(c) {
        match c.ref_table {
            Some(dk) => seq![
                main + "."@ + db + " as \""@ + db + "\""@,
                "(select "@ + dk.dk_column@ + " as dk from "@ + dk.table_name@ + " x where id = "@ + main + "."@ + db
                    + ") as \""@ + db + ".dk\""@,
            ],
            None => Seq::empty(),
        }
    } else if has_char(db, ';') {
        seq![link_alias_of(entries, db) + "."@ + last_segment(db) + " as \""@ + int_text(c.column_id as int) + "\""@]
    } else if glob_match("*(*)"@, db) {
        seq![db + " as \""@ + int_text(c.column_id as int) + "\""@]
    } else if has_char(db, '.') {
        seq![db + " as \""@ + db + "\""@]
    } else {
        seq![main + "."@ + db + " as \""@ + db + "\""@]
    }
}

/// The select expressions of the granted columns among the first `n`.
pub open spec fn select_upto(cols: Seq<Column>, args: PortalProviderOption, main: Seq<char>, entries: Seq<LinkEntry>, n: int) -> Seq<Seq<char>>
    decreases n,
{
    if n <= 0 || n > cols.len() {
        Seq::empty()
    } else {
        select_upto(cols, args, main, entries, n - 1)
            + (if mask_matches(cols[n - 1], args) { select_expressions_of(main, cols[n - 1], entries) } else { Seq::empty() })
    }
}

/// The select clause: the main table's id unless grouped, then the granted columns (when
/// a mask position is given).
pub open spec fn select_of(m: PortalModel) -> Seq<Seq<char>> {
    if m.statement_type == StatementType::SELECT {
        let main = main_table_of(tables_of(m));
        (if m.args.is_group == Some(true) { Seq::empty() } else { seq![main + ".id as \"id\""@] })
            + (if m.args.max_idx is Some { select_upto(m.data, m.args, main, links_of(m), m.data.len() as int) } else { Seq::empty() })
    } else {
        Seq::empty()
    }
}

/// The table a column is filtered on.
pub open spec fn filter_table_of(c: Column, entries: Seq<LinkEntry>) -> Seq<char> {
    if has_char(c.dbname@, ';') { link_alias_of(entries, c.dbname@) } else { c.current_table@ }
}

/// The column a column is filtered on.
pub open spec fn filter_column_of(c: Column) -> Seq<char> {
    if has_char(c.dbname@, ';') { last_segment(c.dbname@) } else { c.dbname@ }
}

/// `t.c like '%w%'`.
pub open spec fn like_sub(t: Seq<char>, col: Seq<char>) -> spec_fn(Seq<char>) -> Seq<char> {
    |w: Seq<char>| t + "."@ + col + " like '%"@ + w + "%'"@
}

/// The conditions of a text filter: `=x` asks for equality with `x`, a text with a space
/// for any of its words, any other text for equality; quotes are doubled.
pub open spec fn string_filter_clauses_of(t: Seq<char>, col: Seq<char>, value: Seq<char>) -> Seq<Seq<char>> {
    let s = escape_quotes(sanitized(value));
    if s.len() > 0 && s[0] == '=' {
        seq![t + "."@ + col + " = '"@ + strip_leading(s, '=') + "'"@]
    } else if has_char(s, ' ') {
        seq!["("@ + join(split_words(s).map_values(like_sub(t, col)), " or "@) + ")"@]
    } else {
        seq![t + "."@ + col + " = '"@ + s + "'"@]
    }
}

/// How a list item is written: a number as it is, a text quoted; others are left out.
pub open spec fn array_item_text(v: ValueModel) -> Option<Seq<char>> {
    match v {
        ValueModel::Number(n) => Some(n),
        ValueModel::Text(s) => Some("'"@ + escape_quotes(s) + "'"@),
        _ => None,
    }
}

pub open spec fn array_items_upto(items: Seq<ValueModel>, n: int) -> Seq<Seq<char>>
    decreases n,
{
    if n <= 0 || n > items.len() {
        Seq::empty()
    } else {
        array_items_upto(items, n - 1) + match array_item_text(items[n - 1]) {
            Some(t) => seq![t],
            None => Seq::empty(),
        }
    }
}

/// `t.c IN (items)`.
pub open spec fn array_filter_clause_of(t: Seq<char>, col: Seq<char>, items: Seq<ValueModel>) -> Seq<char> {
    t + "."@ + col + " IN ("@ + join(array_items_upto(items, items.len() as int), ","@) + ")"@
}

/// The conditions of a `between` object with numeric bounds.
pub open spec fn object_filter_clauses_of(t: Seq<char>, col: Seq<char>, entries: Seq<(Seq<char>, ValueModel)>) -> Seq<Seq<char>> {
    if object_get(entries, "type"@) == Some(ValueModel::Text("between"@)) {
        (match object_get(entries, "begin"@) {
            Some(ValueModel::Number(n)) => seq![t + "."@ + col + " >= "@ + n],
            _ => Seq::empty(),
        }) + (match object_get(entries, "end"@) {
            Some(ValueModel::Number(n)) => seq![t + "."@ + col + " <= "@ + n],
            _ => Seq::empty(),
        })
    } else {
        Seq::empty()
    }
}

/// The conditions of a column's value.
pub open spec fn value_clauses_of(c: Column, entries: Seq<LinkEntry>) -> Seq<Seq<char>> {
    let t = filter_table_of(c, entries);
    let col = filter_column_of(c);
    match c.value {
        None => Seq::empty(),
        Some(v) => match v@ {
            ValueModel::Null => Seq::empty(),
            ValueModel::Bool(b) => seq![t + "."@ + col + " = '"@ + (if b { "Y"@ } else { "N"@ }) + "'"@],
            ValueModel::Number(n) => seq![t + "."@ + col + " = "@ + n],
            ValueModel::Text(s) => string_filter_clauses_of(t, col, s),
            ValueModel::Array(items) => seq![array_filter_clause_of(t, col, items)],
            ValueModel::Object(e) => object_filter_clauses_of(t, col, e),
        },
    }
}

pub open spec fn where_upto(cols: Seq<Column>, entries: Seq<LinkEntry>, n: int) -> Seq<Seq<char>>
    decreases n,
{
    if n <= 0 || n > cols.len() {
        Seq::empty()
    } else {
        where_upto(cols, entries, n - 1) + value_clauses_of(cols[n - 1], entries)
    }
}

/// The where clause: for a select, the row filter (when not empty), the columns' values and
/// the row id; for an update, the row filter and the row id; nothing otherwise.
pub open spec fn where_of(m: PortalModel) -> Seq<Seq<char>> {
    match m.statement_type {
        StatementType::SELECT => {
            let tables = tables_of(m);
            if tables.len() == 0 {
                Seq::empty()
            } else {
                (match m.args.table_filter {
                    Some(t) => if t@.len() > 0 { seq![t@] } else { Seq::empty() },
                    None => Seq::empty(),
                }) + where_upto(m.data, links_of(m), m.data.len() as int) + match m.args.id {
                    Some(i) => seq![main_table_of(tables) + ".id = "@ + int_text(i as int)],
                    None => Seq::empty(),
                }
            }
        },
        StatementType::UPDATE => (match m.args.table_filter {
            Some(t) => seq![t@],
            None => Seq::empty(),
        }) + seq!["id = "@ + int_text(match m.args.id { Some(i) => i as int, None => 0 })],
        _ => Seq::empty(),
    }
}

pub open spec fn group_upto(select: Seq<Seq<char>>, n: int) -> Seq<Seq<char>>
    decreases n,
{
    if n <= 0 || n > select.len() {
        Seq::empty()
    } else {
        group_upto(select, n - 1) + (if !glob_match("*(*)*"@, select[n - 1]) {
            match before_as(select[n - 1]) {
                Some(p) => seq![p],
                None => Seq::empty(),
            }
        } else {
            Seq::empty()
        })
    }
}

/// The group clause of a grouped select: each select expression that is no function call
/// nor subquery, up to its ` as `.
pub open spec fn group_of(m: PortalModel) -> Seq<Seq<char>> {
    if m.statement_type == StatementType::SELECT && m.args.is_group == Some(true) {
        let s = select_of(m);
        group_upto(s, s.len() as int)
    } else {
        Seq::empty()
    }
}

pub open spec fn order_upto(cols: Seq<Column>, n: int) -> Seq<Seq<char>>
    decreases n,
{
    if n <= 0 || n > cols.len() {
        Seq::empty()
    } else {
        let c = cols[n - 1];
        order_upto(cols, n - 1) + (if c.order_by@ == "+"@ {
            seq![c.current_table@ + "."@ + c.dbname@ + " asc nulls first"@]
        } else if c.order_by@ == "-"@ {
            seq![c.current_table@ + "."@ + c.dbname@ + " desc nulls first"@]
        } else {
            Seq::empty()
        })
    }
}

/// The order clause: a grouped select orders by its groups; another select by the columns
/// marked `+` (ascending) or `-` (descending).
pub open spec fn order_of(m: PortalModel) -> Seq<Seq<char>> {
    if m.statement_type == StatementType::SELECT {
        if m.args.is_group == Some(true) { group_of(m) } else { order_upto(m.data, m.data.len() as int) }
    } else {
        Seq::empty()
    }
}

/// An ungrouped select orders by its columns in turn: a column marked `+` adds
/// `table.column asc nulls first`, one marked `-` adds `table.column desc nulls first`, any
/// other adds nothing; so `+` and `-` on one column give different orders.
pub proof fn column_sorts_follow_their_mark(m: PortalModel, n: int)
    requires
        m.statement_type == StatementType::SELECT,
        m.args.is_group != Some(true),
        0 < n <= m.data.len(),
    ensures
        portal_clauses(m).order_by == order_upto(m.data, m.data.len() as int),
        m.data[n - 1].order_by@ == "+"@ ==> order_upto(m.data, n) =~= order_upto(m.data, n - 1).push(
            m.data[n - 1].current_table@ + "."@ + m.data[n - 1].dbname@ + " asc nulls first"@,
        ),
        m.data[n - 1].order_by@ == "-"@ ==> order_upto(m.data, n) =~= order_upto(m.data, n - 1).push(
            m.data[n - 1].current_table@ + "."@ + m.data[n - 1].dbname@ + " desc nulls first"@,
        ),
        m.data[n - 1].order_by@ != "+"@ && m.data[n - 1].order_by@ != "-"@ ==> order_upto(m.data, n) == order_upto(m.data, n - 1),
        forall|plus: Column, minus: Column|
            plus.order_by@ == "+"@ && minus.order_by@ == "-"@ && plus.current_table@ == minus.current_table@ && plus.dbname@ == minus.dbname@
                ==> #[trigger] order_upto(m.data.update(n - 1, plus), n) != #[trigger] order_upto(m.data.update(n - 1, minus), n),
{
    reveal_strlit("+");
    reveal_strlit("-");
    reveal_strlit(" asc nulls first");
    reveal_strlit(" desc nulls first");
    assert("+"@[0] != "-"@[0]);
    assert("+"@ != "-"@);
    assert forall|plus: Column, minus: Column|
        plus.order_by@ == "+"@ && minus.order_by@ == "-"@ && plus.current_table@ == minus.current_table@ && plus.dbname@ == minus.dbname@
            implies #[trigger] order_upto(m.data.update(n - 1, plus), n) != #[trigger] order_upto(m.data.update(n - 1, minus), n) by {
        let fp = m.data.update(n - 1, plus);
        let fm = m.data.update(n - 1, minus);
        lemma_order_upto_prefix(fp, fm, n - 1);
        let a = order_upto(fp, n);
        let b = order_upto(fm, n);
        let h = plus.current_table@ + "."@ + plus.dbname@;
        assert(a.last() == h + " asc nulls first"@);
        assert(b.last() == h + " desc nulls first"@);
        assert(a.last().len() != b.last().len());
    }
}

proof fn lemma_order_upto_prefix(f: Seq<Column>, g: Seq<Column>, n: int)
    requires
        0 <= n <= f.len(),
        n <= g.len(),
        forall|i: int| 0 <= i < n ==> f[i] == g[i],
    ensures
        order_upto(f, n) == order_upto(g, n),
    decreases n,
{
    if n > 0 {
        lemma_order_upto_prefix(f, g, n - 1);
    }
}

/// Whether an insert writes a column: one without a space in its name that is granted, or
/// that is required (not nullable, not `id`, not filled by a trigger).
pub open spec fn insert_column(c: Column, args: PortalProviderOption) -> bool {
    let back = !c.nullable && !is_upper_id(c.dbname@) && c.obtainmanner@ != "triger"@;
    let not_calc = !has_char(c.dbname@, ' ');
    (mask_matches(c, args) && not_calc) || (back && not_calc)
}

pub open spec fn columns_upto(cols: Seq<Column>, args: PortalProviderOption, n: int) -> Seq<Seq<char>>
    decreases n,
{
    if n <= 0 || n > cols.len() {
        Seq::empty()
    } else {
        columns_upto(cols, args, n - 1) + (if insert_column(cols[n - 1], args) { seq![cols[n - 1].dbname@] } else { Seq::empty() })
    }
}

/// The columns every insert writes first.
pub open spec fn init_columns() -> Seq<Seq<char>> {
    seq!["id"@, "ad_client_id"@, "ad_org_id"@, "ownerid"@, "modifiered"@, "creationdate"@, "modifieddate"@]
}

/// The columns clause of an insert.
pub open spec fn columns_of(m: PortalModel) -> Seq<Seq<char>> {
    if m.statement_type == StatementType::INSERT { init_columns() + columns_upto(m.data, m.args, m.data.len() as int) } else { Seq::empty() }
}

/// Whether a column takes the next number of a sequence.
pub open spec fn is_sheet_no(c: Column) -> bool {
    c.obtainmanner@ == "sheetNo"@
}

/// What an insert writes for a column: its value, else its default text.
pub open spec fn insert_condition(c: Column) -> ValueModel {
    match c.value {
        Some(v) => v@,
        None => ValueModel::Text(c.default_value@),
    }
}

/// How an insert writes a value: null, a number or a digit text as it is, the id of the
/// referenced row for a lookup column, else a quoted text; lists and objects are left out.
pub open spec fn insert_value_of(c: Column, v: ValueModel) -> Option<Seq<char>> {
    match v {
        ValueModel::Null => Some("null"@),
        ValueModel::Number(n) => Some(n),
        ValueModel::Text(s) => {
            if s.len() == 0 {
                Some("null"@)
            } else if is_plain_number(s) {
                Some(s)
            } else if is_reference_lookup(c) {
                match c.ref_table {
                    Some(dk) => Some("(select id from "@ + dk.table_name@ + " where "@ + dk.dk_column@ + " = '"@ + s + "')"@),
                    None => None,
                }
            } else {
                Some("'"@ + escape_quotes(s) + "'"@)
            }
        },
        _ => None,
    }
}

pub open spec fn values_upto(cols: Seq<Column>, args: PortalProviderOption, n: int) -> Seq<Seq<char>>
    decreases n,
{
    if n <= 0 || n > cols.len() {
        Seq::empty()
    } else {
        let c = cols[n - 1];
        values_upto(cols, args, n - 1) + (if insert_column(c, args) {
            if is_sheet_no(c) {
                seq!["get_sequenceno('"@ + c.sequencename@ + "', 37)"@]
            } else {
                match insert_value_of(c, insert_condition(c)) {
                    Some(t) => seq![t],
                    None => Seq::empty(),
                }
            }
        } else {
            Seq::empty()
        })
    }
}

/// The values every insert writes first: the row id, client 37, organisation 27, the user
/// as owner and modifier, and the dates.
pub open spec fn init_values(m: PortalModel) -> Seq<Seq<char>> {
    seq![
        int_text(match m.args.id { Some(i) => i as int, None => 0 }),
        "37"@,
        "27"@,
        int_text(m.user_id as int),
        int_text(m.user_id as int),
        "sysdate"@,
        "sysdate"@,
    ]
}

/// The values clause of an insert.
pub open spec fn values_of(m: PortalModel) -> Seq<Seq<char>> {
    if m.statement_type == StatementType::INSERT { init_values(m) + values_upto(m.data, m.args, m.data.len() as int) } else { Seq::empty() }
}

/// The assignment of a column's value: a number as it is, a text quoted.
pub open spec fn set_clause_of(c: Column) -> Seq<Seq<char>> {
    match c.value {
        Some(v) => match v@ {
            ValueModel::Number(n) => seq![c.dbname@ + " = "@ + n],
            ValueModel::Text(s) => seq![c.dbname@ + " = '"@ + escape_quotes(s) + "'"@],
            _ => Seq::empty(),
        },
        None => Seq::empty(),
    }
}

pub open spec fn sets_upto(cols: Seq<Column>, args: PortalProviderOption, n: int) -> Seq<Seq<char>>
    decreases n,
{
    if n <= 0 || n > cols.len() {
        Seq::empty()
    } else {
        sets_upto(cols, args, n - 1) + (if mask_matches(cols[n - 1], args) { set_clause_of(cols[n - 1]) } else { Seq::empty() })
    }
}

/// The set clause: the modifier and modification date, then, for an update, the granted
/// columns' values.
pub open spec fn sets_of(m: PortalModel) -> Seq<Seq<char>> {
    seq!["modifierid="@ + int_text(m.user_id as int), "modifieddate = sysdate"@]
        + (if m.statement_type == StatementType::UPDATE { sets_upto(m.data, m.args, m.data.len() as int) } else { Seq::empty() })
}

/// The chains already joined from the main table, and the joins.
pub type JoinState = (Seq<Seq<char>>, Seq<Seq<char>>);

/// The joins after the first `i` foreign keys of a link column.
pub open spec fn column_joins(st: JoinState, c: Column, entries: Seq<LinkEntry>, main: Seq<char>, i: int) -> JoinState
    decreases i,
{
    let fks = split_on(c.dbname@, ';').drop_last();
    if i <= 0 || i > fks.len() {
        st
    } else {
        let prev = column_joins(st, c, entries, main, i - 1);
        let k = i - 1;
        let key = prefix_before(c.dbname@, ';', (k + 1) as nat);
        let (alias, right) = match link_lookup(entries, key) {
            Some(p) => p,
            None => (Seq::empty(), Seq::empty()),
        };
        if k == 0 && prev.0.contains(key) {
            prev
        } else {
            let saved = if k == 0 { prev.0.push(key) } else { prev.0 };
            let left = if k == 0 { main } else { link_alias_of(entries, key) };
            (saved, with_unique(prev.1, right + " "@ + alias + " ON "@ + left + "."@ + fks[k] + " = "@ + alias + ".id"@))
        }
    }
}

pub open spec fn joins_upto(cols: Seq<Column>, entries: Seq<LinkEntry>, main: Seq<char>, n: int) -> JoinState
    decreases n,
{
    if n <= 0 || n > cols.len() {
        (Seq::empty(), Seq::empty())
    } else {
        let prev = joins_upto(cols, entries, main, n - 1);
        let c = cols[n - 1];
        if has_char(c.dbname@, ';') {
            column_joins(prev, c, entries, main, split_on(c.dbname@, ';').len() - 1)
        } else {
            prev
        }
    }
}

/// The left joins of the link columns: one per chain of foreign keys.
pub open spec fn left_joins_of(m: PortalModel) -> Seq<Seq<char>> {
    joins_upto(m.data, links_of(m), main_table_of(tables_of(m)), m.data.len() as int).1
}

/// The clauses a portal provider answers.
pub open spec fn portal_clauses(m: PortalModel) -> StatementModel {
    StatementModel {
        statement_type: m.statement_type,
        distinct: false,
        select: select_of(m),
        tables: tables_of(m),
        join: Seq::empty(),
        inner_join: Seq::empty(),
        outer_join: Seq::empty(),
        left_outer_join: left_joins_of(m),
        right_outer_join: Seq::empty(),
        wheres: where_of(m),
        having: Seq::empty(),
        group_by: group_of(m),
        order_by: order_of(m),
        columns: columns_of(m),
        values: values_of(m),
        sets: sets_of(m),
    }
}

/// Whether a column's text value is `<...>` markup of an `object` column.
pub open spec fn object_markup(c: Column) -> bool {
    c.obtainmanner@ == "object"@ && match c.value {
        Some(v) => match v@ {
            ValueModel::Text(s) => s.len() > 0 && s[0] == '<' && s.last() == '>',
            _ => false,
        },
        None => false,
    }
}

/// Whether the links hold the chain a link column's text reads: the part of its name
/// before its last `;`.
pub open spec fn link_alias_known(entries: Seq<LinkEntry>, link: Seq<char>) -> bool {
    link_lookup(entries, prefix_before(link, ';', count_of(link, ';'))) is Some
}

/// Whether the links hold every chain of a column: the part of its name before each `;`.
pub open spec fn chains_known(c: Column, entries: Seq<LinkEntry>) -> bool {
    forall|j: nat| 1 <= j <= count_of(c.dbname@, ';') ==> (link_lookup(entries, #[trigger] prefix_before(c.dbname@, ';', j)) is Some)
}

/// Whether a main table can be found among `tables`: there is one, and when each has a
/// space, the first has a word.
pub open spec fn main_table_found(tables: Seq<Seq<char>>) -> bool {
    tables.len() > 0 && (first_spaceless(tables, 0) is None ==> split_words(tables[0]).len() > 0)
}

/// Whether a select can write a column: a granted link column needs its chain.
pub open spec fn select_column_ok(c: Column, args: PortalProviderOption, entries: Seq<LinkEntry>) -> bool {
    mask_matches(c, args) && !is_reference_lookup(c) && has_char(c.dbname@, ';') ==> link_alias_known(entries, c.dbname@)
}

/// Whether a select can filter by a column: a link column with a value needs its chain, and
/// `<...>` markup of an `object` column cannot be read.
pub open spec fn filter_column_ok(c: Column, entries: Seq<LinkEntry>) -> bool {
    &&& c.value is Some && has_char(c.dbname@, ';') ==> link_alias_known(entries, c.dbname@)
    &&& !object_markup(c)
}

/// Whether an insert can write a column's value: not a flag.
pub open spec fn insert_value_ok(c: Column, args: PortalProviderOption) -> bool {
    insert_column(c, args) && !is_sheet_no(c) ==> !(insert_condition(c) is Bool)
}

/// Whether the select clause can be answered: a select needs its main table and, when it
/// lists granted columns, the chain of each granted link column.
pub open spec fn select_ready(m: PortalModel) -> bool {
    m.statement_type == StatementType::SELECT ==> {
        &&& main_table_found(tables_of(m))
        &&& m.args.max_idx is Some ==> forall|i: int| 0 <= i < m.data.len() ==> select_column_ok(#[trigger] m.data[i], m.args, links_of(m))
    }
}

/// Whether the left joins can be answered: a main table, and every chain of every link
/// column (outside a select there are no links).
pub open spec fn left_outer_join_ready(m: PortalModel) -> bool {
    &&& main_table_found(tables_of(m))
    &&& forall|i: int| 0 <= i < m.data.len() ==> chains_known(#[trigger] m.data[i], links_of(m))
}

/// Whether the where clause can be answered: a select with tables needs its main table and
/// readable filters; an update needs a row id.
pub open spec fn where_ready(m: PortalModel) -> bool {
    match m.statement_type {
        StatementType::SELECT => tables_of(m).len() > 0 ==> {
            &&& main_table_found(tables_of(m))
            &&& forall|i: int| 0 <= i < m.data.len() ==> filter_column_ok(#[trigger] m.data[i], links_of(m))
        },
        StatementType::UPDATE => m.args.id is Some,
        _ => true,
    }
}

/// Whether the group clause can be answered: a grouped select reads its select clause.
pub open spec fn group_by_ready(m: PortalModel) -> bool {
    m.statement_type == StatementType::SELECT && m.args.is_group == Some(true) ==> select_ready(m)
}

/// Whether the values clause can be answered: an insert needs a row id and no flag to write.
pub open spec fn values_ready(m: PortalModel) -> bool {
    m.statement_type == StatementType::INSERT ==> {
        &&& m.args.id is Some
        &&& forall|i: int| 0 <= i < m.data.len() ==> insert_value_ok(#[trigger] m.data[i], m.args)
    }
}

/// Which clauses a portal provider can answer; a grouped select orders by its groups, so
/// the order clause needs what the group clause needs.
pub open spec fn portal_readiness(m: PortalModel) -> Readiness {
    Readiness {
        select: select_ready(m),
        left_outer_join: left_outer_join_ready(m),
        wheres: where_ready(m),
        group_by: group_by_ready(m),
        order_by: group_by_ready(m),
        values: values_ready(m),
    }
}

/// A grouped portal select orders by exactly what it groups by.
pub proof fn grouped_portal_select_orders_by_its_groups(m: PortalModel)
    requires
        m.statement_type == StatementType::SELECT,
        m.args.is_group == Some(true),
    ensures
        portal_clauses(m).order_by == portal_clauses(m).group_by,
{
}

/// Each statement fills only its own clauses: only a select selects, groups and orders,
/// only an insert lists columns and values.
pub proof fn portal_statements_fill_their_own_clauses(m: PortalModel)
    ensures
        m.statement_type != StatementType::SELECT ==> {
            &&& portal_clauses(m).select.len() == 0
            &&& portal_clauses(m).group_by.len() == 0
            &&& portal_clauses(m).order_by.len() == 0
        },
        m.statement_type != StatementType::INSERT ==> {
            &&& portal_clauses(m).columns.len() == 0
            &&& portal_clauses(m).values.len() == 0
        },
{
}

} // verus!
