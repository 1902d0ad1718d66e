//! The portal provider: answers the clauses of a statement from portal columns.

use vstd::prelude::*;

use super::helpers::{prefix_before, push_unique, sanitize_filter_value, text_before_nth, with_unique};
use super::model::{
    array_filter_clause_of, array_items_upto, before_as, column_joins, column_links, columns_of, columns_upto,
    count_of, entry_keys, filter_column_of, filter_table_of, first_spaceless, group_of, group_upto,
    init_columns, init_values, insert_column, insert_value_of, is_reference_lookup, is_sheet_no, is_upper_id,
    joins_upto, like_sub, link_alias_of, link_lookup, links_of, links_upto, main_table_of, mask_matches,
    object_filter_clauses_of, occurrence_from, order_of, order_upto, portal_clauses, portal_readiness, segments_state,
    select_expressions_of, select_of, select_tables_upto, select_upto, set_clause_of, sets_of, sets_upto, split_on,
    string_filter_clauses_of, table_with_alias, tables_of, value_clauses_of, values_of, values_upto, where_of,
    where_upto, LinkEntry, PortalModel,
};
use super::types::{Column, Id, PortalProviderOption};
use crate::metadata_driver::filters::{object_get, object_value};
use crate::metadata_driver::helpers::is_numeric_string_without_leading_zero;
use crate::sql::{Readiness, SQLProvider, StatementModel, StatementType};
use crate::text::{
    chars_of, contains_char, copy_string, has_char, i64_text, join_strings, owned, push_char, push_escaped_quotes,
    push_u128, split_whitespace_words, starts_with_char, str_eq, string_of, strings_view, trim_leading,
};
use crate::value::{entries_model, lemma_array_view, lemma_object_view, values_model, Value, ValueModel};
use crate::wildcard::wildcard_matches;

verus! {

/// How many times `c` occurs in `s`.
fn count_char(s: &str, c: char) -> (r: usize)
    ensures
        r == count_of(s@, c),
{
    let chars = chars_of(s);
    let n = chars.len();
    let mut i: usize = 0;
    let mut count: usize = 0;
    while i < n
        invariant
            n == chars@.len(),
            chars@ == s@,
            i <= n,
            count <= i,
            count == count_of(s@.take(i as int), c),
        decreases n - i,
    {
        assert(s@.take(i + 1).drop_last() =~= s@.take(i as int));
        if chars[i] == c {
            count = count + 1;
        }
        i = i + 1;
    }
    assert(s@.take(n as int) =~= s@);
    count
}

/// The segments of `s` split at `sep`.
pub(crate) fn split_segments(s: &str, sep: char) -> (r: Vec<String>)
    ensures
        strings_view(r@) == split_on(s@, sep),
{
    let chars = chars_of(s);
    let mut done: Vec<String> = Vec::new();
    let mut current: Vec<char> = Vec::new();
    let n = chars.len();
    let mut i: usize = 0;
    while i < n
        invariant
            n == chars@.len(),
            chars@ == s@,
            i <= n,
            strings_view(done@) == segments_state(s@, sep, i as int).0,
            current@ == segments_state(s@, sep, i as int).1,
        decreases n - i,
    {
        if chars[i] == sep {
            let w = string_of(&current);
            let ghost before = done@;
            done.push(w);
            assert(strings_view(done@) =~= strings_view(before).push(w@));
            current = Vec::new();
            assert(current@ =~= Seq::<char>::empty());
        } else {
            current.push(chars[i]);
        }
        i = i + 1;
    }
    let w = string_of(&current);
    let ghost before = done@;
    done.push(w);
    assert(strings_view(done@) =~= strings_view(before).push(w@));
    done
}

/// The text of `s` before its first ` as `.
fn before_as_text(s: &str) -> (r: Option<String>)
    ensures
        match r {
            Some(p) => before_as(s@) == Some(p@),
            None => before_as(s@) is None,
        },
{
    proof {
        reveal_strlit(" as ");
    }
    let chars = chars_of(s);
    let n = chars.len();
    let mut i: usize = 0;
    while i < n
        invariant
            n == chars@.len(),
            chars@ == s@,
            " as "@ == seq![' ', 'a', 's', ' '],
            i <= n,
            occurrence_from(s@, " as "@, 0) == occurrence_from(s@, " as "@, i as int),
        decreases n - i,
    {
        if n - i < 4 {
            return None;
        }
        let found = chars[i] == ' ' && chars[i + 1] == 'a' && chars[i + 2] == 's' && chars[i + 3] == ' ';
        assert(found == (s@.subrange(i as int, i + 4) =~= " as "@));
        if found {
            let mut out: Vec<char> = Vec::new();
            let mut j: usize = 0;
            while j < i
                invariant
                    n == chars@.len(),
                    chars@ == s@,
                    j <= i < n,
                    out@ == s@.take(j as int),
                decreases i - j,
            {
                out.push(chars[j]);
                assert(out@ =~= s@.take(j + 1));
                j = j + 1;
            }
            return Some(string_of(&out));
        }
        i = i + 1;
    }
    None
}

/// Whether `s` is `id` in upper case.
fn is_upper_id_text(s: &str) -> (r: bool)
    ensures
        r == is_upper_id(s@),
{
    s.unicode_len() == 2 && (s.get_char(0) == 'i' || s.get_char(0) == 'I' || s.get_char(0) == '\u{131}')
        && (s.get_char(1) == 'd' || s.get_char(1) == 'D')
}

/// Appends all of `more` to `out`.
fn append_all(out: &mut Vec<String>, more: Vec<String>)
    ensures
        strings_view(final(out)@) == strings_view(old(out)@) + strings_view(more@),
{
    let ghost start = strings_view(out@);
    let n = more.len();
    let mut i: usize = 0;
    while i < n
        invariant
            n == more@.len(),
            i <= n,
            strings_view(out@) == start + strings_view(more@).take(i as int),
        decreases n - i,
    {
        let ghost before = out@;
        out.push(copy_string(&more[i]));
        assert(strings_view(out@) =~= strings_view(before).push(more@[i as int]@));
        assert(strings_view(more@).take(i + 1) =~= strings_view(more@).take(i as int).push(more@[i as int]@));
        i = i + 1;
    }
    assert(strings_view(more@).take(n as int) =~= strings_view(more@));
}

fn push_text(out: &mut Vec<String>, s: String)
    ensures
        strings_view(final(out)@) == strings_view(old(out)@).push(s@),
{
    let ghost before = out@;
    out.push(s);
    assert(strings_view(out@) =~= strings_view(before).push(s@));
}

/// `real current`, or `current`.
fn table_with_alias_text(c: &Column) -> (r: String)
    ensures
        r@ == table_with_alias(*c),
{
    match &c.real_table {
        Some(real_table) => {
            let mut s = copy_string(real_table);
            s.append(" ");
            s.append(c.current_table.as_str());
            s
        },
        None => copy_string(&c.current_table),
    }
}

fn is_reference_lookup_column(c: &Column) -> (r: bool)
    ensures
        r == is_reference_lookup(*c),
{
    c.ref_table_id.is_some() && c.ref_table.is_some()
        && (str_eq(c.obtainmanner.as_str(), "object") || str_eq(c.obtainmanner.as_str(), "operate"))
}

fn is_sheet_no_column(c: &Column) -> (r: bool)
    ensures
        r == is_sheet_no(*c),
{
    str_eq(c.obtainmanner.as_str(), "sheetNo")
}

/// The conditions of a text filter on `t.col`.
fn string_filter_clauses(t: &str, col: &str, value: &str) -> (r: Vec<String>)
    ensures
        strings_view(r@) == string_filter_clauses_of(t@, col@, value@),
{
    let cleaned = sanitize_filter_value(value);
    let mut s = String::new();
    push_escaped_quotes(&mut s, cleaned.as_str());
    let mut out: Vec<String> = Vec::new();
    if starts_with_char(s.as_str(), '=') {
        let v = trim_leading(s.as_str(), '=');
        let mut clause = owned(t);
        clause.append(".");
        clause.append(col);
        clause.append(" = '");
        clause.append(v.as_str());
        clause.append("'");
        push_text(&mut out, clause);
    } else if contains_char(s.as_str(), ' ') {
        let words = split_whitespace_words(s.as_str());
        let mut subs: Vec<String> = Vec::new();
        let n = words.len();
        let mut i: usize = 0;
        while i < n
            invariant
                n == words@.len(),
                i <= n,
                strings_view(subs@) == strings_view(words@).take(i as int).map_values(like_sub(t@, col@)),
            decreases n - i,
        {
            let mut sub = owned(t);
            sub.append(".");
            sub.append(col);
            sub.append(" like '%");
            sub.append(words[i].as_str());
            sub.append("%'");
            push_text(&mut subs, sub);
            assert(strings_view(words@).take(i + 1).map_values(like_sub(t@, col@))
                =~= strings_view(words@).take(i as int).map_values(like_sub(t@, col@)).push(like_sub(t@, col@)(words@[i as int]@)));
            i = i + 1;
        }
        assert(strings_view(words@).take(n as int) =~= strings_view(words@));
        let mut clause = "(".to_owned();
        let joined = join_strings(&subs, " or ");
        clause.append(joined.as_str());
        clause.append(")");
        push_text(&mut out, clause);
    } else {
        let mut clause = owned(t);
        clause.append(".");
        clause.append(col);
        clause.append(" = '");
        clause.append(s.as_str());
        clause.append("'");
        push_text(&mut out, clause);
    }
    assert(strings_view(out@) =~= string_filter_clauses_of(t@, col@, value@));
    out
}

/// `t.col IN (items)`.
fn array_filter_clause(t: &str, col: &str, items: &Vec<Value>) -> (r: String)
    ensures
        r@ == array_filter_clause_of(t@, col@, values_model(items@)),
{
    let ghost m = values_model(items@);
    let mut limit: Vec<String> = Vec::new();
    let n = items.len();
    let mut i: usize = 0;
    while i < n
        invariant
            n == items@.len(),
            m == values_model(items@),
            i <= n,
            strings_view(limit@) == array_items_upto(m, i as int),
        decreases n - i,
    {
        assert(m[i as int] == items@[i as int]@);
        match &items[i] {
            Value::Number(num) => push_text(&mut limit, copy_string(num)),
            Value::String(s) => {
                let mut q = "'".to_owned();
                push_escaped_quotes(&mut q, s.as_str());
                q.append("'");
                push_text(&mut limit, q);
            },
            _ => {},
        }
        i = i + 1;
    }
    let mut clause = owned(t);
    clause.append(".");
    clause.append(col);
    clause.append(" IN (");
    let joined = join_strings(&limit, ",");
    clause.append(joined.as_str());
    clause.append(")");
    clause
}


/// The conditions of a `between` object on `t.col`.
fn object_filter_clauses(t: &str, col: &str, entries: &Vec<(String, Value)>) -> (r: Vec<String>)
    ensures
        strings_view(r@) == object_filter_clauses_of(t@, col@, entries_model(entries@)),
{
    let mut list: Vec<String> = Vec::new();
    let is_between = match object_value(entries, "type") {
        Some(Value::String(ty)) => str_eq(ty.as_str(), "between"),
        _ => false,
    };
    if is_between {
        match object_value(entries, "begin") {
            Some(Value::Number(n)) => {
                let mut s = owned(t);
                s.append(".");
                s.append(col);
                s.append(" >= ");
                s.append(n.as_str());
                push_text(&mut list, s);
            },
            _ => {},
        }
        match object_value(entries, "end") {
            Some(Value::Number(n)) => {
                let mut s = owned(t);
                s.append(".");
                s.append(col);
                s.append(" <= ");
                s.append(n.as_str());
                push_text(&mut list, s);
            },
            _ => {},
        }
    }
    assert(strings_view(list@) =~= object_filter_clauses_of(t@, col@, entries_model(entries@)));
    list
}

/// How an insert writes a value of a column.
fn insert_value_expression(c: &Column, condition: &Value) -> (r: Option<String>)
    ensures
        match r {
            Some(t) => insert_value_of(*c, condition@) == Some(t@),
            None => insert_value_of(*c, condition@) is None,
        },
{
    match condition {
        Value::Null => Some("null".to_owned()),
        Value::Number(num) => Some(copy_string(num)),
        Value::String(s) => {
            if s.unicode_len() == 0 {
                Some("null".to_owned())
            } else if is_numeric_string_without_leading_zero(s.as_str()) {
                Some(copy_string(s))
            } else if is_reference_lookup_column(c) {
                match &c.ref_table {
                    Some(dk) => {
                        let mut t = "(select id from ".to_owned();
                        t.append(dk.table_name.as_str());
                        t.append(" where ");
                        t.append(dk.dk_column.as_str());
                        t.append(" = '");
                        t.append(s.as_str());
                        t.append("')");
                        Some(t)
                    },
                    None => None,
                }
            } else {
                let mut t = "'".to_owned();
                push_escaped_quotes(&mut t, s.as_str());
                t.append("'");
                Some(t)
            }
        },
        _ => None,
    }
}

/// The assignment of a column's value.
fn update_set_clause(c: &Column) -> (r: Vec<String>)
    ensures
        strings_view(r@) == set_clause_of(*c),
{
    let mut out: Vec<String> = Vec::new();
    match &c.value {
        Some(Value::Number(num)) => {
            let mut s = copy_string(&c.dbname);
            s.append(" = ");
            s.append(num.as_str());
            push_text(&mut out, s);
        },
        Some(Value::String(text)) => {
            let mut s = copy_string(&c.dbname);
            s.append(" = '");
            push_escaped_quotes(&mut s, text.as_str());
            s.append("'");
            push_text(&mut out, s);
        },
        _ => {},
    }
    assert(strings_view(out@) =~= set_clause_of(*c));
    out
}

/// The alias text `aN` of the `k + 1`-th link.
fn link_alias_text(k: usize) -> (r: String)
    ensures
        r@ == "a"@ + crate::text::nat_text(k as nat + 1),
{
    let mut s = "a".to_owned();
    push_u128(&mut s, (k as u128) + 1);
    s
}

/// The first table without a space, if any.
fn first_spaceless_index(tables: &Vec<String>) -> (r: Option<usize>)
    ensures
        match r {
            Some(i) => first_spaceless(strings_view(tables@), 0) == Some(i as int) && i < tables@.len(),
            None => first_spaceless(strings_view(tables@), 0) is None,
        },
{
    let ghost tv = strings_view(tables@);
    let n = tables.len();
    let mut i: usize = 0;
    while i < n
        invariant
            n == tables@.len(),
            tv == strings_view(tables@),
            i <= n,
            first_spaceless(tv, 0) == first_spaceless(tv, i as int),
        decreases n - i,
    {
        if !contains_char(tables[i].as_str(), ' ') {
            return Some(i);
        }
        i = i + 1;
    }
    None
}

/// The main table among `tables`.
fn main_of_tables(tables: &Vec<String>) -> (r: String)
    ensures
        r@ == main_table_of(strings_view(tables@)),
{
    match first_spaceless_index(tables) {
        Some(i) => copy_string(&tables[i]),
        None => {
            if tables.len() > 0 {
                let words = split_whitespace_words(tables[0].as_str());
                assert(strings_view(words@).len() == words@.len());
                if words.len() > 0 {
                    return copy_string(&words[words.len() - 1]);
                }
            }
            String::new()
        },
    }
}

/// Builds SQL clauses from portal columns.
pub struct PortalProvider {
    statement_type: StatementType,
    user_id: Id,
    data: Vec<Column>,
    args: PortalProviderOption,
    ref_table_column_map: Vec<(String, String, String)>,
}

impl View for PortalProvider {
    type V = PortalModel;

    closed spec fn view(&self) -> PortalModel {
        PortalModel { statement_type: self.statement_type, user_id: self.user_id, data: self.data@, args: self.args }
    }
}

impl PortalProvider {
    /// The links the provider holds now.
    pub closed spec fn links_view(&self) -> Seq<LinkEntry> {
        self.ref_table_column_map@.map_values(|e: (String, String, String)| (e.0@, e.1@, e.2@))
    }

    /// A select provider over `data` with the default options.
    pub fn new(user_id: Id, data: Vec<Column>) -> (r: PortalProvider)
        ensures
            r@.statement_type == StatementType::SELECT,
            r@.user_id == user_id,
            r@.data == data@,
            r@.args.id is None,
            r@.args.max_idx is None,
            r@.args.is_group is None,
            r@.args.table_filter is None,
    {
        PortalProvider {
            statement_type: StatementType::SELECT,
            user_id,
            data,
            args: PortalProviderOption { id: None, max_idx: None, is_group: None, table_filter: None },
            ref_table_column_map: Vec::new(),
        }
    }

    /// A select provider over `data` with `args`.
    pub fn new_opt(user_id: Id, data: Vec<Column>, args: PortalProviderOption) -> (r: PortalProvider)
        ensures
            r@ == (PortalModel { statement_type: StatementType::SELECT, user_id, data: data@, args }),
    {
        PortalProvider { statement_type: StatementType::SELECT, user_id, data, args, ref_table_column_map: Vec::new() }
    }

    /// Switches the kind of statement to provide.
    pub fn statement_type(&mut self, statement_type: StatementType)
        ensures
            final(self)@ == (PortalModel { statement_type, ..old(self)@ }),
    {
        self.statement_type = statement_type;
    }

    fn matches_mask(&self, c: &Column) -> (r: bool)
        ensures
            r == mask_matches(*c, self@.args),
    {
        let k = match self.args.max_idx {
            Some(k) => k,
            None => 0,
        };
        k < c.mask.unicode_len() && c.mask.get_char(k) == '1'
    }

    fn is_insert_column(&self, c: &Column) -> (r: bool)
        ensures
            r == insert_column(*c, self@.args),
    {
        let back = !c.nullable && !is_upper_id_text(c.dbname.as_str()) && !str_eq(c.obtainmanner.as_str(), "triger");
        let not_calc = !contains_char(c.dbname.as_str(), ' ');
        (self.matches_mask(c) && not_calc) || (back && not_calc)
    }

    /// Whether the links hold `key`.
    fn has_link(entries: &Vec<(String, String, String)>, key: &str) -> (r: bool)
        ensures
            r == entry_keys(entries@.map_values(|e: (String, String, String)| (e.0@, e.1@, e.2@))).contains(key@),
    {
        let ghost v = entries@.map_values(|e: (String, String, String)| (e.0@, e.1@, e.2@));
        let n = entries.len();
        let mut i: usize = 0;
        while i < n
            invariant
                n == entries@.len(),
                v == entries@.map_values(|e: (String, String, String)| (e.0@, e.1@, e.2@)),
                i <= n,
                forall|j: int| 0 <= j < i ==> entry_keys(v)[j] != key@,
            decreases n - i,
        {
            if str_eq(entries[i].0.as_str(), key) {
                assert(entry_keys(v)[i as int] == key@);
                return true;
            }
            i = i + 1;
        }
        assert(!entry_keys(v).contains(key@));
        false
    }

    /// Recomputes the links and returns the tables clause.
    fn fill_tables(&mut self) -> (r: Vec<String>)
        ensures
            final(self)@ == old(self)@,
            final(self).links_view() == links_of(old(self)@),
            strings_view(r@) == tables_of(old(self)@),
    {
        let ghost m = self@;
        let ghost cols = self@.data;
        let mut tablenames: Vec<String> = Vec::new();
        let mut entries: Vec<(String, String, String)> = Vec::new();
        let n = self.data.len();
        match self.statement_type {
            StatementType::SELECT => {
                assert(strings_view(tablenames@) =~= Seq::<Seq<char>>::empty());
                if n > 0 {
                    let t = table_with_alias_text(&self.data[0]);
                    push_unique(&mut tablenames, t);
                    assert(strings_view(tablenames@) =~= select_tables_upto(cols, 0));
                }
                assert(entries@.map_values(|e: (String, String, String)| (e.0@, e.1@, e.2@)) =~= links_upto(cols, 0));
                let mut i: usize = 0;
                while i < n
                    invariant
                        n == self.data@.len(),
                        cols == self.data@,
                        n > 0 ==> strings_view(tablenames@) == select_tables_upto(cols, i as int),
                        n == 0 ==> strings_view(tablenames@) == Seq::<Seq<char>>::empty(),
                        i <= n,
                        entries@.map_values(|e: (String, String, String)| (e.0@, e.1@, e.2@)) == links_upto(cols, i as int),
                    decreases n - i,
                {
                    let column = &self.data[i];
                    let k = column.columnlink_tablenames.len();
                    if k == 0 {
                        let t = table_with_alias_text(column);
                        push_unique(&mut tablenames, t);
                    }
                    let ghost e0 = entries@.map_values(|e: (String, String, String)| (e.0@, e.1@, e.2@));
                    let mut j: usize = 0;
                    while j < k
                        invariant
                            k == column.columnlink_tablenames@.len(),
                            j <= k,
                            entries@.map_values(|e: (String, String, String)| (e.0@, e.1@, e.2@)) == column_links(e0, *column, j as int),
                        decreases k - j,
                    {
                        let key = text_before_nth(column.dbname.as_str(), ';', j + 1);
                        if !Self::has_link(&entries, key.as_str()) {
                            let alias = link_alias_text(entries.len());
                            let table = copy_string(&column.columnlink_tablenames[j]);
                            let ghost before = entries@;
                            entries.push((key, alias, table));
                            assert(entries@.map_values(|e: (String, String, String)| (e.0@, e.1@, e.2@))
                                =~= before.map_values(|e: (String, String, String)| (e.0@, e.1@, e.2@)).push((key@, alias@, table@)));
                        }
                        j = j + 1;
                    }
                    i = i + 1;
                }
            },
            StatementType::INSERT => {
                assert(strings_view(tablenames@) =~= Seq::<Seq<char>>::empty());
                if n > 0 {
                    let c = &self.data[0];
                    let t = match &c.real_table {
                        Some(r) => copy_string(r),
                        None => copy_string(&c.current_table),
                    };
                    push_unique(&mut tablenames, t);
                }
                assert(strings_view(tablenames@) =~= tables_of(m));
            },
            _ => {
                assert(strings_view(tablenames@) =~= Seq::<Seq<char>>::empty());
                if n > 0 {
                    let t = table_with_alias_text(&self.data[0]);
                    push_unique(&mut tablenames, t);
                }
                assert(strings_view(tablenames@) =~= tables_of(m));
            },
        }
        proof {
            if m.statement_type == StatementType::SELECT && n == 0 {
                assert(strings_view(tablenames@) =~= tables_of(m));
            }
        }
        self.ref_table_column_map = entries;
        tablenames
    }

    /// The main table, with the links recomputed.
    fn get_main_table(&mut self) -> (r: String)
        ensures
            final(self)@ == old(self)@,
            final(self).links_view() == links_of(old(self)@),
            r@ == main_table_of(tables_of(old(self)@)),
    {
        let tables = self.fill_tables();
        main_of_tables(&tables)
    }

    /// The alias and table of a key.
    fn lookup(&self, key: &str) -> (r: Option<(String, String)>)
        ensures
            match r {
                Some(p) => link_lookup(self.links_view(), key@) == Some((p.0@, p.1@)),
                None => link_lookup(self.links_view(), key@) is None,
            },
    {
        let ghost v = self.links_view();
        let n = self.ref_table_column_map.len();
        let mut i: usize = 0;
        assert(v.skip(0) =~= v);
        while i < n
            invariant
                n == self.ref_table_column_map@.len(),
                v == self.links_view(),
                i <= n,
                link_lookup(v, key@) == link_lookup(v.skip(i as int), key@),
            decreases n - i,
        {
            assert(v.skip(i as int).drop_first() =~= v.skip(i + 1));
            assert(v.skip(i as int)[0] == v[i as int]);
            let e = &self.ref_table_column_map[i];
            if str_eq(e.0.as_str(), key) {
                return Some((copy_string(&e.1), copy_string(&e.2)));
            }
            i = i + 1;
        }
        None
    }

    /// The alias of the table a link column reads.
    fn get_column_link_alias(&self, column_link: &str) -> (r: String)
        ensures
            r@ == link_alias_of(self.links_view(), column_link@),
    {
        let last = count_char(column_link, ';');
        let key = text_before_nth(column_link, ';', last);
        match self.lookup(key.as_str()) {
            Some(p) => p.0,
            None => String::new(),
        }
    }

    fn select_expressions(&self, main_table: &str, column: &Column) -> (r: Vec<String>)
        ensures
            strings_view(r@) == select_expressions_of(main_table@, *column, self.links_view()),
    {
        let mut out: Vec<String> = Vec::new();
        let db = column.dbname.as_str();
        if is_reference_lookup_column(column) {
            match &column.ref_table {
                Some(dk) => {
                    let mut a = owned(main_table);
                    a.append(".");
                    a.append(db);
                    a.append(" as \"");
                    a.append(db);
                    a.append("\"");
                    push_text(&mut out, a);
                    let mut b = "(select ".to_owned();
                    b.append(dk.dk_column.as_str());
                    b.append(" as dk from ");
                    b.append(dk.table_name.as_str());
                    b.append(" x where id = ");
                    b.append(main_table);
                    b.append(".");
                    b.append(db);
                    b.append(") as \"");
                    b.append(db);
                    b.append(".dk\"");
                    push_text(&mut out, b);
                },
                None => {},
            }
        } else if contains_char(db, ';') {
            let segments = split_segments(db, ';');
            assert(strings_view(segments@).len() == segments@.len());
            let mut a = self.get_column_link_alias(db);
            a.append(".");
            a.append(segments[segments.len() - 1].as_str());
            a.append(" as \"");
            let id = i64_text(column.column_id);
            a.append(id.as_str());
            a.append("\"");
            push_text(&mut out, a);
        } else if wildcard_matches("*(*)", db) {
            let mut a = owned(db);
            a.append(" as \"");
            let id = i64_text(column.column_id);
            a.append(id.as_str());
            a.append("\"");
            push_text(&mut out, a);
        } else if contains_char(db, '.') {
            let mut a = owned(db);
            a.append(" as \"");
            a.append(db);
            a.append("\"");
            push_text(&mut out, a);
        } else {
            let mut a = owned(main_table);
            a.append(".");
            a.append(db);
            a.append(" as \"");
            a.append(db);
            a.append("\"");
            push_text(&mut out, a);
        }
        assert(strings_view(out@) =~= select_expressions_of(main_table@, *column, self.links_view()));
        out
    }

    /// The table and column a column is filtered on.
    fn filter_target(&self, filter: &Column) -> (r: (String, String))
        ensures
            r.0@ == filter_table_of(*filter, self.links_view()),
            r.1@ == filter_column_of(*filter),
    {
        let db = filter.dbname.as_str();
        if contains_char(db, ';') {
            let segments = split_segments(db, ';');
            assert(strings_view(segments@).len() == segments@.len());
            (self.get_column_link_alias(db), copy_string(&segments[segments.len() - 1]))
        } else {
            (copy_string(&filter.current_table), owned(db))
        }
    }

    /// The conditions of a column's value.
    fn value_clauses(&self, c: &Column) -> (r: Vec<String>)
        ensures
            strings_view(r@) == value_clauses_of(*c, self.links_view()),
    {
        let (table_name, column_name) = self.filter_target(c);
        let t = table_name.as_str();
        let col = column_name.as_str();
        let mut list: Vec<String> = Vec::new();
        match &c.value {
            None => {},
            Some(v) => match v {
                Value::Null => {},
                Value::Bool(b) => {
                    let mut s = owned(t);
                    s.append(".");
                    s.append(col);
                    s.append(" = '");
                    if *b {
                        s.append("Y");
                    } else {
                        s.append("N");
                    }
                    s.append("'");
                    push_text(&mut list, s);
                },
                Value::Number(num) => {
                    let mut s = owned(t);
                    s.append(".");
                    s.append(col);
                    s.append(" = ");
                    s.append(num.as_str());
                    push_text(&mut list, s);
                },
                Value::String(text) => {
                    return self.string_clauses(t, col, text.as_str(), c);
                },
                Value::Array(items) => {
                    proof {
                        lemma_array_view(*items);
                    }
                    let s = array_filter_clause(t, col, items);
                    push_text(&mut list, s);
                },
                Value::Object(entries) => {
                    proof {
                        lemma_object_view(*entries);
                    }
                    return object_filter_clauses(t, col, entries);
                },
            },
        }
        assert(strings_view(list@) =~= value_clauses_of(*c, self.links_view()));
        list
    }

    fn string_clauses(&self, t: &str, col: &str, text: &str, c: &Column) -> (r: Vec<String>)
        requires
            c.value matches Some(v) && v@ == ValueModel::Text(text@),
            t@ == filter_table_of(*c, self.links_view()),
            col@ == filter_column_of(*c),
        ensures
            strings_view(r@) == value_clauses_of(*c, self.links_view()),
    {
        string_filter_clauses(t, col, text)
    }
}

impl SQLProvider for PortalProvider {
    open spec fn readiness(&self) -> Readiness {
        portal_readiness(self@)
    }

    open spec fn clauses(&self) -> StatementModel {
        portal_clauses(self@)
    }

    fn get_statement_type(&self) -> (r: StatementType) {
        self.statement_type
    }

    fn get_select(&mut self) -> (r: Vec<String>) {
        let ghost m = self@;
        let mut list: Vec<String> = Vec::new();
        if self.statement_type == StatementType::SELECT {
            let main_table = self.get_main_table();
            match self.args.is_group {
                Some(true) => {},
                _ => {
                    let mut s = copy_string(&main_table);
                    s.append(".id as \"id\"");
                    push_text(&mut list, s);
                },
            }
            let ghost base = strings_view(list@);
            if self.args.max_idx.is_some() {
                let n = self.data.len();
                let mut i: usize = 0;
                while i < n
                    invariant
                        n == self.data@.len(),
                        self@ == m,
                        self.links_view() == links_of(m),
                        main_table@ == main_table_of(tables_of(m)),
                        i <= n,
                        strings_view(list@) == base + select_upto(m.data, m.args, main_table@, links_of(m), i as int),
                    decreases n - i,
                {
                    let column = &self.data[i];
                    if self.matches_mask(column) {
                        let more = self.select_expressions(main_table.as_str(), column);
                        append_all(&mut list, more);
                    }
                    i = i + 1;
                }
            }
            assert(strings_view(list@) =~= select_of(m));
        }
        list
    }

    fn get_tables(&mut self) -> (r: Vec<String>) {
        self.fill_tables()
    }

    fn get_join(&self) -> (r: Vec<String>) {
        Vec::new()
    }

    fn get_inner_join(&self) -> (r: Vec<String>) {
        Vec::new()
    }

    fn get_outer_join(&self) -> (r: Vec<String>) {
        Vec::new()
    }

    fn get_left_outer_join(&mut self) -> (r: Vec<String>) {
        let ghost m = self@;
        let main_table = self.get_main_table();
        let ghost entries = links_of(m);
        let mut saved: Vec<String> = Vec::new();
        let mut joins: Vec<String> = Vec::new();
        let n = self.data.len();
        let mut i: usize = 0;
        while i < n
            invariant
                n == self.data@.len(),
                self@ == m,
                self.links_view() == entries,
                entries == links_of(m),
                main_table@ == main_table_of(tables_of(m)),
                i <= n,
                (strings_view(saved@), strings_view(joins@)) == joins_upto(m.data, entries, main_table@, i as int),
            decreases n - i,
        {
            let column = &self.data[i];
            let db = column.dbname.as_str();
            if contains_char(db, ';') {
                let segments = split_segments(db, ';');
                assert(strings_view(segments@).len() == segments@.len());
                let parts = segments.len() - 1;
                let ghost s0 = (strings_view(saved@), strings_view(joins@));
                let mut k: usize = 0;
                while k < parts
                    invariant
                        parts + 1 == segments@.len(),
                        strings_view(segments@) == split_on(column.dbname@, ';'),
                        self.links_view() == entries,
                        main_table@ == main_table_of(tables_of(m)),
                        db@ == column.dbname@,
                        k <= parts,
                        (strings_view(saved@), strings_view(joins@)) == column_joins(s0, *column, entries, main_table@, k as int),
                    decreases parts - k,
                {
                    let ghost sv0 = strings_view(saved@);
                    let ghost jv0 = strings_view(joins@);
                    let key = text_before_nth(db, ';', k + 1);
                    let (alias, right) = match self.lookup(key.as_str()) {
                        Some(p) => p,
                        None => (String::new(), String::new()),
                    };
                    let mut skip = false;
                    if k == 0 {
                        let mut found = false;
                        let ns = saved.len();
                        let mut q: usize = 0;
                        while q < ns
                            invariant
                                ns == saved@.len(),
                                q <= ns,
                                found == strings_view(saved@).take(q as int).contains(key@),
                            decreases ns - q,
                        {
                            let eq = str_eq(saved[q].as_str(), key.as_str());
                            proof {
                                let t = strings_view(saved@).take(q as int);
                                let t1 = strings_view(saved@).take(q + 1);
                                assert(t1 =~= t.push(saved@[q as int]@));
                                if eq {
                                    assert(t1[q as int] == key@);
                                } else {
                                    if t1.contains(key@) {
                                        let r = choose|r: int| 0 <= r < t1.len() && t1[r] == key@;
                                        assert(r < q);
                                        assert(t[r] == key@);
                                    }
                                    if t.contains(key@) {
                                        let r = choose|r: int| 0 <= r < t.len() && t[r] == key@;
                                        assert(t1[r] == key@);
                                    }
                                }
                            }
                            if eq {
                                found = true;
                            }
                            q = q + 1;
                        }
                        assert(strings_view(saved@).take(ns as int) =~= strings_view(saved@));
                        assert(found == sv0.contains(key@));
                        if found {
                            skip = true;
                        } else {
                            push_text(&mut saved, copy_string(&key));
                        }
                    }
                    if !skip {
                        let left = if k == 0 { copy_string(&main_table) } else { self.get_column_link_alias(key.as_str()) };
                        let mut s = copy_string(&right);
                        s.append(" ");
                        s.append(alias.as_str());
                        s.append(" ON ");
                        s.append(left.as_str());
                        s.append(".");
                        s.append(segments[k].as_str());
                        s.append(" = ");
                        s.append(alias.as_str());
                        s.append(".id");
                        push_unique(&mut joins, s);
                    }
                    proof {
                        let c = *column;
                        let fks = split_on(c.dbname@, ';').drop_last();
                        assert(fks.len() == parts);
                        assert(fks[k as int] == segments@[k as int]@);
                        assert(k == 0 ==> (skip == sv0.contains(key@)));
                        assert(k != 0 ==> !skip);
                        let next = column_joins(s0, *column, entries, main_table@, k + 1);
                        let prev = column_joins(s0, c, entries, main_table@, k as int);
                        assert(prev == (sv0, jv0));
                        let key_s = prefix_before(c.dbname@, ';', (k + 1) as nat);
                        assert(key_s == key@);
                        if k == 0 && sv0.contains(key@) {
                            assert(next == prev);
                        } else {
                            assert(next.0 == (if k == 0 { sv0.push(key@) } else { sv0 }));
                        }
                        assert(strings_view(saved@) =~= next.0);
                        assert(strings_view(joins@) =~= next.1);
                    }
                    k = k + 1;
                }
            }
            i = i + 1;
        }
        joins
    }

    fn get_right_outer_join(&self) -> (r: Vec<String>) {
        Vec::new()
    }

    fn get_where(&mut self) -> (r: Vec<String>) {
        let ghost m = self@;
        let mut list: Vec<String> = Vec::new();
        match self.statement_type {
            StatementType::SELECT => {
                let tables = self.fill_tables();
                if tables.len() > 0 {
                    let main_table = self.get_main_table();
                    match &self.args.table_filter {
                        Some(table_filter) => {
                            if table_filter.unicode_len() > 0 {
                                push_text(&mut list, copy_string(table_filter));
                            }
                        },
                        None => {},
                    }
                    let ghost base = strings_view(list@);
                    let n = self.data.len();
                    let mut i: usize = 0;
                    while i < n
                        invariant
                            n == self.data@.len(),
                            self@ == m,
                            self.links_view() == links_of(m),
                            i <= n,
                            strings_view(list@) == base + where_upto(m.data, links_of(m), i as int),
                        decreases n - i,
                    {
                        let more = self.value_clauses(&self.data[i]);
                        append_all(&mut list, more);
                        i = i + 1;
                    }
                    match self.args.id {
                        Some(id) => {
                            let mut s = copy_string(&main_table);
                            s.append(".id = ");
                            let t = i64_text(id);
                            s.append(t.as_str());
                            push_text(&mut list, s);
                        },
                        None => {},
                    }
                }
                assert(strings_view(list@) =~= where_of(m));
            },
            StatementType::UPDATE => {
                match &self.args.table_filter {
                    Some(table_filter) => push_text(&mut list, copy_string(table_filter)),
                    None => {},
                }
                let id = match self.args.id {
                    Some(id) => id,
                    None => 0,
                };
                let mut s = "id = ".to_owned();
                let t = i64_text(id);
                s.append(t.as_str());
                push_text(&mut list, s);
                assert(strings_view(list@) =~= where_of(m));
            },
            _ => {
                assert(strings_view(list@) =~= where_of(m));
            },
        }
        list
    }

    fn get_having(&self) -> (r: Vec<String>) {
        Vec::new()
    }

    fn get_group_by(&mut self) -> (r: Vec<String>) {
        let ghost m = self@;
        let mut list: Vec<String> = Vec::new();
        if self.statement_type == StatementType::SELECT && self.args.is_group == Some(true) {
            let select = self.get_select();
            let ghost sv = strings_view(select@);
            let n = select.len();
            let mut i: usize = 0;
            while i < n
                invariant
                    n == select@.len(),
                    sv == strings_view(select@),
                    sv == select_of(m),
                    i <= n,
                    strings_view(list@) == group_upto(sv, i as int),
                decreases n - i,
            {
                let column = select[i].as_str();
                if !wildcard_matches("*(*)*", column) {
                    match before_as_text(column) {
                        Some(p) => push_text(&mut list, p),
                        None => {},
                    }
                }
                i = i + 1;
            }
        }
        assert(strings_view(list@) =~= group_of(m));
        list
    }

    fn get_order_by(&mut self) -> (r: Vec<String>) {
        let ghost m = self@;
        let mut list: Vec<String> = Vec::new();
        if self.statement_type == StatementType::SELECT {
            if self.args.is_group == Some(true) {
                let mut group_by_list = self.get_group_by();
                list.append(&mut group_by_list);
                assert(strings_view(list@) =~= order_of(m));
            } else {
                let n = self.data.len();
                let mut i: usize = 0;
                while i < n
                    invariant
                        n == self.data@.len(),
                        self@ == m,
                        i <= n,
                        strings_view(list@) == order_upto(m.data, i as int),
                    decreases n - i,
                {
                    let column = &self.data[i];
                    if str_eq(column.order_by.as_str(), "+") {
                        let mut s = copy_string(&column.current_table);
                        s.append(".");
                        s.append(column.dbname.as_str());
                        s.append(" asc nulls first");
                        push_text(&mut list, s);
                    } else if str_eq(column.order_by.as_str(), "-") {
                        let mut s = copy_string(&column.current_table);
                        s.append(".");
                        s.append(column.dbname.as_str());
                        s.append(" desc nulls first");
                        push_text(&mut list, s);
                    }
                    i = i + 1;
                }
            }
        }
        assert(strings_view(list@) =~= order_of(m));
        list
    }

    fn get_columns(&self) -> (r: Vec<String>) {
        let ghost m = self@;
        let mut list: Vec<String> = Vec::new();
        if self.statement_type == StatementType::INSERT {
            push_text(&mut list, "id".to_owned());
            push_text(&mut list, "ad_client_id".to_owned());
            push_text(&mut list, "ad_org_id".to_owned());
            push_text(&mut list, "ownerid".to_owned());
            push_text(&mut list, "modifiered".to_owned());
            push_text(&mut list, "creationdate".to_owned());
            push_text(&mut list, "modifieddate".to_owned());
            assert(strings_view(list@) =~= init_columns());
            let n = self.data.len();
            let mut i: usize = 0;
            while i < n
                invariant
                    n == self.data@.len(),
                    self@ == m,
                    i <= n,
                    strings_view(list@) == init_columns() + columns_upto(m.data, m.args, i as int),
                decreases n - i,
            {
                let column = &self.data[i];
                if self.is_insert_column(column) {
                    push_text(&mut list, copy_string(&column.dbname));
                }
                i = i + 1;
            }
        }
        assert(strings_view(list@) =~= columns_of(m));
        list
    }

    fn get_values(&self) -> (r: Vec<String>) {
        let ghost m = self@;
        let mut list: Vec<String> = Vec::new();
        if self.statement_type == StatementType::INSERT {
            let id = match self.args.id {
                Some(id) => id,
                None => 0,
            };
            push_text(&mut list, i64_text(id));
            push_text(&mut list, "37".to_owned());
            push_text(&mut list, "27".to_owned());
            push_text(&mut list, i64_text(self.user_id));
            push_text(&mut list, i64_text(self.user_id));
            push_text(&mut list, "sysdate".to_owned());
            push_text(&mut list, "sysdate".to_owned());
            assert(strings_view(list@) =~= init_values(m));
            let n = self.data.len();
            let mut i: usize = 0;
            while i < n
                invariant
                    n == self.data@.len(),
                    self@ == m,
                    i <= n,
                    strings_view(list@) == init_values(m) + values_upto(m.data, m.args, i as int),
                decreases n - i,
            {
                let column = &self.data[i];
                if self.is_insert_column(column) {
                    if is_sheet_no_column(column) {
                        let mut s = "get_sequenceno('".to_owned();
                        s.append(column.sequencename.as_str());
                        s.append("', 37)");
                        push_text(&mut list, s);
                    } else {
                        let condition = match &column.value {
                            Some(v) => v.duplicate(),
                            None => Value::String(copy_string(&column.default_value)),
                        };
                        match insert_value_expression(column, &condition) {
                            Some(value) => push_text(&mut list, value),
                            None => {},
                        }
                    }
                }
                i = i + 1;
            }
        }
        assert(strings_view(list@) =~= values_of(m));
        list
    }

    fn get_sets(&self) -> (r: Vec<String>) {
        let ghost m = self@;
        let mut list: Vec<String> = Vec::new();
        let mut first = "modifierid=".to_owned();
        let u = i64_text(self.user_id);
        first.append(u.as_str());
        push_text(&mut list, first);
        push_text(&mut list, "modifieddate = sysdate".to_owned());
        let ghost base = strings_view(list@);
        if self.statement_type == StatementType::UPDATE {
            let n = self.data.len();
            let mut i: usize = 0;
            while i < n
                invariant
                    n == self.data@.len(),
                    self@ == m,
                    i <= n,
                    strings_view(list@) == base + sets_upto(m.data, m.args, i as int),
                decreases n - i,
            {
                let column = &self.data[i];
                if self.matches_mask(column) {
                    let more = update_set_clause(column);
                    append_all(&mut list, more);
                }
                i = i + 1;
            }
        }
        assert(strings_view(list@) =~= sets_of(m));
        list
    }
}

} // verus!
