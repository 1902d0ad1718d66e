//! A plain SQL statement assembled from lists of clause parts, and the provider
//! interface that fills those lists.

use vstd::prelude::*;

use crate::text::{push_char, str_eq, strings_view};

verus! {

/// The kind of statement to assemble.
#[derive(Debug, Clone, Copy, PartialEq, Eq, Structural)]
pub enum StatementType {
    SELECT,
    INSERT,
    UPDATE,
    DELETE,
}

/// Whether a clause part is one of the connective markers `") \n AND ("` or
/// `") \n OR ("`, which join the parts around them by themselves.
pub open spec fn is_connective(part: Seq<char>) -> bool {
    part == ") \n AND ("@ || part == ") \n OR ("@
}

/// The parts of a clause joined: `conjunction` stands between two neighbours unless
/// one of them is a connective marker.
pub open spec fn clause_parts_text(parts: Seq<Seq<char>>, conjunction: Seq<char>) -> Seq<char>
    decreases parts.len(),
{
    if parts.len() == 0 {
        Seq::empty()
    } else if parts.len() == 1 {
        parts[0]
    } else {
        let n = parts.len() as int;
        clause_parts_text(parts.drop_last(), conjunction)
            + (if !is_connective(parts[n - 1]) && !is_connective(parts[n - 2]) {
                conjunction
            } else {
                Seq::empty()
            }) + parts[n - 1]
    }
}

/// `text` followed by one clause: nothing when `parts` is empty, else a line break
/// (when `text` is not empty), the keyword, a space, `open`, the joined parts and `close`.
pub open spec fn add_clause(
    text: Seq<char>,
    keyword: Seq<char>,
    parts: Seq<Seq<char>>,
    open: Seq<char>,
    close: Seq<char>,
    conjunction: Seq<char>,
) -> Seq<char> {
    if parts.len() == 0 {
        text
    } else {
        text + (if text.len() > 0 { seq!['\n'] } else { Seq::empty() }) + keyword + seq![' '] + open
            + clause_parts_text(parts, conjunction) + close
    }
}

/// Appends the clause to `builder`.
fn sql_clause(
    builder: &mut String,
    keyword: &str,
    parts: &Vec<String>,
    open: &str,
    close: &str,
    conjunction: &str,
)
    ensures
        final(builder)@ == add_clause(old(builder)@, keyword@, strings_view(parts@), open@, close@, conjunction@),
{
    let ghost views = strings_view(parts@);
    let ghost init = builder@;
    if parts.len() == 0 {
        return;
    }
    if builder.unicode_len() > 0 {
        push_char(builder, '\n');
    }
    builder.append(keyword);
    push_char(builder, ' ');
    builder.append(open);
    let ghost start = builder@;
    assert(start == init + (if init.len() > 0 { seq!['\n'] } else { Seq::empty() }) + keyword@ + seq![' '] + open@);
    let n = parts.len();
    let mut i: usize = 0;
    while i < n
        invariant
            n == parts@.len(),
            n > 0,
            i <= n,
            views == strings_view(parts@),
            builder@ == start + clause_parts_text(views.take(i as int), conjunction@),
        decreases n - i,
    {
        let part = parts[i].as_str();
        if i > 0 {
            let prev = parts[i - 1].as_str();
            let connective = str_eq(part, ") \n AND (") || str_eq(part, ") \n OR (")
                || str_eq(prev, ") \n AND (") || str_eq(prev, ") \n OR (");
            if !connective {
                builder.append(conjunction);
            }
        }
        builder.append(part);
        proof {
            let t = views.take(i + 1);
            assert(t.drop_last() =~= views.take(i as int));
            assert(t[i as int] == parts@[i as int]@);
            if i > 0 {
                assert(t[i - 1] == parts@[i - 1]@);
            }
        }
        i = i + 1;
    }
    proof {
        assert(views.take(n as int) =~= views);
    }
    builder.append(close);
}

/// A statement under assembly: the parts of each clause, in order.
pub struct SQLStatement {
    pub statement_type: StatementType,
    pub distinct: bool,
    pub select: Vec<String>,
    pub tables: Vec<String>,
    pub join: Vec<String>,
    pub inner_join: Vec<String>,
    pub outer_join: Vec<String>,
    pub left_outer_join: Vec<String>,
    pub right_outer_join: Vec<String>,
    pub wheres: Vec<String>,
    pub having: Vec<String>,
    pub group_by: Vec<String>,
    pub order_by: Vec<String>,
    pub last_list: Vec<String>,
    pub columns: Vec<String>,
    pub values: Vec<String>,
    pub sets: Vec<String>,
}

/// The model of a statement: its kind and the parts of each clause.
pub struct StatementModel {
    pub statement_type: StatementType,
    pub distinct: bool,
    pub select: Seq<Seq<char>>,
    pub tables: Seq<Seq<char>>,
    pub join: Seq<Seq<char>>,
    pub inner_join: Seq<Seq<char>>,
    pub outer_join: Seq<Seq<char>>,
    pub left_outer_join: Seq<Seq<char>>,
    pub right_outer_join: Seq<Seq<char>>,
    pub wheres: Seq<Seq<char>>,
    pub having: Seq<Seq<char>>,
    pub group_by: Seq<Seq<char>>,
    pub order_by: Seq<Seq<char>>,
    pub columns: Seq<Seq<char>>,
    pub values: Seq<Seq<char>>,
    pub sets: Seq<Seq<char>>,
}

impl View for SQLStatement {
    type V = StatementModel;

    open spec fn view(&self) -> StatementModel {
        StatementModel {
            statement_type: self.statement_type,
            distinct: self.distinct,
            select: strings_view(self.select@),
            tables: strings_view(self.tables@),
            join: strings_view(self.join@),
            inner_join: strings_view(self.inner_join@),
            outer_join: strings_view(self.outer_join@),
            left_outer_join: strings_view(self.left_outer_join@),
            right_outer_join: strings_view(self.right_outer_join@),
            wheres: strings_view(self.wheres@),
            having: strings_view(self.having@),
            group_by: strings_view(self.group_by@),
            order_by: strings_view(self.order_by@),
            columns: strings_view(self.columns@),
            values: strings_view(self.values@),
            sets: strings_view(self.sets@),
        }
    }
}

/// The join clauses of a statement appended to `text`.
pub open spec fn joins_text(s: StatementModel, text: Seq<char>) -> Seq<char> {
    let t1 = add_clause(text, "JOIN"@, s.join, ""@, ""@, "\nJOIN"@);
    let t2 = add_clause(t1, "INNER JOIN"@, s.inner_join, ""@, ""@, "\nINNER JOIN "@);
    let t3 = add_clause(t2, "OUTER JOIN"@, s.outer_join, ""@, ""@, "\nOUTER JOIN "@);
    let t4 = add_clause(t3, "LEFT OUTER JOIN"@, s.left_outer_join, ""@, ""@, "\nLEFT OUTER JOIN "@);
    add_clause(t4, "RIGHT OUTER JOIN"@, s.right_outer_join, ""@, ""@, "\nRIGHT OUTER JOIN "@)
}

/// The text of a `SELECT` statement.
pub open spec fn select_statement_text(s: StatementModel) -> Seq<char> {
    let keyword = if s.distinct { "SELECT DISTINCT"@ } else { "SELECT"@ };
    let t1 = add_clause(Seq::empty(), keyword, s.select, ""@, ""@, ", "@);
    let t2 = add_clause(t1, "FROM"@, s.tables, ""@, ""@, ", "@);
    let t3 = joins_text(s, t2);
    let t4 = add_clause(t3, "WHERE"@, s.wheres, "("@, ")"@, " AND "@);
    let t5 = add_clause(t4, "GROUP BY"@, s.group_by, ""@, ""@, ", "@);
    let t6 = add_clause(t5, "HAVING"@, s.having, "("@, ")"@, " AND "@);
    add_clause(t6, "ORDER BY"@, s.order_by, ""@, ""@, ", "@)
}

/// Another condition in a clause that is read as a whole: a part that is no connective,
/// after a last part that is none, is added with ` AND ` before the closing bracket.
proof fn lemma_and_clause_grows(t: Seq<char>, keyword: Seq<char>, h: Seq<Seq<char>>, b: Seq<char>)
    requires
        h.len() > 0,
        !is_connective(h.last()),
        !is_connective(b),
    ensures
        add_clause(t, keyword, h.push(b), "("@, ")"@, " AND "@)
            =~= add_clause(t, keyword, h, "("@, ")"@, " AND "@).drop_last() + " AND "@ + b + ")"@,
{
    reveal_strlit(")");
    let parts = h.push(b);
    assert(parts.drop_last() =~= h);
    assert(clause_parts_text(parts, " AND "@) == clause_parts_text(h, " AND "@) + " AND "@ + b);
}

/// Every condition of a select's `HAVING` and `WHERE` must hold: adding a condition that is
/// no connective marker, after one that is none, adds ` AND ` and the condition inside the
/// clause's closing bracket, never ` OR `.
pub proof fn having_and_where_conditions_all_hold(s: StatementModel, h: Seq<Seq<char>>, b: Seq<char>)
    requires
        h.len() > 0,
        !is_connective(h.last()),
        !is_connective(b),
    ensures
        s.order_by.len() == 0 ==> select_statement_text(StatementModel { having: h.push(b), ..s })
            =~= select_statement_text(StatementModel { having: h, ..s }).drop_last() + " AND "@ + b + ")"@,
        s.order_by.len() == 0 && s.having.len() == 0 && s.group_by.len() == 0 ==> select_statement_text(
            StatementModel { wheres: h.push(b), ..s },
        ) =~= select_statement_text(StatementModel { wheres: h, ..s }).drop_last() + " AND "@ + b + ")"@,
{
    let s1 = StatementModel { having: h.push(b), ..s };
    let s0 = StatementModel { having: h, ..s };
    let keyword = if s.distinct { "SELECT DISTINCT"@ } else { "SELECT"@ };
    let t1 = add_clause(Seq::empty(), keyword, s.select, ""@, ""@, ", "@);
    let t2 = add_clause(t1, "FROM"@, s.tables, ""@, ""@, ", "@);
    assert(joins_text(s1, t2) == joins_text(s0, t2));
    let t3 = joins_text(s, t2);
    let t4 = add_clause(t3, "WHERE"@, s.wheres, "("@, ")"@, " AND "@);
    let t5 = add_clause(t4, "GROUP BY"@, s.group_by, ""@, ""@, ", "@);
    lemma_and_clause_grows(t5, "HAVING"@, h, b);
    let w1 = StatementModel { wheres: h.push(b), ..s };
    let w0 = StatementModel { wheres: h, ..s };
    assert(joins_text(w1, t2) == joins_text(s, t2));
    assert(joins_text(w0, t2) == joins_text(s, t2));
    lemma_and_clause_grows(t3, "WHERE"@, h, b);
}

/// The text of an `INSERT` statement.
pub open spec fn insert_statement_text(s: StatementModel) -> Seq<char> {
    let t1 = add_clause(Seq::empty(), "INSERT INTO"@, s.tables, ""@, ""@, ""@);
    let t2 = add_clause(t1, ""@, s.columns, "("@, ")"@, ", "@);
    add_clause(t2, "VALUES"@, s.values, "("@, ")"@, ", "@)
}

/// The text of an `UPDATE` statement.
pub open spec fn update_statement_text(s: StatementModel) -> Seq<char> {
    let t1 = add_clause(Seq::empty(), "UPDATE"@, s.tables, ""@, ""@, ""@);
    let t2 = joins_text(s, t1);
    let t3 = add_clause(t2, "SET"@, s.sets, ""@, ""@, ", "@);
    add_clause(t3, "WHERE"@, s.wheres, "("@, ")"@, " AND "@)
}

/// The text of a `DELETE` statement.
pub open spec fn delete_statement_text(s: StatementModel) -> Seq<char> {
    let t1 = add_clause(Seq::empty(), "DELETE FROM"@, s.tables, ""@, ""@, ""@);
    add_clause(t1, "WHERE"@, s.wheres, "("@, ")"@, " AND "@)
}

/// The text of a statement, by its kind.
pub open spec fn statement_text(s: StatementModel) -> Seq<char> {
    match s.statement_type {
        StatementType::SELECT => select_statement_text(s),
        StatementType::INSERT => insert_statement_text(s),
        StatementType::UPDATE => update_statement_text(s),
        StatementType::DELETE => delete_statement_text(s),
    }
}

impl SQLStatement {
    pub fn new(statement_type: StatementType) -> (r: SQLStatement)
        ensures
            r.statement_type == statement_type,
            !r.distinct,
            r.select@.len() == 0,
            r.tables@.len() == 0,
            r.join@.len() == 0,
            r.inner_join@.len() == 0,
            r.outer_join@.len() == 0,
            r.left_outer_join@.len() == 0,
            r.right_outer_join@.len() == 0,
            r.wheres@.len() == 0,
            r.having@.len() == 0,
            r.group_by@.len() == 0,
            r.order_by@.len() == 0,
            r.last_list@.len() == 0,
            r.columns@.len() == 0,
            r.values@.len() == 0,
            r.sets@.len() == 0,
    {
        SQLStatement {
            statement_type,
            sets: Vec::new(),
            select: Vec::new(),
            tables: Vec::new(),
            join: Vec::new(),
            inner_join: Vec::new(),
            outer_join: Vec::new(),
            left_outer_join: Vec::new(),
            right_outer_join: Vec::new(),
            wheres: Vec::new(),
            having: Vec::new(),
            group_by: Vec::new(),
            order_by: Vec::new(),
            last_list: Vec::new(),
            columns: Vec::new(),
            values: Vec::new(),
            distinct: false,
        }
    }

    fn joins(&self, builder: &mut String)
        ensures
            final(builder)@ == joins_text(self@, old(builder)@),
    {
        sql_clause(builder, "JOIN", &self.join, "", "", "\nJOIN");
        sql_clause(builder, "INNER JOIN", &self.inner_join, "", "", "\nINNER JOIN ");
        sql_clause(builder, "OUTER JOIN", &self.outer_join, "", "", "\nOUTER JOIN ");
        sql_clause(builder, "LEFT OUTER JOIN", &self.left_outer_join, "", "", "\nLEFT OUTER JOIN ");
        sql_clause(builder, "RIGHT OUTER JOIN", &self.right_outer_join, "", "", "\nRIGHT OUTER JOIN ");
    }

    fn build_select(&self) -> (r: String)
        ensures
            r@ == select_statement_text(self@),
    {
        let mut builder = String::new();
        if self.distinct {
            sql_clause(&mut builder, "SELECT DISTINCT", &self.select, "", "", ", ");
        } else {
            sql_clause(&mut builder, "SELECT", &self.select, "", "", ", ");
        }
        sql_clause(&mut builder, "FROM", &self.tables, "", "", ", ");
        self.joins(&mut builder);
        sql_clause(&mut builder, "WHERE", &self.wheres, "(", ")", " AND ");
        sql_clause(&mut builder, "GROUP BY", &self.group_by, "", "", ", ");
        sql_clause(&mut builder, "HAVING", &self.having, "(", ")", " AND ");
        sql_clause(&mut builder, "ORDER BY", &self.order_by, "", "", ", ");
        builder
    }

    fn build_insert(&self) -> (r: String)
        ensures
            r@ == insert_statement_text(self@),
    {
        let mut builder = String::new();
        sql_clause(&mut builder, "INSERT INTO", &self.tables, "", "", "");
        sql_clause(&mut builder, "", &self.columns, "(", ")", ", ");
        sql_clause(&mut builder, "VALUES", &self.values, "(", ")", ", ");
        builder
    }

    fn build_update(&self) -> (r: String)
        ensures
            r@ == update_statement_text(self@),
    {
        let mut builder = String::new();
        sql_clause(&mut builder, "UPDATE", &self.tables, "", "", "");
        self.joins(&mut builder);
        sql_clause(&mut builder, "SET", &self.sets, "", "", ", ");
        sql_clause(&mut builder, "WHERE", &self.wheres, "(", ")", " AND ");
        builder
    }

    fn build_delete(&self) -> (r: String)
        ensures
            r@ == delete_statement_text(self@),
    {
        let mut builder = String::new();
        sql_clause(&mut builder, "DELETE FROM", &self.tables, "", "", "");
        sql_clause(&mut builder, "WHERE", &self.wheres, "(", ")", " AND ");
        builder
    }

    /// The text of the statement.
    pub fn sql(&mut self) -> (r: String)
        ensures
            r@ == statement_text(old(self)@),
            *final(self) == *old(self),
    {
        match self.statement_type {
            StatementType::SELECT => self.build_select(),
            StatementType::INSERT => self.build_insert(),
            StatementType::UPDATE => self.build_update(),
            StatementType::DELETE => self.build_delete(),
        }
    }
}

/// Which of a provider's answers it can give without failing. The clauses not named here
/// a provider always answers.
pub struct Readiness {
    pub select: bool,
    pub left_outer_join: bool,
    pub wheres: bool,
    pub group_by: bool,
    pub order_by: bool,
    pub values: bool,
}

/// Whether every clause can be answered.
pub open spec fn answers_all(r: Readiness) -> bool {
    r.select && r.left_outer_join && r.wheres && r.group_by && r.order_by && r.values
}

/// What fills the clause lists of a statement.
///
/// A provider names what it would answer through [`SQLProvider::clauses`] and which
/// answers it can give through [`SQLProvider::readiness`]; each method answers its part,
/// and asking leaves both as they were.
pub trait SQLProvider {
    /// Which answers the provider can give.
    spec fn readiness(&self) -> Readiness;

    /// What the provider answers: its statement kind and the parts of each clause.
    spec fn clauses(&self) -> StatementModel;

    fn get_statement_type(&self) -> (r: StatementType)
        ensures
            r == self.clauses().statement_type;

    fn get_select(&mut self) -> (r: Vec<String>)
        requires
            old(self).readiness().select,
        ensures
            final(self).readiness() == old(self).readiness(),
            final(self).clauses() == old(self).clauses(),
            strings_view(r@) == old(self).clauses().select;

    fn get_tables(&mut self) -> (r: Vec<String>)
        ensures
            final(self).readiness() == old(self).readiness(),
            final(self).clauses() == old(self).clauses(),
            strings_view(r@) == old(self).clauses().tables;

    fn get_join(&self) -> (r: Vec<String>)
        ensures
            strings_view(r@) == self.clauses().join;

    fn get_inner_join(&self) -> (r: Vec<String>)
        ensures
            strings_view(r@) == self.clauses().inner_join;

    fn get_outer_join(&self) -> (r: Vec<String>)
        ensures
            strings_view(r@) == self.clauses().outer_join;

    fn get_left_outer_join(&mut self) -> (r: Vec<String>)
        requires
            old(self).readiness().left_outer_join,
        ensures
            final(self).readiness() == old(self).readiness(),
            final(self).clauses() == old(self).clauses(),
            strings_view(r@) == old(self).clauses().left_outer_join;

    fn get_right_outer_join(&self) -> (r: Vec<String>)
        ensures
            strings_view(r@) == self.clauses().right_outer_join;

    fn get_where(&mut self) -> (r: Vec<String>)
        requires
            old(self).readiness().wheres,
        ensures
            final(self).readiness() == old(self).readiness(),
            final(self).clauses() == old(self).clauses(),
            strings_view(r@) == old(self).clauses().wheres;

    fn get_having(&self) -> (r: Vec<String>)
        ensures
            strings_view(r@) == self.clauses().having;

    fn get_group_by(&mut self) -> (r: Vec<String>)
        requires
            old(self).readiness().group_by,
        ensures
            final(self).readiness() == old(self).readiness(),
            final(self).clauses() == old(self).clauses(),
            strings_view(r@) == old(self).clauses().group_by;

    fn get_order_by(&mut self) -> (r: Vec<String>)
        requires
            old(self).readiness().order_by,
        ensures
            final(self).readiness() == old(self).readiness(),
            final(self).clauses() == old(self).clauses(),
            strings_view(r@) == old(self).clauses().order_by;

    fn get_columns(&self) -> (r: Vec<String>)
        ensures
            strings_view(r@) == self.clauses().columns;

    fn get_values(&self) -> (r: Vec<String>)
        requires
            self.readiness().values,
        ensures
            strings_view(r@) == self.clauses().values;

    fn get_sets(&self) -> (r: Vec<String>)
        ensures
            strings_view(r@) == self.clauses().sets;
}

/// The statement a provider describes: its answers, never distinct.
pub open spec fn provided_statement(c: StatementModel) -> StatementModel {
    StatementModel { distinct: false, ..c }
}

/// Asks `provider` for every clause, in the order tables, select, joins, where,
/// group by, having, order by, columns, values, sets, and returns the assembled
/// statement.
pub fn collect_statement<P: SQLProvider>(provider: &mut P) -> (r: SQLStatement)
    requires
        answers_all(old(provider).readiness()),
    ensures
        final(provider).readiness() == old(provider).readiness(),
        final(provider).clauses() == old(provider).clauses(),
        r@ == provided_statement(old(provider).clauses()),
        r.last_list@.len() == 0,
{
    let mut sql = SQLStatement::new(provider.get_statement_type());
    sql.statement_type = provider.get_statement_type();
    sql.tables = provider.get_tables();
    sql.select = provider.get_select();
    sql.join = provider.get_join();
    sql.inner_join = provider.get_inner_join();
    sql.outer_join = provider.get_outer_join();
    sql.left_outer_join = provider.get_left_outer_join();
    sql.right_outer_join = provider.get_right_outer_join();
    sql.wheres = provider.get_where();
    sql.group_by = provider.get_group_by();
    sql.having = provider.get_having();
    sql.order_by = provider.get_order_by();
    sql.columns = provider.get_columns();
    sql.values = provider.get_values();
    sql.sets = provider.get_sets();
    sql
}

/// The text of the statement that `provider` describes.
pub fn get_sql<P: SQLProvider>(provider: &mut P) -> (r: String)
    requires
        answers_all(old(provider).readiness()),
    ensures
        final(provider).readiness() == old(provider).readiness(),
        final(provider).clauses() == old(provider).clauses(),
        r@ == statement_text(provided_statement(old(provider).clauses())),
{
    let mut statement = collect_statement(provider);
    statement.sql()
}

/// Assembles statements from one provider.
pub struct SQLExplorer<P: SQLProvider> {
    pub sql: SQLStatement,
    pub sql_provider: P,
}

impl<P: SQLProvider> SQLExplorer<P> {
    pub fn new(sql_provider: P) -> (r: SQLExplorer<P>)
        ensures
            r.sql_provider == sql_provider,
            r.sql@ == (StatementModel {
                statement_type: sql_provider.clauses().statement_type,
                distinct: false,
                select: Seq::empty(),
                tables: Seq::empty(),
                join: Seq::empty(),
                inner_join: Seq::empty(),
                outer_join: Seq::empty(),
                left_outer_join: Seq::empty(),
                right_outer_join: Seq::empty(),
                wheres: Seq::empty(),
                having: Seq::empty(),
                group_by: Seq::empty(),
                order_by: Seq::empty(),
                columns: Seq::empty(),
                values: Seq::empty(),
                sets: Seq::empty(),
            }),
    {
        let t = sql_provider.get_statement_type();
        let sql = SQLStatement::new(t);
        assert(sql@.select =~= Seq::<Seq<char>>::empty());
        assert(sql@.tables =~= Seq::<Seq<char>>::empty());
        assert(sql@.join =~= Seq::<Seq<char>>::empty());
        assert(sql@.inner_join =~= Seq::<Seq<char>>::empty());
        assert(sql@.outer_join =~= Seq::<Seq<char>>::empty());
        assert(sql@.left_outer_join =~= Seq::<Seq<char>>::empty());
        assert(sql@.right_outer_join =~= Seq::<Seq<char>>::empty());
        assert(sql@.wheres =~= Seq::<Seq<char>>::empty());
        assert(sql@.having =~= Seq::<Seq<char>>::empty());
        assert(sql@.group_by =~= Seq::<Seq<char>>::empty());
        assert(sql@.order_by =~= Seq::<Seq<char>>::empty());
        assert(sql@.columns =~= Seq::<Seq<char>>::empty());
        assert(sql@.values =~= Seq::<Seq<char>>::empty());
        assert(sql@.sets =~= Seq::<Seq<char>>::empty());
        SQLExplorer { sql, sql_provider }
    }

    /// Refills the statement from the provider and returns its text.
    pub fn get_sql(&mut self) -> (r: String)
        requires
            answers_all(old(self).sql_provider.readiness()),
        ensures
            final(self).sql_provider.readiness() == old(self).sql_provider.readiness(),
            final(self).sql_provider.clauses() == old(self).sql_provider.clauses(),
            final(self).sql@ == (StatementModel {
                distinct: old(self).sql.distinct,
                ..old(self).sql_provider.clauses()
            }),
            r@ == statement_text(final(self).sql@),
    {
        self.sql.statement_type = self.sql_provider.get_statement_type();
        self.sql.tables = self.sql_provider.get_tables();
        self.sql.select = self.sql_provider.get_select();
        self.sql.join = self.sql_provider.get_join();
        self.sql.inner_join = self.sql_provider.get_inner_join();
        self.sql.outer_join = self.sql_provider.get_outer_join();
        self.sql.left_outer_join = self.sql_provider.get_left_outer_join();
        self.sql.right_outer_join = self.sql_provider.get_right_outer_join();
        self.sql.wheres = self.sql_provider.get_where();
        self.sql.group_by = self.sql_provider.get_group_by();
        self.sql.having = self.sql_provider.get_having();
        self.sql.order_by = self.sql_provider.get_order_by();
        self.sql.columns = self.sql_provider.get_columns();
        self.sql.values = self.sql_provider.get_values();
        self.sql.sets = self.sql_provider.get_sets();
        self.sql.sql()
    }
}

} // verus!
