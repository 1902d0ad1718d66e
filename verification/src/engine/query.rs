//! Query pieces: built queries, pagination, table references, relations and predicates.

use vstd::prelude::*;

use super::dialect::SqlDialect;
use crate::text::{chars_of, copy_string, join, join_strings, owned, push_char, strings_view};
use crate::value::{duplicate_values, Value, ValueModel, values_model};

verus! {

/// A rendered statement and the values bound to its placeholders, in order.
#[derive(Debug, Clone, PartialEq)]
pub struct BuiltQuery {
    pub sql: String,
    pub params: Vec<Value>,
}

/// A page of rows: skip `offset` rows, then return at most `limit`.
#[derive(Debug, Clone, Copy, PartialEq, Eq)]
pub struct Pagination {
    pub offset: usize,
    pub limit: usize,
}

/// A table named in a statement, with an optional alias.
#[derive(Debug, Clone, PartialEq, Eq)]
pub struct TableRef {
    name: String,
    alias: Option<String>,
}

/// The model of a [`TableRef`].
pub struct TableRefModel {
    pub name: Seq<char>,
    pub alias: Option<Seq<char>>,
}

impl View for TableRef {
    type V = TableRefModel;

    closed spec fn view(&self) -> TableRefModel {
        TableRefModel {
            name: self.name@,
            alias: match self.alias {
                Some(a) => Some(a@),
                None => None,
            },
        }
    }
}

/// `name alias`, or `name` alone.
pub open spec fn table_ref_text(t: TableRefModel) -> Seq<char> {
    match t.alias {
        Some(a) => t.name + " "@ + a,
        None => t.name,
    }
}

/// The name by which the columns of the table are qualified: the alias if there is one.
pub open spec fn table_ref_alias_or_name(t: TableRefModel) -> Seq<char> {
    match t.alias {
        Some(a) => a,
        None => t.name,
    }
}

impl TableRef {
    pub fn new(name: &str) -> (r: TableRef)
        ensures
            r@ == (TableRefModel { name: name@, alias: None }),
    {
        TableRef { name: owned(name), alias: None }
    }

    pub fn alias(self, alias: &str) -> (r: TableRef)
        ensures
            r@ == (TableRefModel { name: self@.name, alias: Some(alias@) }),
    {
        TableRef { name: self.name, alias: Some(owned(alias)) }
    }

    pub(crate) fn render(&self) -> (r: String)
        ensures
            r@ == table_ref_text(self@),
    {
        let mut s = self.name.clone();
        match &self.alias {
            Some(a) => {
                s.append(" ");
                s.append(a.as_str());
            },
            None => {},
        }
        s
    }

    /// A copy of this table reference.
    pub fn duplicate(&self) -> (r: TableRef)
        ensures
            r@ == self@,
    {
        TableRef {
            name: self.name.clone(),
            alias: match &self.alias {
                Some(a) => Some(a.clone()),
                None => None,
            },
        }
    }

    pub(crate) fn alias_or_name(&self) -> (r: &str)
        ensures
            r@ == table_ref_alias_or_name(self@),
    {
        match &self.alias {
            Some(a) => a.as_str(),
            None => self.name.as_str(),
        }
    }
}

/// How a related table is joined.
#[derive(Debug, Clone, Copy, PartialEq, Eq)]
pub enum JoinType {
    Inner,
    Left,
    Right,
}

pub open spec fn join_keyword_text(j: JoinType) -> Seq<char> {
    match j {
        JoinType::Inner => "INNER JOIN"@,
        JoinType::Left => "LEFT JOIN"@,
        JoinType::Right => "RIGHT JOIN"@,
    }
}

impl JoinType {
    pub(crate) fn keyword(&self) -> (r: &str)
        ensures
            r@ == join_keyword_text(*self),
    {
        match self {
            JoinType::Inner => "INNER JOIN",
            JoinType::Left => "LEFT JOIN",
            JoinType::Right => "RIGHT JOIN",
        }
    }
}

/// A join of a right table on `left_alias.left_column = right.right_column`.
#[derive(Debug, Clone, PartialEq, Eq)]
pub struct Relation {
    join_type: JoinType,
    left_alias: String,
    left_column: String,
    right_table: TableRef,
    right_column: String,
}

/// The model of a [`Relation`].
pub struct RelationModel {
    pub join_type: JoinType,
    pub left_alias: Seq<char>,
    pub left_column: Seq<char>,
    pub right_table: TableRefModel,
    pub right_column: Seq<char>,
}

impl View for Relation {
    type V = RelationModel;

    closed spec fn view(&self) -> RelationModel {
        RelationModel {
            join_type: self.join_type,
            left_alias: self.left_alias@,
            left_column: self.left_column@,
            right_table: self.right_table@,
            right_column: self.right_column@,
        }
    }
}

/// `<JOIN> right ON left_alias.left_column = right_alias.right_column`.
pub open spec fn relation_text(r: RelationModel) -> Seq<char> {
    join_keyword_text(r.join_type) + " "@ + table_ref_text(r.right_table) + " ON "@ + r.left_alias
        + "."@ + r.left_column + " = "@ + table_ref_alias_or_name(r.right_table) + "."@
        + r.right_column
}

impl Relation {
    pub fn new(
        join_type: JoinType,
        left_alias: &str,
        left_column: &str,
        right_table: TableRef,
        right_column: &str,
    ) -> (r: Relation)
        ensures
            r@ == (RelationModel {
                join_type,
                left_alias: left_alias@,
                left_column: left_column@,
                right_table: right_table@,
                right_column: right_column@,
            }),
    {
        Relation {
            join_type,
            left_alias: owned(left_alias),
            left_column: owned(left_column),
            right_table,
            right_column: owned(right_column),
        }
    }

    /// A copy of this relation.
    pub fn duplicate(&self) -> (r: Relation)
        ensures
            r@ == self@,
    {
        Relation {
            join_type: self.join_type,
            left_alias: self.left_alias.clone(),
            left_column: self.left_column.clone(),
            right_table: self.right_table.duplicate(),
            right_column: self.right_column.clone(),
        }
    }

    pub(crate) fn render(&self) -> (r: String)
        ensures
            r@ == relation_text(self@),
    {
        let mut s = owned(self.join_type.keyword());
        s.append(" ");
        let right = self.right_table.render();
        s.append(right.as_str());
        s.append(" ON ");
        s.append(self.left_alias.as_str());
        s.append(".");
        s.append(self.left_column.as_str());
        s.append(" = ");
        s.append(self.right_table.alias_or_name());
        s.append(".");
        s.append(self.right_column.as_str());
        s
    }
}

/// A condition of a `WHERE` clause.
#[derive(Debug, PartialEq)]
pub enum Predicate {
    Eq { field: String, value: Value },
    Ne { field: String, value: Value },
    Gt { field: String, value: Value },
    Like { field: String, value: Value },
    In { field: String, values: Vec<Value> },
    Gte { field: String, value: Value },
    Lt { field: String, value: Value },
    Lte { field: String, value: Value },
    Between { field: String, lower: Value, upper: Value },
    IsNull { field: String },
    IsNotNull { field: String },
    Exists { sql: String, params: Vec<Value> },
    Custom { sql: String, params: Vec<Value> },
    And(Vec<Predicate>),
    Or(Vec<Predicate>),
    Not(Box<Predicate>),
    Raw(String),
}

/// The model of a [`Predicate`].
pub enum PredicateModel {
    Eq { field: Seq<char>, value: ValueModel },
    Ne { field: Seq<char>, value: ValueModel },
    Gt { field: Seq<char>, value: ValueModel },
    Like { field: Seq<char>, value: ValueModel },
    In { field: Seq<char>, values: Seq<ValueModel> },
    Gte { field: Seq<char>, value: ValueModel },
    Lt { field: Seq<char>, value: ValueModel },
    Lte { field: Seq<char>, value: ValueModel },
    Between { field: Seq<char>, lower: ValueModel, upper: ValueModel },
    IsNull { field: Seq<char> },
    IsNotNull { field: Seq<char> },
    Exists { sql: Seq<char>, params: Seq<ValueModel> },
    Custom { sql: Seq<char>, params: Seq<ValueModel> },
    And(Seq<PredicateModel>),
    Or(Seq<PredicateModel>),
    Not(Box<PredicateModel>),
    Raw(Seq<char>),
}

pub open spec fn predicate_view(p: Predicate) -> PredicateModel
    decreases p, 0int,
{
    match p {
        Predicate::Eq { field, value } => PredicateModel::Eq { field: field@, value: value@ },
        Predicate::Ne { field, value } => PredicateModel::Ne { field: field@, value: value@ },
        Predicate::Gt { field, value } => PredicateModel::Gt { field: field@, value: value@ },
        Predicate::Like { field, value } => PredicateModel::Like { field: field@, value: value@ },
        Predicate::In { field, values } => PredicateModel::In {
            field: field@,
            values: values_model(values@),
        },
        Predicate::Gte { field, value } => PredicateModel::Gte { field: field@, value: value@ },
        Predicate::Lt { field, value } => PredicateModel::Lt { field: field@, value: value@ },
        Predicate::Lte { field, value } => PredicateModel::Lte { field: field@, value: value@ },
        Predicate::Between { field, lower, upper } => PredicateModel::Between {
            field: field@,
            lower: lower@,
            upper: upper@,
        },
        Predicate::IsNull { field } => PredicateModel::IsNull { field: field@ },
        Predicate::IsNotNull { field } => PredicateModel::IsNotNull { field: field@ },
        Predicate::Exists { sql, params } => PredicateModel::Exists {
            sql: sql@,
            params: values_model(params@),
        },
        Predicate::Custom { sql, params } => PredicateModel::Custom {
            sql: sql@,
            params: values_model(params@),
        },
        Predicate::And(items) => PredicateModel::And(predicates_from(items@, 0)),
        Predicate::Or(items) => PredicateModel::Or(predicates_from(items@, 0)),
        Predicate::Not(inner) => PredicateModel::Not(Box::new(predicate_view(*inner))),
        Predicate::Raw(sql) => PredicateModel::Raw(sql@),
    }
}

/// The models of `items[i..]`.
pub open spec fn predicates_from(items: Seq<Predicate>, i: int) -> Seq<PredicateModel>
    decreases items, items.len() - i,
{
    if 0 <= i < items.len() {
        seq![predicate_view(items[i])] + predicates_from(items, i + 1)
    } else {
        Seq::empty()
    }
}

/// The models of a sequence of predicates.
pub open spec fn predicates_model(items: Seq<Predicate>) -> Seq<PredicateModel> {
    items.map_values(|p: Predicate| predicate_view(p))
}

pub proof fn lemma_predicates_from(s: Seq<Predicate>, i: int)
    requires
        0 <= i <= s.len(),
    ensures
        predicates_from(s, i) == predicates_model(s).subrange(i, s.len() as int),
    decreases s.len() - i,
{
    if i < s.len() {
        lemma_predicates_from(s, i + 1);
    }
    assert(predicates_from(s, i) =~= predicates_model(s).subrange(i, s.len() as int));
}

impl Clone for Predicate {
    fn clone(&self) -> (r: Predicate)
        ensures
            r@ == self@,
    {
        self.duplicate()
    }
}

impl View for Predicate {
    type V = PredicateModel;

    open spec fn view(&self) -> PredicateModel {
        predicate_view(*self)
    }
}

/// The placeholder of the parameter that follows `n` parameters. An index that would pass
/// `usize::MAX` stays there (no statement holds that many parameters).
pub open spec fn next_index(n: nat) -> nat {
    if n < usize::MAX { n + 1 } else { n }
}

/// The placeholders of `m` parameters that follow `n` parameters.
pub open spec fn placeholders<D: SqlDialect>(d: D, n: nat, m: nat) -> Seq<Seq<char>> {
    Seq::new(m, |i: int| d.placeholder_text((n + i + 1) as nat))
}

/// `sql` with each `?` replaced by the dialect's placeholder, numbered on from `next`.
pub open spec fn substitute_placeholders<D: SqlDialect>(d: D, sql: Seq<char>, next: nat) -> Seq<char>
    decreases sql.len(),
{
    if sql.len() == 0 {
        Seq::empty()
    } else if sql[0] == '?' {
        d.placeholder_text(next_index(next)) + substitute_placeholders(d, sql.drop_first(), next_index(next))
    } else {
        seq![sql[0]] + substitute_placeholders(d, sql.drop_first(), next)
    }
}

/// The text of a comparison `field op ?` whose parameter follows `n` parameters.
pub open spec fn comparison_text<D: SqlDialect>(d: D, field: Seq<char>, op: Seq<char>, n: nat) -> Seq<char> {
    field + op + d.placeholder_text(n + 1)
}

/// The text of a predicate whose parameters follow `n` parameters, and the parameters it
/// binds, in order.
pub open spec fn predicate_text<D: SqlDialect>(d: D, p: PredicateModel, n: nat) -> (Seq<char>, Seq<ValueModel>)
    decreases p, 0int,
{
    match p {
        PredicateModel::Eq { field, value } => (comparison_text(d, field, " = "@, n), seq![value]),
        PredicateModel::Ne { field, value } => (comparison_text(d, field, " != "@, n), seq![value]),
        PredicateModel::Gt { field, value } => (comparison_text(d, field, " > "@, n), seq![value]),
        PredicateModel::Like { field, value } => (comparison_text(d, field, " LIKE "@, n), seq![value]),
        PredicateModel::In { field, values } => if values.len() == 0 {
            ("1 = 0"@, Seq::empty())
        } else {
            (field + " IN ("@ + join(placeholders(d, n, values.len()), ", "@) + ")"@, values)
        },
        PredicateModel::Gte { field, value } => (comparison_text(d, field, " >= "@, n), seq![value]),
        PredicateModel::Lt { field, value } => (comparison_text(d, field, " < "@, n), seq![value]),
        PredicateModel::Lte { field, value } => (comparison_text(d, field, " <= "@, n), seq![value]),
        PredicateModel::Between { field, lower, upper } => (
            field + " BETWEEN "@ + d.placeholder_text(n + 1) + " AND "@ + d.placeholder_text(n + 2),
            seq![lower, upper],
        ),
        PredicateModel::IsNull { field } => (field + " IS NULL"@, Seq::empty()),
        PredicateModel::IsNotNull { field } => (field + " IS NOT NULL"@, Seq::empty()),
        PredicateModel::Exists { sql, params } => (
            "EXISTS ("@ + substitute_placeholders(d, sql, n) + ")"@,
            params,
        ),
        PredicateModel::Custom { sql, params } => (substitute_placeholders(d, sql, n), params),
        PredicateModel::And(items) => if items.len() == 0 {
            ("1 = 1"@, Seq::empty())
        } else {
            let (t, v) = predicates_text(d, items, n, " AND "@, items.len() as int);
            ("("@ + t + ")"@, v)
        },
        PredicateModel::Or(items) => if items.len() == 0 {
            ("1 = 0"@, Seq::empty())
        } else {
            let (t, v) = predicates_text(d, items, n, " OR "@, items.len() as int);
            ("("@ + t + ")"@, v)
        },
        PredicateModel::Not(inner) => {
            let (t, v) = predicate_text(d, *inner, n);
            ("NOT ("@ + t + ")"@, v)
        },
        PredicateModel::Raw(sql) => (sql, Seq::empty()),
    }
}

/// A null test binds nothing; `f IS NOT NULL` says "NOT" after the field where `f IS NULL`
/// does not, so the two tests of one field never read the same.
pub proof fn null_tests_differ<D: SqlDialect>(d: D, field: Seq<char>, n: nat)
    ensures
        predicate_text(d, PredicateModel::IsNotNull { field }, n).0 =~= field + " IS NOT NULL"@,
        predicate_text(d, PredicateModel::IsNull { field }, n).0 =~= field + " IS NULL"@,
        predicate_text(d, PredicateModel::IsNotNull { field }, n).1.len() == 0,
        predicate_text(d, PredicateModel::IsNull { field }, n).1.len() == 0,
        predicate_text(d, PredicateModel::IsNotNull { field }, n).0 != predicate_text(d, PredicateModel::IsNull { field }, n).0,
{
    reveal_strlit(" IS NOT NULL");
    reveal_strlit(" IS NULL");
    let a = predicate_text(d, PredicateModel::IsNotNull { field }, n).0;
    let b = predicate_text(d, PredicateModel::IsNull { field }, n).0;
    assert(a.len() != b.len());
}

/// The texts of the first `k` predicates of `items` joined with `sep`, parameters numbered on
/// from `n`, and the parameters they bind, in order.
pub open spec fn predicates_text<D: SqlDialect>(
    d: D,
    items: Seq<PredicateModel>,
    n: nat,
    sep: Seq<char>,
    k: int,
) -> (Seq<char>, Seq<ValueModel>)
    decreases items, k,
{
    if k <= 0 || k > items.len() {
        (Seq::empty(), Seq::empty())
    } else if k == 1 {
        predicate_text(d, items[0], n)
    } else {
        let (t, v) = predicates_text(d, items, n, sep, k - 1);
        let (t2, v2) = predicate_text(d, items[k - 1], n + v.len());
        (t + sep + t2, v + v2)
    }
}

/// An empty `IN` list matches no row: it is written `1 = 0` and binds nothing, whatever
/// the dialect, the field and the parameters before it.
pub proof fn empty_in_list_matches_nothing<D: SqlDialect>(d: D, field: Seq<char>, n: nat)
    ensures
        predicate_text(d, PredicateModel::In { field, values: Seq::empty() }, n) == ("1 = 0"@, Seq::<ValueModel>::empty()),
{
}

/// The values a predicate binds, and their order, depend neither on the dialect nor on
/// how many parameters come before it: only its placeholders are written differently.
pub proof fn predicate_binds_same_values<D1: SqlDialect, D2: SqlDialect>(d1: D1, d2: D2, p: PredicateModel, n1: nat, n2: nat)
    ensures
        predicate_text(d1, p, n1).1 == predicate_text(d2, p, n2).1,
    decreases p, 0int,
{
    match p {
        PredicateModel::And(items) => {
            if items.len() > 0 {
                predicates_bind_same_values(d1, d2, items, n1, n2, " AND "@, items.len() as int);
            }
        },
        PredicateModel::Or(items) => {
            if items.len() > 0 {
                predicates_bind_same_values(d1, d2, items, n1, n2, " OR "@, items.len() as int);
            }
        },
        PredicateModel::Not(inner) => {
            predicate_binds_same_values(d1, d2, *inner, n1, n2);
        },
        _ => {},
    }
}

/// The values that the first `k` of `items` bind depend neither on the dialect nor on how
/// many parameters come before them.
pub proof fn predicates_bind_same_values<D1: SqlDialect, D2: SqlDialect>(
    d1: D1,
    d2: D2,
    items: Seq<PredicateModel>,
    n1: nat,
    n2: nat,
    sep: Seq<char>,
    k: int,
)
    ensures
        predicates_text(d1, items, n1, sep, k).1 == predicates_text(d2, items, n2, sep, k).1,
    decreases items, k,
{
    if k <= 0 || k > items.len() {
    } else if k == 1 {
        predicate_binds_same_values(d1, d2, items[0], n1, n2);
    } else {
        predicates_bind_same_values(d1, d2, items, n1, n2, sep, k - 1);
        let v1 = predicates_text(d1, items, n1, sep, k - 1).1;
        let v2 = predicates_text(d2, items, n2, sep, k - 1).1;
        predicate_binds_same_values(d1, d2, items[k - 1], (n1 + v1.len()) as nat, (n2 + v2.len()) as nat);
    }
}

/// Renders `predicates` joined with `sep`, binding their parameters after those already in
/// `params`.
pub(crate) fn render_predicate_list<D: SqlDialect>(
    predicates: &Vec<Predicate>,
    sep: &str,
    dialect: &D,
    params: &mut Vec<Value>,
) -> (r: String)
    ensures
        r@ == predicates_text(*dialect, predicates_model(predicates@), old(params)@.len() as nat, sep@, predicates@.len() as int).0,
        values_model(final(params)@) == values_model(old(params)@)
            + predicates_text(*dialect, predicates_model(predicates@), old(params)@.len() as nat, sep@, predicates@.len() as int).1,
{
    let ghost n = old(params)@.len() as nat;
    let ghost start = params@;
    let ghost pm = predicates_model(predicates@);
    let mut s = String::new();
    let m = predicates.len();
    let mut i: usize = 0;
    while i < m
        invariant
            m == predicates@.len(),
            pm == predicates_model(predicates@),
            i <= m,
            n == start.len(),
            params@.len() == n + predicates_text(*dialect, pm, n, sep@, i as int).1.len(),
            s@ == predicates_text(*dialect, pm, n, sep@, i as int).0,
            values_model(params@) == values_model(start) + predicates_text(*dialect, pm, n, sep@, i as int).1,
        decreases m - i,
    {
        if i > 0 {
            s.append(sep);
        }
        let ghost before = params@;
        let t = predicates[i].render(dialect, params);
        s.append(t.as_str());
        proof {
            assert(pm[i as int] == predicates@[i as int]@);
            assert(values_model(params@).len() == params@.len());
            assert(values_model(before).len() == before.len());
            assert(values_model(start).len() == start.len());
        }
        i = i + 1;
    }
    s
}

/// Binds `value` as the next parameter and returns its placeholder.
pub(crate) fn push_param<D: SqlDialect>(dialect: &D, params: &mut Vec<Value>, value: Value) -> (r: String)
    ensures
        final(params)@ == old(params)@.push(value),
        r@ == dialect.placeholder_text(old(params)@.len() + 1),
{
    params.push(value);
    dialect.placeholder(params.len())
}

proof fn lemma_values_model_push(s: Seq<Value>, v: Value)
    ensures
        values_model(s.push(v)) == values_model(s).push(v@),
{
    assert(values_model(s.push(v)) =~= values_model(s).push(v@));
}

/// `sql` with each `?` replaced by a placeholder, after binding `custom_params`.
fn render_parameterized_sql<D: SqlDialect>(
    sql: &String,
    custom_params: &Vec<Value>,
    dialect: &D,
    params: &mut Vec<Value>,
) -> (r: String)
    ensures
        r@ == substitute_placeholders(*dialect, sql@, old(params)@.len() as nat),
        values_model(final(params)@) == values_model(old(params)@) + values_model(custom_params@),
{
    let ghost start = params@;
    let m = custom_params.len();
    let mut i: usize = 0;
    while i < m
        invariant
            m == custom_params@.len(),
            i <= m,
            params@.len() == start.len() + i,
            values_model(params@) == values_model(start) + values_model(custom_params@.take(i as int)),
        decreases m - i,
    {
        let v = custom_params[i].duplicate();
        let ghost before = params@;
        params.push(v);
        proof {
            lemma_values_model_push(before, v);
            assert(custom_params@.take(i + 1) =~= custom_params@.take(i as int).push(custom_params@[i as int]));
            lemma_values_model_push(custom_params@.take(i as int), custom_params@[i as int]);
        }
        i = i + 1;
    }
    proof {
        assert(custom_params@.take(m as int) =~= custom_params@);
    }
    let mut next: usize = params.len() - m;
    let chars = chars_of(sql.as_str());
    let n = chars.len();
    let mut out = String::new();
    let mut j: usize = 0;
    proof {
        assert(chars@.skip(0) =~= chars@);
    }
    while j < n
        invariant
            n == chars@.len(),
            chars@ == sql@,
            j <= n,
            substitute_placeholders(*dialect, sql@, start.len() as nat)
                == out@ + substitute_placeholders(*dialect, chars@.skip(j as int), next as nat),
        decreases n - j,
    {
        let c = chars[j];
        proof {
            assert(chars@.skip(j as int).drop_first() =~= chars@.skip(j + 1));
        }
        if c == '?' {
            if next < usize::MAX {
                next = next + 1;
            }
            let ph = dialect.placeholder(next);
            out.append(ph.as_str());
        } else {
            push_char(&mut out, c);
        }
        j = j + 1;
    }
    out
}

fn render_comparison<D: SqlDialect>(
    field: &String,
    op: &str,
    value: &Value,
    dialect: &D,
    params: &mut Vec<Value>,
) -> (r: String)
    ensures
        r@ == comparison_text(*dialect, field@, op@, old(params)@.len() as nat),
        values_model(final(params)@) == values_model(old(params)@).push(value@),
{
    let mut s = field.clone();
    s.append(op);
    let v = value.duplicate();
    let ghost before = params@;
    let ph = push_param(dialect, params, v);
    s.append(ph.as_str());
    proof {
        lemma_values_model_push(before, v);
    }
    s
}

impl Predicate {
    pub fn eq(field: &str, value: Value) -> (r: Predicate)
        ensures
            r@ == (PredicateModel::Eq { field: field@, value: value@ }),
    {
        Predicate::Eq { field: owned(field), value }
    }

    pub fn ne(field: &str, value: Value) -> (r: Predicate)
        ensures
            r@ == (PredicateModel::Ne { field: field@, value: value@ }),
    {
        Predicate::Ne { field: owned(field), value }
    }

    pub fn gt(field: &str, value: Value) -> (r: Predicate)
        ensures
            r@ == (PredicateModel::Gt { field: field@, value: value@ }),
    {
        Predicate::Gt { field: owned(field), value }
    }

    pub fn like(field: &str, value: Value) -> (r: Predicate)
        ensures
            r@ == (PredicateModel::Like { field: field@, value: value@ }),
    {
        Predicate::Like { field: owned(field), value }
    }

    pub fn in_list(field: &str, values: Vec<Value>) -> (r: Predicate)
        ensures
            r@ == (PredicateModel::In { field: field@, values: values_model(values@) }),
    {
        Predicate::In { field: owned(field), values }
    }

    pub fn gte(field: &str, value: Value) -> (r: Predicate)
        ensures
            r@ == (PredicateModel::Gte { field: field@, value: value@ }),
    {
        Predicate::Gte { field: owned(field), value }
    }

    pub fn lt(field: &str, value: Value) -> (r: Predicate)
        ensures
            r@ == (PredicateModel::Lt { field: field@, value: value@ }),
    {
        Predicate::Lt { field: owned(field), value }
    }

    pub fn lte(field: &str, value: Value) -> (r: Predicate)
        ensures
            r@ == (PredicateModel::Lte { field: field@, value: value@ }),
    {
        Predicate::Lte { field: owned(field), value }
    }

    pub fn between(field: &str, lower: Value, upper: Value) -> (r: Predicate)
        ensures
            r@ == (PredicateModel::Between { field: field@, lower: lower@, upper: upper@ }),
    {
        Predicate::Between { field: owned(field), lower, upper }
    }

    pub fn is_null(field: &str) -> (r: Predicate)
        ensures
            r@ == (PredicateModel::IsNull { field: field@ }),
    {
        Predicate::IsNull { field: owned(field) }
    }

    pub fn is_not_null(field: &str) -> (r: Predicate)
        ensures
            r@ == (PredicateModel::IsNotNull { field: field@ }),
    {
        Predicate::IsNotNull { field: owned(field) }
    }

    pub fn exists_query(sql: &str, params: Vec<Value>) -> (r: Predicate)
        ensures
            r@ == (PredicateModel::Exists { sql: sql@, params: values_model(params@) }),
    {
        Predicate::Exists { sql: owned(sql), params }
    }

    pub fn custom(sql: &str, params: Vec<Value>) -> (r: Predicate)
        ensures
            r@ == (PredicateModel::Custom { sql: sql@, params: values_model(params@) }),
    {
        Predicate::Custom { sql: owned(sql), params }
    }

    pub fn and(predicates: Vec<Predicate>) -> (r: Predicate)
        ensures
            r@ == PredicateModel::And(predicates_model(predicates@)),
    {
        proof {
            lemma_predicates_from(predicates@, 0);
            assert(predicates_model(predicates@).subrange(0, predicates@.len() as int) =~= predicates_model(predicates@));
        }
        Predicate::And(predicates)
    }

    pub fn or(predicates: Vec<Predicate>) -> (r: Predicate)
        ensures
            r@ == PredicateModel::Or(predicates_model(predicates@)),
    {
        proof {
            lemma_predicates_from(predicates@, 0);
            assert(predicates_model(predicates@).subrange(0, predicates@.len() as int) =~= predicates_model(predicates@));
        }
        Predicate::Or(predicates)
    }

    pub fn not(predicate: Predicate) -> (r: Predicate)
        ensures
            r@ == PredicateModel::Not(Box::new(predicate@)),
    {
        Predicate::Not(Box::new(predicate))
    }

    pub fn raw(sql: &str) -> (r: Predicate)
        ensures
            r@ == PredicateModel::Raw(sql@),
    {
        Predicate::Raw(owned(sql))
    }

    /// A copy of this predicate.
    pub fn duplicate(&self) -> (r: Predicate)
        ensures
            r@ == self@,
        decreases self, 1int,
    {
        match self {
            Predicate::Eq { field, value } => Predicate::Eq { field: copy_string(field), value: value.duplicate() },
            Predicate::Ne { field, value } => Predicate::Ne { field: copy_string(field), value: value.duplicate() },
            Predicate::Gt { field, value } => Predicate::Gt { field: copy_string(field), value: value.duplicate() },
            Predicate::Like { field, value } => Predicate::Like { field: copy_string(field), value: value.duplicate() },
            Predicate::In { field, values } => Predicate::In { field: copy_string(field), values: duplicate_values(values) },
            Predicate::Gte { field, value } => Predicate::Gte { field: copy_string(field), value: value.duplicate() },
            Predicate::Lt { field, value } => Predicate::Lt { field: copy_string(field), value: value.duplicate() },
            Predicate::Lte { field, value } => Predicate::Lte { field: copy_string(field), value: value.duplicate() },
            Predicate::Between { field, lower, upper } => Predicate::Between {
                field: copy_string(field),
                lower: lower.duplicate(),
                upper: upper.duplicate(),
            },
            Predicate::IsNull { field } => Predicate::IsNull { field: copy_string(field) },
            Predicate::IsNotNull { field } => Predicate::IsNotNull { field: copy_string(field) },
            Predicate::Exists { sql, params } => Predicate::Exists { sql: copy_string(sql), params: duplicate_values(params) },
            Predicate::Custom { sql, params } => Predicate::Custom { sql: copy_string(sql), params: duplicate_values(params) },
            Predicate::And(items) => {
                let out = self.duplicate_members(items);
                proof {
                    lemma_predicates_from(items@, 0);
                    lemma_predicates_from(out@, 0);
                    assert(predicates_model(items@).subrange(0, items@.len() as int) =~= predicates_model(items@));
                    assert(predicates_model(out@).subrange(0, out@.len() as int) =~= predicates_model(out@));
                }
                Predicate::And(out)
            },
            Predicate::Or(items) => {
                let out = self.duplicate_members(items);
                proof {
                    lemma_predicates_from(items@, 0);
                    lemma_predicates_from(out@, 0);
                    assert(predicates_model(items@).subrange(0, items@.len() as int) =~= predicates_model(items@));
                    assert(predicates_model(out@).subrange(0, out@.len() as int) =~= predicates_model(out@));
                }
                Predicate::Or(out)
            },
            Predicate::Not(inner) => {
                proof {
                    assert(decreases_to!(*self => (*self)->Not_0));
                }
                let c = (**inner).duplicate();
                Predicate::Not(Box::new(c))
            },
            Predicate::Raw(sql) => Predicate::Raw(copy_string(sql)),
        }
    }

    fn duplicate_members(&self, items: &Vec<Predicate>) -> (r: Vec<Predicate>)
        requires
            *self == Predicate::And(*items) || *self == Predicate::Or(*items),
        ensures
            predicates_model(r@) == predicates_model(items@),
        decreases self, 0int,
    {
        let mut out: Vec<Predicate> = Vec::new();
        let n = items.len();
        let mut i: usize = 0;
        while i < n
            invariant
                n == items@.len(),
                *self == Predicate::And(*items) || *self == Predicate::Or(*items),
                i <= n,
                out@.len() == i,
                forall|j: int| 0 <= j < i ==> predicate_view(#[trigger] out@[j]) == predicate_view(items@[j]),
            decreases n - i,
        {
            proof {
                assert(decreases_to!(*items => items[i as int]));
                if *self == Predicate::And(*items) {
                    assert(decreases_to!(*self => (*self)->And_0));
                } else {
                    assert(decreases_to!(*self => (*self)->Or_0));
                }
                assert(decreases_to!(*self => items[i as int]));
            }
            let e = items[i].duplicate();
            out.push(e);
            i = i + 1;
        }
        assert(predicates_model(out@) =~= predicates_model(items@));
        out
    }

    /// Renders the predicate, binding its parameters after those already in `params`.
    pub(crate) fn render<D: SqlDialect>(&self, dialect: &D, params: &mut Vec<Value>) -> (r: String)
        ensures
            r@ == predicate_text(*dialect, self@, old(params)@.len() as nat).0,
            values_model(final(params)@) == values_model(old(params)@)
                + predicate_text(*dialect, self@, old(params)@.len() as nat).1,
        decreases self, 2int,
    {
        let ghost n = old(params)@.len() as nat;
        match self {
            Predicate::Eq { field, value } => render_comparison(field, " = ", value, dialect, params),
            Predicate::Ne { field, value } => render_comparison(field, " != ", value, dialect, params),
            Predicate::Gt { field, value } => render_comparison(field, " > ", value, dialect, params),
            Predicate::Like { field, value } => render_comparison(field, " LIKE ", value, dialect, params),
            Predicate::Gte { field, value } => render_comparison(field, " >= ", value, dialect, params),
            Predicate::Lt { field, value } => render_comparison(field, " < ", value, dialect, params),
            Predicate::Lte { field, value } => render_comparison(field, " <= ", value, dialect, params),
            Predicate::In { field, values } => {
                if values.len() == 0 {
                    return "1 = 0".to_owned();
                }
                let ghost start = params@;
                let mut phs: Vec<String> = Vec::new();
                let m = values.len();
                let mut i: usize = 0;
                while i < m
                    invariant
                        m == values@.len(),
                        i <= m,
                        n == start.len(),
                        params@.len() == start.len() + i,
                        values_model(params@) == values_model(start) + values_model(values@.take(i as int)),
                        phs@.len() == i,
                        strings_view(phs@) == placeholders(*dialect, n, i as nat),
                    decreases m - i,
                {
                    let v = values[i].duplicate();
                    let ghost before = params@;
                    let ghost phs_before = phs@;
                    let ph = push_param(dialect, params, v);
                    phs.push(ph);
                    proof {
                        assert forall|j: int| 0 <= j < i + 1 implies strings_view(phs@)[j] == placeholders(*dialect, n, (i + 1) as nat)[j] by {
                            if j < i {
                                assert(phs@[j] == phs_before[j]);
                                assert(strings_view(phs_before)[j] == placeholders(*dialect, n, i as nat)[j]);
                            } else {
                                assert(phs@[j]@ == dialect.placeholder_text((start.len() + i + 1) as nat));
                            }
                        }
                        lemma_values_model_push(before, v);
                        assert(values@.take(i + 1) =~= values@.take(i as int).push(values@[i as int]));
                        lemma_values_model_push(values@.take(i as int), values@[i as int]);
                        assert(strings_view(phs@) =~= placeholders(*dialect, n, (i + 1) as nat));
                    }
                    i = i + 1;
                }
                proof {
                    assert(values@.take(m as int) =~= values@);
                }
                let mut s = field.clone();
                s.append(" IN (");
                let joined = join_strings(&phs, ", ");
                s.append(joined.as_str());
                s.append(")");
                s
            },
            Predicate::Between { field, lower, upper } => {
                let mut s = field.clone();
                s.append(" BETWEEN ");
                let l = lower.duplicate();
                let ghost p0 = params@;
                let ph1 = push_param(dialect, params, l);
                s.append(ph1.as_str());
                s.append(" AND ");
                let u = upper.duplicate();
                let ghost p1 = params@;
                let ph2 = push_param(dialect, params, u);
                s.append(ph2.as_str());
                proof {
                    lemma_values_model_push(p0, l);
                    lemma_values_model_push(p1, u);
                    assert(values_model(params@) =~= values_model(p0) + seq![lower@, upper@]);
                }
                s
            },
            Predicate::IsNull { field } => {
                let mut s = field.clone();
                s.append(" IS NULL");
                s
            },
            Predicate::IsNotNull { field } => {
                let mut s = field.clone();
                s.append(" IS NOT NULL");
                s
            },
            Predicate::Exists { sql, params: custom } => {
                let body = render_parameterized_sql(sql, custom, dialect, params);
                let mut s = "EXISTS (".to_owned();
                s.append(body.as_str());
                s.append(")");
                s
            },
            Predicate::Custom { sql, params: custom } => render_parameterized_sql(sql, custom, dialect, params),
            Predicate::And(items) => self.render_group(items, " AND ", "1 = 1", dialect, params),
            Predicate::Or(items) => self.render_group(items, " OR ", "1 = 0", dialect, params),
            Predicate::Not(inner) => {
                proof {
                    assert(decreases_to!(*self => (*self)->Not_0));
                }
                let t = inner.render(dialect, params);
                let mut s = "NOT (".to_owned();
                s.append(t.as_str());
                s.append(")");
                s
            },
            Predicate::Raw(sql) => sql.clone(),
        }
    }

    /// Renders a non-empty `AND` / `OR` group of this predicate, or its neutral text when empty.
    fn render_group<D: SqlDialect>(
        &self,
        items: &Vec<Predicate>,
        sep: &str,
        empty: &str,
        dialect: &D,
        params: &mut Vec<Value>,
    ) -> (r: String)
        requires
            (*self is And && (*self)->And_0 == *items && sep@ == " AND "@ && empty@ == "1 = 1"@)
                || (*self is Or && (*self)->Or_0 == *items && sep@ == " OR "@ && empty@ == "1 = 0"@),
        ensures
            r@ == predicate_text(*dialect, self@, old(params)@.len() as nat).0,
            values_model(final(params)@) == values_model(old(params)@)
                + predicate_text(*dialect, self@, old(params)@.len() as nat).1,
        decreases self, 1int,
    {
        let ghost n = old(params)@.len() as nat;
        let ghost start = params@;
        let ghost pm = predicates_model(items@);
        proof {
            lemma_predicates_from(items@, 0);
            assert(pm.subrange(0, items@.len() as int) =~= pm);
        }
        if items.len() == 0 {
            return owned(empty);
        }
        let mut s = "(".to_owned();
        let m = items.len();
        let mut i: usize = 0;
        while i < m
            invariant
                m == items@.len(),
                pm == predicates_model(items@),
                (*self is And && (*self)->And_0 == *items) || (*self is Or && (*self)->Or_0 == *items),
                i <= m,
                n == start.len(),
                params@.len() == n + predicates_text(*dialect, pm, n, sep@, i as int).1.len(),
                s@ == "("@ + predicates_text(*dialect, pm, n, sep@, i as int).0,
                values_model(params@) == values_model(start) + predicates_text(*dialect, pm, n, sep@, i as int).1,
            decreases m - i,
        {
            if i > 0 {
                s.append(sep);
            }
            proof {
                if *self is And {
                    assert(decreases_to!(*self => (*self)->And_0));
                } else {
                    assert(decreases_to!(*self => (*self)->Or_0));
                }
                assert(decreases_to!(*items => items[i as int]));
            }
            let ghost before = params@;
            let t = items[i].render(dialect, params);
            s.append(t.as_str());
            proof {
                assert(pm[i as int] == items@[i as int]@);
                assert(values_model(params@).len() == params@.len());
                assert(values_model(before).len() == before.len());
                assert(values_model(start).len() == start.len());
            }
            i = i + 1;
        }
        s.append(")");
        s
    }
}

} // verus!
