//! Builders of `SELECT`, `INSERT`, `UPDATE` and `DELETE` statements.

use vstd::prelude::*;

use super::dialect::SqlDialect;
use super::query::{
    predicates_bind_same_values, predicates_model, predicates_text, push_param, render_predicate_list, table_ref_text,
    relation_text, BuiltQuery, Pagination, Predicate, PredicateModel, Relation, RelationModel,
    TableRef, TableRefModel,
};
use crate::text::{join, join_strings, owned, strings_view};
use crate::value::{Value, ValueModel, values_model};

verus! {

/// A value assigned to a column: a bound parameter or raw SQL.
pub enum SqlValue {
    Param(Value),
    Raw(String),
}

/// The model of an assigned value.
pub enum SqlValueModel {
    Param(ValueModel),
    Raw(Seq<char>),
}

pub open spec fn sql_value_view(v: SqlValue) -> SqlValueModel {
    match v {
        SqlValue::Param(p) => SqlValueModel::Param(p@),
        SqlValue::Raw(s) => SqlValueModel::Raw(s@),
    }
}

/// The models of column assignments.
pub open spec fn assignments_model(items: Seq<(String, SqlValue)>) -> Seq<(Seq<char>, SqlValueModel)> {
    items.map_values(|a: (String, SqlValue)| (a.0@, sql_value_view(a.1)))
}

/// The texts of the first `k` assigned values, parameters numbered on from `n`, and the
/// parameters they bind.
pub open spec fn sql_values_text<D: SqlDialect>(
    d: D,
    items: Seq<(Seq<char>, SqlValueModel)>,
    n: nat,
    k: int,
) -> (Seq<Seq<char>>, Seq<ValueModel>)
    decreases k,
{
    if k <= 0 || k > items.len() {
        (Seq::empty(), Seq::empty())
    } else {
        let (t, v) = sql_values_text(d, items, n, k - 1);
        match items[k - 1].1 {
            SqlValueModel::Param(p) => (t.push(d.placeholder_text(n + v.len() + 1)), v.push(p)),
            SqlValueModel::Raw(s) => (t.push(s), v),
        }
    }
}

/// Renders the assigned values of `items`, binding their parameters after `params`.
fn render_values<D: SqlDialect>(items: Vec<(String, SqlValue)>, dialect: &D, params: &mut Vec<Value>) -> (r: (Vec<String>, Vec<String>))
    ensures
        strings_view(r.0@) == items@.map_values(|a: (String, SqlValue)| a.0@),
        strings_view(r.1@) == sql_values_text(*dialect, assignments_model(items@), old(params)@.len() as nat, items@.len() as int).0,
        values_model(final(params)@) == values_model(old(params)@)
            + sql_values_text(*dialect, assignments_model(items@), old(params)@.len() as nat, items@.len() as int).1,
{
    let ghost n = old(params)@.len() as nat;
    let ghost start = params@;
    let ghost am = assignments_model(items@);
    let ghost all = items@;
    let mut columns: Vec<String> = Vec::new();
    let mut texts: Vec<String> = Vec::new();
    let mut rest = items;
    let m = rest.len();
    let mut i: usize = 0;
    while i < m
        invariant
            m == all.len(),
            am == assignments_model(all),
            rest@ == all.skip(i as int),
            i <= m,
            n == start.len(),
            columns@.len() == i,
            forall|j: int| 0 <= j < i ==> columns@[j]@ == all[j].0@,
            strings_view(texts@) == sql_values_text(*dialect, am, n, i as int).0,
            params@.len() == n + sql_values_text(*dialect, am, n, i as int).1.len(),
            values_model(params@) == values_model(start) + sql_values_text(*dialect, am, n, i as int).1,
        decreases m - i,
    {
        let ghost before = params@;
        let ghost texts_before = texts@;
        let (column, value) = rest.remove(0);
        proof {
            assert(rest@ =~= all.skip(i + 1));
        }
        proof {
            assert(column == all[i as int].0);
        }
        columns.push(column);
        match value {
            SqlValue::Param(v) => {
                let ph = push_param(dialect, params, v);
                texts.push(ph);
                proof {
                    assert(values_model(params@) =~= values_model(before).push(v@));
                }
            },
            SqlValue::Raw(sql) => {
                texts.push(sql);
            },
        }
        proof {
            assert(strings_view(texts@) =~= strings_view(texts_before).push(texts@.last()@));
            assert(values_model(params@).len() == params@.len());
            assert(values_model(before).len() == before.len());
            assert(values_model(start).len() == start.len());
        }
        i = i + 1;
    }
    proof {
        assert(strings_view(columns@) =~= all.map_values(|a: (String, SqlValue)| a.0@));
    }
    (columns, texts)
}

/// Renders the `WHERE` clause of `predicates` (empty when there are none).
fn render_where<D: SqlDialect>(predicates: &Vec<Predicate>, keyword: &str, dialect: &D, params: &mut Vec<Value>) -> (r: String)
    ensures
        r@ == where_text(*dialect, predicates_model(predicates@), old(params)@.len() as nat, keyword@).0,
        values_model(final(params)@) == values_model(old(params)@)
            + where_text(*dialect, predicates_model(predicates@), old(params)@.len() as nat, keyword@).1,
{
    if predicates.len() == 0 {
        proof {
            assert(values_model(params@) =~= values_model(params@) + Seq::<ValueModel>::empty());
        }
        return String::new();
    }
    let mut s = owned(keyword);
    let t = render_predicate_list(predicates, " AND ", dialect, params);
    s.append(t.as_str());
    s
}

/// ` <keyword>` followed by `predicates` joined with `AND`, or nothing when there are none,
/// and the parameters they bind.
pub open spec fn where_text<D: SqlDialect>(d: D, predicates: Seq<PredicateModel>, n: nat, keyword: Seq<char>) -> (Seq<char>, Seq<ValueModel>) {
    if predicates.len() == 0 {
        (Seq::empty(), Seq::empty())
    } else {
        let (t, v) = predicates_text(d, predicates, n, " AND "@, predicates.len() as int);
        (keyword + t, v)
    }
}

/// ` <keyword>` followed by `items` joined with `sep`, or nothing when there are none.
pub open spec fn list_clause_text(keyword: Seq<char>, items: Seq<Seq<char>>, sep: Seq<char>) -> Seq<char> {
    if items.len() == 0 { Seq::empty() } else { keyword + join(items, sep) }
}

fn push_list_clause(s: &mut String, keyword: &str, items: &Vec<String>, sep: &str)
    ensures
        final(s)@ == old(s)@ + list_clause_text(keyword@, strings_view(items@), sep@),
{
    if items.len() > 0 {
        s.append(keyword);
        let joined = join_strings(items, sep);
        s.append(joined.as_str());
    }
}

/// A `SELECT` statement under construction.
pub struct SelectBuilder {
    from: TableRef,
    projections: Vec<String>,
    relations: Vec<Relation>,
    predicates: Vec<Predicate>,
    having: Vec<Predicate>,
    group_by: Vec<String>,
    order_by: Vec<String>,
    pagination: Option<Pagination>,
}

/// The model of a [`SelectBuilder`].
pub struct SelectModel {
    pub from: TableRefModel,
    pub projections: Seq<Seq<char>>,
    pub relations: Seq<RelationModel>,
    pub predicates: Seq<PredicateModel>,
    pub having: Seq<PredicateModel>,
    pub group_by: Seq<Seq<char>>,
    pub order_by: Seq<Seq<char>>,
    pub pagination: Option<Pagination>,
}

pub open spec fn relations_model(items: Seq<Relation>) -> Seq<RelationModel> {
    items.map_values(|r: Relation| r@)
}

impl View for SelectBuilder {
    type V = SelectModel;

    closed spec fn view(&self) -> SelectModel {
        SelectModel {
            from: self.from@,
            projections: strings_view(self.projections@),
            relations: relations_model(self.relations@),
            predicates: predicates_model(self.predicates@),
            having: predicates_model(self.having@),
            group_by: strings_view(self.group_by@),
            order_by: strings_view(self.order_by@),
            pagination: self.pagination,
        }
    }
}

/// The text of a `SELECT` statement and the parameters it binds.
pub open spec fn select_text<D: SqlDialect>(d: D, m: SelectModel) -> (Seq<char>, Seq<ValueModel>) {
    let head = "SELECT "@ + (if m.projections.len() == 0 { "*"@ } else { join(m.projections, ", "@) })
        + " FROM "@ + table_ref_text(m.from);
    let relations = list_clause_text(" "@, m.relations.map_values(|r: RelationModel| relation_text(r)), " "@);
    let (wt, wv) = where_text(d, m.predicates, 0, " WHERE "@);
    let group = list_clause_text(" GROUP BY "@, m.group_by, ", "@);
    let (ht, hv) = where_text(d, m.having, wv.len(), " HAVING "@);
    let order = list_clause_text(" ORDER BY "@, m.order_by, ", "@);
    let base = head + relations + wt + group + ht + order;
    let sql = match m.pagination {
        Some(p) => d.paginate_text(base, p, m.order_by.len() > 0),
        None => base,
    };
    (sql, wv + hv)
}

impl SelectBuilder {
    pub fn new(from: TableRef) -> (r: SelectBuilder)
        ensures
            r@ == (SelectModel {
                from: from@,
                projections: Seq::empty(),
                relations: Seq::empty(),
                predicates: Seq::empty(),
                having: Seq::empty(),
                group_by: Seq::empty(),
                order_by: Seq::empty(),
                pagination: None,
            }),
    {
        let r = SelectBuilder {
            from,
            projections: Vec::new(),
            relations: Vec::new(),
            predicates: Vec::new(),
            having: Vec::new(),
            group_by: Vec::new(),
            order_by: Vec::new(),
            pagination: None,
        };
        proof {
            assert(r@.projections =~= Seq::<Seq<char>>::empty());
            assert(r@.relations =~= Seq::<RelationModel>::empty());
            assert(r@.predicates =~= Seq::<PredicateModel>::empty());
            assert(r@.having =~= Seq::<PredicateModel>::empty());
            assert(r@.group_by =~= Seq::<Seq<char>>::empty());
            assert(r@.order_by =~= Seq::<Seq<char>>::empty());
        }
        r
    }

    pub fn select(self, expression: &str) -> (r: SelectBuilder)
        ensures
            r@ == (SelectModel { projections: self@.projections.push(expression@), ..self@ }),
    {
        let mut b = self;
        b.projections.push(owned(expression));
        proof {
            assert(b@.projections =~= self@.projections.push(expression@));
        }
        b
    }

    pub fn select_as(self, expression: &str, alias: &str) -> (r: SelectBuilder)
        ensures
            r@ == (SelectModel { projections: self@.projections.push(expression@ + " AS "@ + alias@), ..self@ }),
    {
        let mut b = self;
        let mut p = owned(expression);
        p.append(" AS ");
        p.append(alias);
        b.projections.push(p);
        proof {
            assert(b@.projections =~= self@.projections.push(expression@ + " AS "@ + alias@));
        }
        b
    }

    pub fn relation(self, relation: Relation) -> (r: SelectBuilder)
        ensures
            r@ == (SelectModel { relations: self@.relations.push(relation@), ..self@ }),
    {
        let mut b = self;
        b.relations.push(relation);
        proof {
            assert(b@.relations =~= self@.relations.push(relation@));
        }
        b
    }

    pub fn predicate(self, predicate: Predicate) -> (r: SelectBuilder)
        ensures
            r@ == (SelectModel { predicates: self@.predicates.push(predicate@), ..self@ }),
    {
        let mut b = self;
        b.predicates.push(predicate);
        proof {
            assert(b@.predicates =~= self@.predicates.push(predicate@));
        }
        b
    }

    pub fn having(self, predicate: Predicate) -> (r: SelectBuilder)
        ensures
            r@ == (SelectModel { having: self@.having.push(predicate@), ..self@ }),
    {
        let mut b = self;
        b.having.push(predicate);
        proof {
            assert(b@.having =~= self@.having.push(predicate@));
        }
        b
    }

    pub fn group_by(self, expression: &str) -> (r: SelectBuilder)
        ensures
            r@ == (SelectModel { group_by: self@.group_by.push(expression@), ..self@ }),
    {
        let mut b = self;
        b.group_by.push(owned(expression));
        proof {
            assert(b@.group_by =~= self@.group_by.push(expression@));
        }
        b
    }

    pub fn order_by(self, expression: &str) -> (r: SelectBuilder)
        ensures
            r@ == (SelectModel { order_by: self@.order_by.push(expression@), ..self@ }),
    {
        let mut b = self;
        b.order_by.push(owned(expression));
        proof {
            assert(b@.order_by =~= self@.order_by.push(expression@));
        }
        b
    }

    pub fn paginate(self, pagination: Pagination) -> (r: SelectBuilder)
        ensures
            r@ == (SelectModel { pagination: Some(pagination), ..self@ }),
    {
        let mut b = self;
        b.pagination = Some(pagination);
        b
    }

    pub fn build<D: SqlDialect>(self, dialect: &D) -> (r: BuiltQuery)
        requires
            self@.pagination matches Some(p) ==> dialect.admits_page(p),
        ensures
            r.sql@ == select_text(*dialect, self@).0,
            values_model(r.params@) == select_text(*dialect, self@).1,
    {
        let ghost m = self@;
        let mut params: Vec<Value> = Vec::new();
        let mut sql = "SELECT ".to_owned();
        if self.projections.len() == 0 {
            sql.append("*");
        } else {
            let joined = join_strings(&self.projections, ", ");
            sql.append(joined.as_str());
        }
        sql.append(" FROM ");
        let from = self.from.render();
        sql.append(from.as_str());
        let mut rendered: Vec<String> = Vec::new();
        let k = self.relations.len();
        let mut i: usize = 0;
        while i < k
            invariant
                k == self.relations@.len(),
                i <= k,
                rendered@.len() == i,
                strings_view(rendered@) == relations_model(self.relations@).map_values(|r: RelationModel| relation_text(r)).take(i as int),
            decreases k - i,
        {
            let t = self.relations[i].render();
            let ghost before = rendered@;
            rendered.push(t);
            proof {
                assert(relations_model(self.relations@)[i as int] == self.relations@[i as int]@);
                assert forall|j: int| 0 <= j < i + 1 implies strings_view(rendered@)[j]
                    == relations_model(self.relations@).map_values(|r: RelationModel| relation_text(r)).take(i + 1)[j] by {
                    if j < i {
                        assert(rendered@[j] == before[j]);
                        assert(strings_view(before)[j] == relations_model(self.relations@).map_values(|r: RelationModel| relation_text(r)).take(i as int)[j]);
                    }
                }
                assert(strings_view(rendered@) =~= relations_model(self.relations@).map_values(|r: RelationModel| relation_text(r)).take(i + 1));
            }
            i = i + 1;
        }
        proof {
            assert(relations_model(self.relations@).map_values(|r: RelationModel| relation_text(r)).take(k as int)
                =~= relations_model(self.relations@).map_values(|r: RelationModel| relation_text(r)));
        }
        push_list_clause(&mut sql, " ", &rendered, " ");
        let w = render_where(&self.predicates, " WHERE ", dialect, &mut params);
        sql.append(w.as_str());
        push_list_clause(&mut sql, " GROUP BY ", &self.group_by, ", ");
        proof {
            assert(values_model(params@).len() == params@.len());
        }
        let h = render_where(&self.having, " HAVING ", dialect, &mut params);
        sql.append(h.as_str());
        push_list_clause(&mut sql, " ORDER BY ", &self.order_by, ", ");
        let has_order_by = self.order_by.len() > 0;
        let sql = match self.pagination {
            Some(p) => dialect.paginate(sql, &p, has_order_by),
            None => sql,
        };
        proof {
            assert(values_model(Seq::<Value>::empty()) =~= Seq::<ValueModel>::empty());
        }
        BuiltQuery { sql, params }
    }
}

/// The texts `column = value` of assignments.
pub open spec fn set_texts(columns: Seq<Seq<char>>, values: Seq<Seq<char>>) -> Seq<Seq<char>> {
    Seq::new(columns.len(), |i: int| columns[i] + " = "@ + values[i])
}

/// The columns of assignments.
pub open spec fn assignment_columns(a: Seq<(Seq<char>, SqlValueModel)>) -> Seq<Seq<char>> {
    a.map_values(|x: (Seq<char>, SqlValueModel)| x.0)
}

proof fn lemma_sql_values_len<D: SqlDialect>(d: D, items: Seq<(Seq<char>, SqlValueModel)>, n: nat, k: int)
    requires
        0 <= k <= items.len(),
    ensures
        sql_values_text(d, items, n, k).0.len() == k,
    decreases k,
{
    if k > 0 {
        lemma_sql_values_len(d, items, n, k - 1);
    }
}

/// The values that assignments bind: their parameters, in order.
pub open spec fn bound_values(items: Seq<(Seq<char>, SqlValueModel)>) -> Seq<ValueModel>
    decreases items.len(),
{
    if items.len() == 0 {
        Seq::empty()
    } else {
        let before = bound_values(items.drop_last());
        match items.last().1 {
            SqlValueModel::Param(p) => before.push(p),
            SqlValueModel::Raw(_) => before,
        }
    }
}

/// The text an assigned value is written as, parameters numbered on from `n`: a
/// parameter is the placeholder numbered one past the parameters bound before it, raw SQL
/// is itself.
pub open spec fn assigned_value_text<D: SqlDialect>(d: D, items: Seq<(Seq<char>, SqlValueModel)>, n: nat, i: int) -> Seq<char> {
    match items[i].1 {
        SqlValueModel::Param(_) => d.placeholder_text(n + bound_values(items.take(i)).len() + 1),
        SqlValueModel::Raw(s) => s,
    }
}

proof fn lemma_values_in_order<D: SqlDialect>(d: D, items: Seq<(Seq<char>, SqlValueModel)>, n: nat, k: int)
    requires
        0 <= k <= items.len(),
    ensures
        sql_values_text(d, items, n, k).1 == bound_values(items.take(k)),
        sql_values_text(d, items, n, k).0.len() == k,
        forall|i: int| 0 <= i < k ==> #[trigger] sql_values_text(d, items, n, k).0[i] == assigned_value_text(d, items, n, i),
    decreases k,
{
    if k == 0 {
        assert(items.take(0) =~= Seq::<(Seq<char>, SqlValueModel)>::empty());
    } else {
        lemma_values_in_order(d, items, n, k - 1);
        assert(items.take(k).drop_last() =~= items.take(k - 1));
        assert(items.take(k).last() == items[k - 1]);
        let (t, v) = sql_values_text(d, items, n, k - 1);
        assert forall|i: int| 0 <= i < k implies #[trigger] sql_values_text(d, items, n, k).0[i] == assigned_value_text(d, items, n, i) by {
            if i < k - 1 {
                assert(sql_values_text(d, items, n, k).0[i] == t[i]);
            }
        }
    }
}

/// Assigned values bind exactly their parameters, in column order, and each parameter is
/// written as the placeholder numbered one past the parameters bound before it, whatever
/// the dialect: MySQL's `?`, PostgreSQL's `$1`, `$2`, Oracle's `:1`, `:2`.
pub proof fn assigned_values_bind_in_column_order<D: SqlDialect>(d: D, items: Seq<(Seq<char>, SqlValueModel)>, n: nat)
    ensures
        sql_values_text(d, items, n, items.len() as int).1 == bound_values(items),
        sql_values_text(d, items, n, items.len() as int).0.len() == items.len(),
        forall|i: int|
            0 <= i < items.len() ==> #[trigger] sql_values_text(d, items, n, items.len() as int).0[i]
                == assigned_value_text(d, items, n, i),
{
    lemma_values_in_order(d, items, n, items.len() as int);
    assert(items.take(items.len() as int) =~= items);
}

/// An `INSERT` statement under construction.
pub struct InsertBuilder {
    table: String,
    assignments: Vec<(String, SqlValue)>,
}

/// The model of an [`InsertBuilder`].
pub struct InsertModel {
    pub table: Seq<char>,
    pub assignments: Seq<(Seq<char>, SqlValueModel)>,
}

impl View for InsertBuilder {
    type V = InsertModel;

    closed spec fn view(&self) -> InsertModel {
        InsertModel { table: self.table@, assignments: assignments_model(self.assignments@) }
    }
}

/// The text of an `INSERT` statement and the parameters it binds.
pub open spec fn insert_text<D: SqlDialect>(d: D, m: InsertModel) -> (Seq<char>, Seq<ValueModel>) {
    let (values, params) = sql_values_text(d, m.assignments, 0, m.assignments.len() as int);
    (
        "INSERT INTO "@ + m.table + " ("@ + join(assignment_columns(m.assignments), ", "@)
            + ") VALUES ("@ + join(values, ", "@) + ")"@,
        params,
    )
}

impl InsertBuilder {
    pub fn new(table: &str) -> (r: InsertBuilder)
        ensures
            r@ == (InsertModel { table: table@, assignments: Seq::empty() }),
    {
        let r = InsertBuilder { table: owned(table), assignments: Vec::new() };
        proof {
            assert(r@.assignments =~= Seq::<(Seq<char>, SqlValueModel)>::empty());
        }
        r
    }

    pub fn value(self, column: &str, value: Value) -> (r: InsertBuilder)
        ensures
            r@ == (InsertModel {
                assignments: self@.assignments.push((column@, SqlValueModel::Param(value@))),
                ..self@
            }),
    {
        let mut b = self;
        b.assignments.push((owned(column), SqlValue::Param(value)));
        proof {
            assert(b@.assignments =~= self@.assignments.push((column@, SqlValueModel::Param(value@))));
        }
        b
    }

    pub fn raw_value(self, column: &str, sql: &str) -> (r: InsertBuilder)
        ensures
            r@ == (InsertModel {
                assignments: self@.assignments.push((column@, SqlValueModel::Raw(sql@))),
                ..self@
            }),
    {
        let mut b = self;
        b.assignments.push((owned(column), SqlValue::Raw(owned(sql))));
        proof {
            assert(b@.assignments =~= self@.assignments.push((column@, SqlValueModel::Raw(sql@))));
        }
        b
    }

    pub fn build<D: SqlDialect>(self, dialect: &D) -> (r: BuiltQuery)
        ensures
            r.sql@ == insert_text(*dialect, self@).0,
            values_model(r.params@) == insert_text(*dialect, self@).1,
    {
        let ghost m = self@;
        let mut params: Vec<Value> = Vec::new();
        let ghost items = self.assignments@;
        let (columns, values) = render_values(self.assignments, dialect, &mut params);
        proof {
            assert(items.map_values(|a: (String, SqlValue)| a.0@) =~= assignment_columns(m.assignments));
            assert(values_model(Seq::<Value>::empty()) =~= Seq::<ValueModel>::empty());
        }
        let mut sql = "INSERT INTO ".to_owned();
        sql.append(self.table.as_str());
        sql.append(" (");
        let c = join_strings(&columns, ", ");
        sql.append(c.as_str());
        sql.append(") VALUES (");
        let v = join_strings(&values, ", ");
        sql.append(v.as_str());
        sql.append(")");
        BuiltQuery { sql, params }
    }
}

/// Renders `column = value` for each assignment.
fn render_sets(columns: Vec<String>, values: Vec<String>) -> (r: Vec<String>)
    requires
        columns@.len() == values@.len(),
    ensures
        strings_view(r@) == set_texts(strings_view(columns@), strings_view(values@)),
{
    let mut out: Vec<String> = Vec::new();
    let n = columns.len();
    let mut i: usize = 0;
    while i < n
        invariant
            n == columns@.len(),
            n == values@.len(),
            i <= n,
            out@.len() == i,
            forall|j: int| 0 <= j < i ==> #[trigger] out@[j]@ == columns@[j]@ + " = "@ + values@[j]@,
        decreases n - i,
    {
        let mut t = columns[i].clone();
        t.append(" = ");
        t.append(values[i].as_str());
        out.push(t);
        i = i + 1;
    }
    proof {
        assert(strings_view(out@) =~= set_texts(strings_view(columns@), strings_view(values@)));
    }
    out
}

/// An `UPDATE` statement under construction.
pub struct UpdateBuilder {
    table: String,
    assignments: Vec<(String, SqlValue)>,
    predicates: Vec<Predicate>,
}

/// The model of an [`UpdateBuilder`].
pub struct UpdateModel {
    pub table: Seq<char>,
    pub assignments: Seq<(Seq<char>, SqlValueModel)>,
    pub predicates: Seq<PredicateModel>,
}

impl View for UpdateBuilder {
    type V = UpdateModel;

    closed spec fn view(&self) -> UpdateModel {
        UpdateModel {
            table: self.table@,
            assignments: assignments_model(self.assignments@),
            predicates: predicates_model(self.predicates@),
        }
    }
}

/// The text of an `UPDATE` statement and the parameters it binds.
pub open spec fn update_text<D: SqlDialect>(d: D, m: UpdateModel) -> (Seq<char>, Seq<ValueModel>) {
    let (values, params) = sql_values_text(d, m.assignments, 0, m.assignments.len() as int);
    let (wt, wv) = where_text(d, m.predicates, params.len(), " WHERE "@);
    (
        "UPDATE "@ + m.table + " SET "@ + join(set_texts(assignment_columns(m.assignments), values), ", "@) + wt,
        params + wv,
    )
}

impl UpdateBuilder {
    pub fn new(table: &str) -> (r: UpdateBuilder)
        ensures
            r@ == (UpdateModel { table: table@, assignments: Seq::empty(), predicates: Seq::empty() }),
    {
        let r = UpdateBuilder { table: owned(table), assignments: Vec::new(), predicates: Vec::new() };
        proof {
            assert(r@.assignments =~= Seq::<(Seq<char>, SqlValueModel)>::empty());
            assert(r@.predicates =~= Seq::<PredicateModel>::empty());
        }
        r
    }

    pub fn set(self, column: &str, value: Value) -> (r: UpdateBuilder)
        ensures
            r@ == (UpdateModel {
                assignments: self@.assignments.push((column@, SqlValueModel::Param(value@))),
                ..self@
            }),
    {
        let mut b = self;
        b.assignments.push((owned(column), SqlValue::Param(value)));
        proof {
            assert(b@.assignments =~= self@.assignments.push((column@, SqlValueModel::Param(value@))));
        }
        b
    }

    pub fn set_raw(self, column: &str, sql: &str) -> (r: UpdateBuilder)
        ensures
            r@ == (UpdateModel {
                assignments: self@.assignments.push((column@, SqlValueModel::Raw(sql@))),
                ..self@
            }),
    {
        let mut b = self;
        b.assignments.push((owned(column), SqlValue::Raw(owned(sql))));
        proof {
            assert(b@.assignments =~= self@.assignments.push((column@, SqlValueModel::Raw(sql@))));
        }
        b
    }

    pub fn predicate(self, predicate: Predicate) -> (r: UpdateBuilder)
        ensures
            r@ == (UpdateModel { predicates: self@.predicates.push(predicate@), ..self@ }),
    {
        let mut b = self;
        b.predicates.push(predicate);
        proof {
            assert(b@.predicates =~= self@.predicates.push(predicate@));
        }
        b
    }

    pub fn build<D: SqlDialect>(self, dialect: &D) -> (r: BuiltQuery)
        ensures
            r.sql@ == update_text(*dialect, self@).0,
            values_model(r.params@) == update_text(*dialect, self@).1,
    {
        let ghost m = self@;
        let mut params: Vec<Value> = Vec::new();
        let ghost items = self.assignments@;
        let (columns, values) = render_values(self.assignments, dialect, &mut params);
        proof {
            assert(items.map_values(|a: (String, SqlValue)| a.0@) =~= assignment_columns(m.assignments));
            assert(values_model(Seq::<Value>::empty()) =~= Seq::<ValueModel>::empty());
            lemma_sql_values_len(*dialect, m.assignments, 0, m.assignments.len() as int);
            assert(values_model(params@).len() == params@.len());
        }
        let sets = render_sets(columns, values);
        let mut sql = "UPDATE ".to_owned();
        sql.append(self.table.as_str());
        sql.append(" SET ");
        let joined = join_strings(&sets, ", ");
        sql.append(joined.as_str());
        let w = render_where(&self.predicates, " WHERE ", dialect, &mut params);
        sql.append(w.as_str());
        BuiltQuery { sql, params }
    }
}

/// A `DELETE` statement under construction.
pub struct DeleteBuilder {
    table: String,
    predicates: Vec<Predicate>,
}

/// The model of a [`DeleteBuilder`].
pub struct DeleteModel {
    pub table: Seq<char>,
    pub predicates: Seq<PredicateModel>,
}

impl View for DeleteBuilder {
    type V = DeleteModel;

    closed spec fn view(&self) -> DeleteModel {
        DeleteModel { table: self.table@, predicates: predicates_model(self.predicates@) }
    }
}

/// The text of a `DELETE` statement and the parameters it binds.
pub open spec fn delete_text<D: SqlDialect>(d: D, m: DeleteModel) -> (Seq<char>, Seq<ValueModel>) {
    let (wt, wv) = where_text(d, m.predicates, 0, " WHERE "@);
    ("DELETE FROM "@ + m.table + wt, wv)
}

impl DeleteBuilder {
    pub fn new(table: &str) -> (r: DeleteBuilder)
        ensures
            r@ == (DeleteModel { table: table@, predicates: Seq::empty() }),
    {
        let r = DeleteBuilder { table: owned(table), predicates: Vec::new() };
        proof {
            assert(r@.predicates =~= Seq::<PredicateModel>::empty());
        }
        r
    }

    pub fn predicate(self, predicate: Predicate) -> (r: DeleteBuilder)
        ensures
            r@ == (DeleteModel { predicates: self@.predicates.push(predicate@), ..self@ }),
    {
        let mut b = self;
        b.predicates.push(predicate);
        proof {
            assert(b@.predicates =~= self@.predicates.push(predicate@));
        }
        b
    }

    pub fn build<D: SqlDialect>(self, dialect: &D) -> (r: BuiltQuery)
        ensures
            r.sql@ == delete_text(*dialect, self@).0,
            values_model(r.params@) == delete_text(*dialect, self@).1,
    {
        let mut params: Vec<Value> = Vec::new();
        let mut sql = "DELETE FROM ".to_owned();
        sql.append(self.table.as_str());
        let w = render_where(&self.predicates, " WHERE ", dialect, &mut params);
        sql.append(w.as_str());
        proof {
            assert(values_model(Seq::<Value>::empty()) =~= Seq::<ValueModel>::empty());
        }
        BuiltQuery { sql, params }
    }
}


proof fn lemma_where_binds_same_values<D1: SqlDialect, D2: SqlDialect>(
    d1: D1,
    d2: D2,
    predicates: Seq<PredicateModel>,
    n1: nat,
    n2: nat,
    keyword: Seq<char>,
)
    ensures
        where_text(d1, predicates, n1, keyword).1 == where_text(d2, predicates, n2, keyword).1,
{
    if predicates.len() > 0 {
        predicates_bind_same_values(d1, d2, predicates, n1, n2, " AND "@, predicates.len() as int);
    }
}

/// A select binds the same values, in the same order, whatever the dialect: the values of
/// its `WHERE` conditions, then those of its `HAVING` conditions.
pub proof fn select_binds_same_values<D1: SqlDialect, D2: SqlDialect>(d1: D1, d2: D2, m: SelectModel)
    ensures
        select_text(d1, m).1 == select_text(d2, m).1,
{
    let (wt1, wv1) = where_text(d1, m.predicates, 0, " WHERE "@);
    let (wt2, wv2) = where_text(d2, m.predicates, 0, " WHERE "@);
    lemma_where_binds_same_values(d1, d2, m.predicates, 0, 0, " WHERE "@);
    lemma_where_binds_same_values(d1, d2, m.having, wv1.len(), wv2.len(), " HAVING "@);
}

/// An insert binds the same values, in the same order, whatever the dialect: its
/// parameters, in column order.
pub proof fn insert_binds_same_values<D1: SqlDialect, D2: SqlDialect>(d1: D1, d2: D2, m: InsertModel)
    ensures
        insert_text(d1, m).1 == insert_text(d2, m).1,
        insert_text(d1, m).1 == bound_values(m.assignments),
{
    assigned_values_bind_in_column_order(d1, m.assignments, 0);
    assigned_values_bind_in_column_order(d2, m.assignments, 0);
}

/// An update binds the same values, in the same order, whatever the dialect: its
/// parameters in column order, then those of its conditions.
pub proof fn update_binds_same_values<D1: SqlDialect, D2: SqlDialect>(d1: D1, d2: D2, m: UpdateModel)
    ensures
        update_text(d1, m).1 == update_text(d2, m).1,
{
    assigned_values_bind_in_column_order(d1, m.assignments, 0);
    assigned_values_bind_in_column_order(d2, m.assignments, 0);
    let v = bound_values(m.assignments);
    lemma_where_binds_same_values(d1, d2, m.predicates, v.len(), v.len(), " WHERE "@);
}

/// A delete binds the same values, in the same order, whatever the dialect.
pub proof fn delete_binds_same_values<D1: SqlDialect, D2: SqlDialect>(d1: D1, d2: D2, m: DeleteModel)
    ensures
        delete_text(d1, m).1 == delete_text(d2, m).1,
{
    lemma_where_binds_same_values(d1, d2, m.predicates, 0, 0, " WHERE "@);
}

} // verus!
