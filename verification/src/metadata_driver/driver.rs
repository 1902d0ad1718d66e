//! The metadata SQL driver: which builder a request describes, and its SQL.

use vstd::prelude::*;

use super::context::{build_link_context, link_alias, link_context_of, link_has_steps, links_have_steps, lemma_link_has_alias, LinkContext, LinkState};
use super::filters::{value_predicates, value_predicates_of};
use super::helpers::{assignment_sql, assignment_value, number_overflows, number_overflows_of};
use crate::engine::builders::{
    delete_binds_same_values, insert_binds_same_values, select_binds_same_values, update_binds_same_values,
    delete_text, insert_text, select_text, sql_value_view, update_text, DeleteBuilder, DeleteModel,
    InsertBuilder, InsertModel, SelectBuilder, SelectModel, SqlValue, SqlValueModel, UpdateBuilder,
    UpdateModel,
};
use crate::engine::dialect::SqlDialect;
use crate::engine::query::{predicates_model, BuiltQuery, Predicate, PredicateModel, TableRef, TableRefModel};
use crate::engine::MetaSqlEngine;
use crate::metadata::field::{field_output_name, field_source_column, FieldModel, FieldSourceModel};
use crate::metadata::filters::{lemma_filter_group_view, filter_exprs_model, FilterExprModel, FilterModel};
use crate::metadata::query::RequestModel;
use crate::metadata::{FieldInputKind, FieldSource, MetadataFilter, MetadataFilterExpr, MetadataQueryRequest, SortDirection};
use crate::metadata_plan::permission::field_allowed;
use crate::metadata_plan::query::{main_table_name, request_table};
use crate::portal_provider::helpers::{push_unique, with_unique};
use crate::sql::StatementType;
use crate::text::{copy_string, int_text, i64_text, owned, str_eq, strings_view};
use crate::value::{Value, ValueModel, values_model, duplicate_values};

verus! {

/// The alias of the main table: the first field's current table.
pub open spec fn main_alias_of(r: RequestModel) -> Seq<char> {
    r.fields[0].current_table
}

/// The main table of a select: the real table aliased by the current table when there
/// is a real table, else the current table alone.
pub open spec fn main_ref_of(r: RequestModel) -> TableRefModel {
    match r.fields[0].real_table {
        Some(_) => TableRefModel { name: request_table(r), alias: Some(main_alias_of(r)) },
        None => TableRefModel { name: request_table(r), alias: None },
    }
}

/// The expression a field is filtered, grouped and sorted by.
pub open spec fn field_target(f: FieldModel, st: LinkState) -> Seq<char> {
    match f.source {
        FieldSourceModel::Column(c) => f.current_table + "."@ + c,
        FieldSourceModel::Qualified(e) => e,
        FieldSourceModel::Formula(e) => e,
        FieldSourceModel::Linked(l) => link_alias(st, l) + "."@ + l.target_column,
    }
}

/// Whether a field answers to `name`: by alias, output name or column.
pub open spec fn field_named(f: FieldModel, name: Seq<char>) -> bool {
    f.output_alias == Some(name) || field_output_name(f) == name || field_source_column(f) == Some(name)
}

/// The first field from position `i` on that answers to `name`.
pub open spec fn first_named(fields: Seq<FieldModel>, name: Seq<char>, i: int) -> Option<int>
    decreases fields.len() - i,
{
    if i < 0 || i >= fields.len() {
        None
    } else if field_named(fields[i], name) {
        Some(i)
    } else {
        first_named(fields, name, i + 1)
    }
}

/// What a filter naming `name` applies to: the target of the first field answering to
/// it, else the name itself.
pub open spec fn named_target(r: RequestModel, st: LinkState, name: Seq<char>) -> Seq<char> {
    match first_named(r.fields, name, 0) {
        Some(i) => field_target(r.fields[i], st),
        None => name,
    }
}

/// The predicate of a filter expression: a field condition applies to its named target;
/// the other forms carry over.
pub open spec fn filter_predicate(e: FilterExprModel, r: RequestModel, st: LinkState) -> PredicateModel
    decreases e, 0int,
{
    match e {
        FilterExprModel::Field { field, filter } => {
            let t = named_target(r, st, field);
            match filter {
                FilterModel::Eq(v) => PredicateModel::Eq { field: t, value: v },
                FilterModel::Ne(v) => PredicateModel::Ne { field: t, value: v },
                FilterModel::Gt(v) => PredicateModel::Gt { field: t, value: v },
                FilterModel::Gte(v) => PredicateModel::Gte { field: t, value: v },
                FilterModel::Lt(v) => PredicateModel::Lt { field: t, value: v },
                FilterModel::Lte(v) => PredicateModel::Lte { field: t, value: v },
                FilterModel::Like(s) => PredicateModel::Like { field: t, value: ValueModel::Text(s) },
                FilterModel::In(vs) => PredicateModel::In { field: t, values: vs },
                FilterModel::Between { lower, upper } => PredicateModel::Between { field: t, lower, upper },
                FilterModel::IsNull => PredicateModel::IsNull { field: t },
                FilterModel::IsNotNull => PredicateModel::IsNotNull { field: t },
            }
        },
        FilterExprModel::Exists { sql, params } => PredicateModel::Exists { sql, params },
        FilterExprModel::Custom { sql, params } => PredicateModel::Custom { sql, params },
        FilterExprModel::Raw(s) => PredicateModel::Raw(s),
        FilterExprModel::And(items) => PredicateModel::And(filter_predicates(items, r, st, items.len() as int)),
        FilterExprModel::Or(items) => PredicateModel::Or(filter_predicates(items, r, st, items.len() as int)),
        FilterExprModel::Not(inner) => PredicateModel::Not(Box::new(filter_predicate(*inner, r, st))),
    }
}

/// The predicates of the first `n` filter expressions.
pub open spec fn filter_predicates(items: Seq<FilterExprModel>, r: RequestModel, st: LinkState, n: int) -> Seq<PredicateModel>
    decreases items, n,
{
    if n <= 0 || n > items.len() {
        Seq::empty()
    } else {
        filter_predicates(items, r, st, n - 1).push(filter_predicate(items[n - 1], r, st))
    }
}

/// The select expressions of a field.
pub open spec fn projections_of(f: FieldModel, st: LinkState) -> Seq<Seq<char>> {
    let out = field_output_name(f);
    match f.source {
        FieldSourceModel::Column(c) => match f.lookup {
            Some(l) => seq![
                f.current_table + "."@ + c + " AS \""@ + out + "\""@,
                "(select "@ + l.display_column + " as dk from "@ + l.table + " x where id = "@
                    + f.current_table + "."@ + c + ") as \""@ + out + ".dk\""@,
            ],
            None => seq![f.current_table + "."@ + c + " AS \""@ + out + "\""@],
        },
        FieldSourceModel::Qualified(e) => seq![e + " AS \""@ + out + "\""@],
        FieldSourceModel::Formula(e) => seq![e + " AS \""@ + out + "\""@],
        FieldSourceModel::Linked(l) => seq![link_alias(st, l) + "."@ + l.target_column + " AS \""@ + out + "\""@],
    }
}

/// The select expressions of the granted fields among the first `n`.
pub open spec fn projections_upto(fields: Seq<FieldModel>, k: usize, st: LinkState, n: int) -> Seq<Seq<char>>
    decreases n,
{
    if n <= 0 || n > fields.len() {
        Seq::empty()
    } else {
        projections_upto(fields, k, st, n - 1)
            + (if field_allowed(fields[n - 1], k) { projections_of(fields[n - 1], st) } else { Seq::empty() })
    }
}

/// The predicates of the values of the first `n` fields.
pub open spec fn value_predicates_upto(fields: Seq<FieldModel>, st: LinkState, n: int) -> Seq<PredicateModel>
    decreases n,
{
    if n <= 0 || n > fields.len() {
        Seq::empty()
    } else {
        value_predicates_upto(fields, st, n - 1) + match fields[n - 1].value {
            Some(v) => value_predicates_of(field_target(fields[n - 1], st), v),
            None => Seq::empty(),
        }
    }
}

/// The dimensions of a grouped select among the first `n` fields: the target of each
/// granted field that is not a formula, once each.
pub open spec fn group_exprs_upto(fields: Seq<FieldModel>, k: usize, st: LinkState, n: int) -> Seq<Seq<char>>
    decreases n,
{
    if n <= 0 || n > fields.len() {
        Seq::empty()
    } else {
        let prev = group_exprs_upto(fields, k, st, n - 1);
        let f = fields[n - 1];
        if field_allowed(f, k) && !(f.source is Formula) { with_unique(prev, field_target(f, st)) } else { prev }
    }
}

/// The word of a sort direction.
pub open spec fn direction_text(d: SortDirection) -> Seq<char> {
    match d {
        SortDirection::Asc => "asc"@,
        SortDirection::Desc => "desc"@,
    }
}

/// The sorts of the first `n` fields: `target dir nulls first` for each field with a sort.
pub open spec fn order_exprs_upto(fields: Seq<FieldModel>, st: LinkState, n: int) -> Seq<Seq<char>>
    decreases n,
{
    if n <= 0 || n > fields.len() {
        Seq::empty()
    } else {
        order_exprs_upto(fields, st, n - 1) + match fields[n - 1].sort {
            Some(d) => seq![field_target(fields[n - 1], st) + " "@ + direction_text(d) + " nulls first"@],
            None => Seq::empty(),
        }
    }
}

/// Each sorted field adds one sort after those of the fields before it: its target, then
/// `asc nulls first` when ascending and `desc nulls first` when descending, so the two
/// directions of one field give different sorts.
pub proof fn sorts_follow_their_direction(fields: Seq<FieldModel>, st: LinkState, n: int)
    requires
        0 < n <= fields.len(),
    ensures
        fields[n - 1].sort == Some(SortDirection::Asc) ==> order_exprs_upto(fields, st, n)
            =~= order_exprs_upto(fields, st, n - 1).push(field_target(fields[n - 1], st) + " asc nulls first"@),
        fields[n - 1].sort == Some(SortDirection::Desc) ==> order_exprs_upto(fields, st, n)
            =~= order_exprs_upto(fields, st, n - 1).push(field_target(fields[n - 1], st) + " desc nulls first"@),
        fields[n - 1].sort is None ==> order_exprs_upto(fields, st, n) == order_exprs_upto(fields, st, n - 1),
        order_exprs_upto(fields.update(n - 1, FieldModel { sort: Some(SortDirection::Asc), ..fields[n - 1] }), st, n)
            != order_exprs_upto(fields.update(n - 1, FieldModel { sort: Some(SortDirection::Desc), ..fields[n - 1] }), st, n),
{
    reveal_strlit(" ");
    reveal_strlit("asc");
    reveal_strlit("desc");
    reveal_strlit(" nulls first");
    reveal_strlit(" asc nulls first");
    reveal_strlit(" desc nulls first");
    let t = field_target(fields[n - 1], st);
    assert(t + " "@ + "asc"@ + " nulls first"@ =~= t + " asc nulls first"@);
    assert(t + " "@ + "desc"@ + " nulls first"@ =~= t + " desc nulls first"@);
    let fa = fields.update(n - 1, FieldModel { sort: Some(SortDirection::Asc), ..fields[n - 1] });
    let fd = fields.update(n - 1, FieldModel { sort: Some(SortDirection::Desc), ..fields[n - 1] });
    assert(fa.take(n - 1) =~= fd.take(n - 1));
    lemma_order_exprs_prefix(fa, fd, st, n - 1);
    let ta = field_target(fa[n - 1], st);
    let td = field_target(fd[n - 1], st);
    assert(ta == td);
    let a = order_exprs_upto(fa, st, n);
    let d = order_exprs_upto(fd, st, n);
    assert(ta + " "@ + "asc"@ + " nulls first"@ =~= ta + " asc nulls first"@);
    assert(td + " "@ + "desc"@ + " nulls first"@ =~= td + " desc nulls first"@);
    assert(a.last().len() != d.last().len());
}

proof fn lemma_order_exprs_prefix(f: Seq<FieldModel>, g: Seq<FieldModel>, st: LinkState, n: int)
    requires
        0 <= n <= f.len(),
        n <= g.len(),
        forall|i: int| 0 <= i < n ==> f[i] == g[i],
    ensures
        order_exprs_upto(f, st, n) == order_exprs_upto(g, st, n),
    decreases n,
{
    if n > 0 {
        lemma_order_exprs_prefix(f, g, st, n - 1);
    }
}

/// The row filter as a raw predicate, when it is set and not empty.
pub open spec fn table_filter_predicates(r: RequestModel) -> Seq<PredicateModel> {
    match r.options.table_filter {
        Some(t) => if t.len() > 0 { seq![PredicateModel::Raw(t)] } else { Seq::empty() },
        None => Seq::empty(),
    }
}

/// `field = id` when the request names a row.
pub open spec fn id_predicates(r: RequestModel, field: Seq<char>) -> Seq<PredicateModel> {
    match r.options.id {
        Some(id) => seq![PredicateModel::Eq { field, value: ValueModel::Number(int_text(id as int)) }],
        None => Seq::empty(),
    }
}

/// The context of a request's links.
pub open spec fn request_links(r: RequestModel) -> LinkState {
    link_context_of(r.fields, main_alias_of(r))
}

/// The `WHERE` predicates of a select: the row filter, the request's filters, the
/// fields' values, and the row id.
pub open spec fn select_predicates_of(r: RequestModel) -> Seq<PredicateModel> {
    let st = request_links(r);
    table_filter_predicates(r) + filter_predicates(r.filters, r, st, r.filters.len() as int)
        + value_predicates_upto(r.fields, st, r.fields.len() as int)
        + id_predicates(r, main_alias_of(r) + ".id"@)
}

/// The select builder a request describes.
pub open spec fn select_builder_of(r: RequestModel) -> SelectModel {
    let st = request_links(r);
    let k = r.options.mask_index;
    let groups = group_exprs_upto(r.fields, k, st, r.fields.len() as int);
    SelectModel {
        from: main_ref_of(r),
        projections: (if !r.options.grouped { seq![main_alias_of(r) + ".id AS \"id\""@] } else { Seq::empty() })
            + projections_upto(r.fields, k, st, r.fields.len() as int),
        relations: st.relations,
        predicates: select_predicates_of(r),
        having: filter_predicates(r.having, r, st, r.having.len() as int),
        group_by: if r.options.grouped { groups } else { Seq::empty() },
        order_by: if r.options.grouped { groups } else { order_exprs_upto(r.fields, st, r.fields.len() as int) },
        pagination: None,
    }
}

/// Whether a column is `id`, ignoring ASCII case.
pub open spec fn is_id_column(c: Seq<char>) -> bool {
    c.len() == 2 && (c[0] == 'i' || c[0] == 'I') && (c[1] == 'd' || c[1] == 'D')
}

/// Whether an insert writes a field: a plain column that is granted, or that is required
/// (not nullable, not `id`, not filled by a trigger).
pub open spec fn insertable(f: FieldModel, k: usize) -> bool {
    let background = !f.nullable && (match field_source_column(f) {
        Some(c) => !is_id_column(c),
        None => false,
    }) && f.input_kind != FieldInputKind::Trigger;
    (field_allowed(f, k) || background) && f.source is Column
}

/// A field's value, else its default, else null.
pub open spec fn value_or_default(f: FieldModel) -> ValueModel {
    match f.value {
        Some(v) => v,
        None => match f.default_value {
            Some(d) => d,
            None => ValueModel::Null,
        },
    }
}

/// What an insert writes for a field: the next number of its sequence (when it has one)
/// for a sequence field, else its value as [`assignment_value`] says.
pub open spec fn insert_values_of(f: FieldModel, client_id: i64) -> Seq<(Seq<char>, SqlValueModel)> {
    let c = match f.source {
        FieldSourceModel::Column(c) => c,
        _ => Seq::empty(),
    };
    if f.input_kind == FieldInputKind::Sequence {
        match f.sequence_name {
            Some(s) => seq![(c, SqlValueModel::Raw("get_sequenceno('"@ + s + "', "@ + int_text(client_id as int) + ")"@))],
            None => Seq::empty(),
        }
    } else {
        seq![(c, assignment_value(f, value_or_default(f)))]
    }
}

/// The insert assignments of the first `n` fields.
pub open spec fn insert_upto(fields: Seq<FieldModel>, k: usize, client_id: i64, n: int) -> Seq<(Seq<char>, SqlValueModel)>
    decreases n,
{
    if n <= 0 || n > fields.len() {
        Seq::empty()
    } else {
        insert_upto(fields, k, client_id, n - 1)
            + (if insertable(fields[n - 1], k) { insert_values_of(fields[n - 1], client_id) } else { Seq::empty() })
    }
}

/// A number parameter.
pub open spec fn number_param(n: i64) -> SqlValueModel {
    SqlValueModel::Param(ValueModel::Number(int_text(n as int)))
}

/// The insert builder a request describes: the row id, client, organisation, owner and
/// modifier, the creation and modification dates, then the written fields.
pub open spec fn insert_builder_of(r: RequestModel) -> InsertModel {
    let id = match r.options.id { Some(id) => id, None => 0 };
    InsertModel {
        table: request_table(r),
        assignments: seq![
            ("id"@, number_param(id)),
            ("ad_client_id"@, number_param(r.options.client_id)),
            ("ad_org_id"@, number_param(r.options.org_id)),
            ("ownerid"@, number_param(r.user_id)),
            ("modifiered"@, number_param(r.user_id)),
            ("creationdate"@, SqlValueModel::Raw("sysdate"@)),
            ("modifieddate"@, SqlValueModel::Raw("sysdate"@)),
        ] + insert_upto(r.fields, r.options.mask_index, r.options.client_id, r.fields.len() as int),
    }
}

/// Whether an update writes a field: a granted plain column with a value.
pub open spec fn updatable(f: FieldModel, k: usize) -> bool {
    field_allowed(f, k) && f.value is Some && f.source is Column
}

/// The update assignments of the first `n` fields.
pub open spec fn update_upto(fields: Seq<FieldModel>, k: usize, n: int) -> Seq<(Seq<char>, SqlValueModel)>
    decreases n,
{
    if n <= 0 || n > fields.len() {
        Seq::empty()
    } else {
        let f = fields[n - 1];
        update_upto(fields, k, n - 1) + (if updatable(f, k) {
            seq![(
                match f.source {
                    FieldSourceModel::Column(c) => c,
                    _ => Seq::empty(),
                },
                assignment_value(f, match f.value { Some(v) => v, None => ValueModel::Null }),
            )]
        } else {
            Seq::empty()
        })
    }
}

/// The update builder a request describes: the modifier and modification date, the
/// written fields, the row filter and the row id.
pub open spec fn update_builder_of(r: RequestModel) -> UpdateModel {
    UpdateModel {
        table: request_table(r),
        assignments: seq![("modifierid"@, number_param(r.user_id)), ("modifieddate"@, SqlValueModel::Raw("sysdate"@))]
            + update_upto(r.fields, r.options.mask_index, r.fields.len() as int),
        predicates: table_filter_predicates(r) + id_predicates(r, "id"@),
    }
}

/// The delete builder a request describes: the row filter and the row id.
pub open spec fn delete_builder_of(r: RequestModel) -> DeleteModel {
    DeleteModel { table: request_table(r), predicates: table_filter_predicates(r) + id_predicates(r, "id"@) }
}

/// The SQL and parameters of a request.
pub open spec fn driver_query<D: SqlDialect>(d: D, r: RequestModel) -> (Seq<char>, Seq<ValueModel>) {
    match r.statement_type {
        StatementType::SELECT => select_text(d, select_builder_of(r)),
        StatementType::INSERT => insert_text(d, insert_builder_of(r)),
        StatementType::UPDATE => update_text(d, update_builder_of(r)),
        StatementType::DELETE => delete_text(d, delete_builder_of(r)),
    }
}

/// No field value or default is a text of digits too large for an `i64`.
pub open spec fn numbers_fit(fields: Seq<FieldModel>) -> bool {
    forall|i: int| 0 <= i < fields.len() ==> #[trigger] field_numbers_fit(fields[i])
}

pub open spec fn field_numbers_fit(f: FieldModel) -> bool {
    (match f.value { Some(v) => !number_overflows(v), None => true })
        && (match f.default_value { Some(v) => !number_overflows(v), None => true })
}

/// What the driver needs of a request: a first field naming the table, a step in every
/// link, a row id for an insert, and numbers that fit an `i64`.
pub open spec fn driver_ready(r: RequestModel) -> bool {
    &&& r.fields.len() > 0
    &&& links_have_steps(r.fields)
    &&& (r.statement_type == StatementType::INSERT ==> r.options.id is Some)
    &&& numbers_fit(r.fields)
}

/// A request binds the same values, in the same order, whichever database it is built
/// for: only the placeholders and the pagination are written differently.
pub proof fn request_binds_same_values_in_every_dialect<D1: SqlDialect, D2: SqlDialect>(d1: D1, d2: D2, r: RequestModel)
    ensures
        driver_query(d1, r).1 == driver_query(d2, r).1,
{
    match r.statement_type {
        StatementType::SELECT => select_binds_same_values(d1, d2, select_builder_of(r)),
        StatementType::INSERT => insert_binds_same_values(d1, d2, insert_builder_of(r)),
        StatementType::UPDATE => update_binds_same_values(d1, d2, update_builder_of(r)),
        StatementType::DELETE => delete_binds_same_values(d1, d2, delete_builder_of(r)),
    }
}

proof fn lemma_group_exprs_distinct(fields: Seq<FieldModel>, k: usize, st: LinkState, n: int)
    ensures
        group_exprs_upto(fields, k, st, n).no_duplicates(),
    decreases n,
{
    if n > 0 && n <= fields.len() {
        lemma_group_exprs_distinct(fields, k, st, n - 1);
        let prev = group_exprs_upto(fields, k, st, n - 1);
        let x = field_target(fields[n - 1], st);
        if !prev.contains(x) {
            assert forall|i: int, j: int| 0 <= i < prev.push(x).len() && 0 <= j < prev.push(x).len() && i != j
                implies prev.push(x)[i] != prev.push(x)[j] by {
                if i == prev.len() as int {
                    assert(prev.push(x)[j] == prev[j]);
                } else if j == prev.len() as int {
                    assert(prev.push(x)[i] == prev[i]);
                }
            }
        }
    }
}

/// A grouped select groups by each of its dimensions once, and orders by the same
/// dimensions, in the same order.
pub proof fn grouped_select_orders_by_its_dimensions(r: RequestModel)
    requires
        r.options.grouped,
    ensures
        select_builder_of(r).order_by == select_builder_of(r).group_by,
        select_builder_of(r).group_by.no_duplicates(),
{
    lemma_group_exprs_distinct(r.fields, r.options.mask_index, request_links(r), r.fields.len() as int);
}

/// Builds the SQL of a metadata request.
pub struct MetadataSqlDriver {
    engine: MetaSqlEngine,
    request: MetadataQueryRequest,
}

impl View for MetadataSqlDriver {
    type V = RequestModel;

    closed spec fn view(&self) -> RequestModel {
        self.request@
    }
}

proof fn lemma_remove_front(before: Seq<Predicate>, rest: Seq<Predicate>, all: Seq<PredicateModel>, i: int)
    requires
        before.len() > 0,
        0 <= i < all.len(),
        predicates_model(before) == all.skip(i),
        rest == before.subrange(1, before.len() as int),
    ensures
        predicates_model(rest) == all.skip(i + 1),
        all[i] == before[0]@,
        all.take(i + 1) == all.take(i).push(before[0]@),
{
    assert(predicates_model(before)[0] == before[0]@);
    assert(all.skip(i)[0] == all[i]);
    assert(predicates_model(before).len() == before.len());
    assert(before.len() == all.len() - i);
    assert forall|j: int| 0 <= j < rest.len() implies predicates_model(rest)[j] == all.skip(i + 1)[j] by {
        assert(predicates_model(rest)[j] == rest[j]@);
        assert(rest[j] == before[j + 1]);
        assert(predicates_model(before)[j + 1] == before[j + 1]@);
        assert(all.skip(i)[j + 1] == all[i + (j + 1)]);
        assert(all.skip(i + 1)[j] == all[i + 1 + j]);
    }
    assert(predicates_model(rest) =~= all.skip(i + 1));
    assert(all.take(i + 1) =~= all.take(i).push(all[i]));
}

fn append_predicates(builder: SelectBuilder, preds: Vec<Predicate>) -> (r: SelectBuilder)
    ensures
        r@ == (SelectModel { predicates: builder@.predicates + predicates_model(preds@), ..builder@ }),
{
    let mut b = builder;
    let mut rest = preds;
    let ghost all = predicates_model(rest@);
    let len0 = rest.len();
    assert(all.len() == len0);
    let ghost b0 = b@;
    let mut i: usize = 0;
    while rest.len() > 0
        invariant
            i <= all.len(),
            predicates_model(rest@) == all.skip(i as int),
            rest@.len() + i == all.len(),
            all.len() <= usize::MAX,
            b@ == (SelectModel { predicates: b0.predicates + all.take(i as int), ..b0 }),
        decreases rest@.len(),
    {
        let ghost before = rest@;
        let p = rest.remove(0);
        proof {
            lemma_remove_front(before, rest@, all, i as int);
        }
        b = b.predicate(p);
        i = i + 1;
    }
    assert(all.take(i as int) =~= all);
    b
}

fn append_having(builder: SelectBuilder, preds: Vec<Predicate>) -> (r: SelectBuilder)
    ensures
        r@ == (SelectModel { having: builder@.having + predicates_model(preds@), ..builder@ }),
{
    let mut b = builder;
    let mut rest = preds;
    let ghost all = predicates_model(rest@);
    let len0 = rest.len();
    assert(all.len() == len0);
    let ghost b0 = b@;
    let mut i: usize = 0;
    while rest.len() > 0
        invariant
            i <= all.len(),
            predicates_model(rest@) == all.skip(i as int),
            rest@.len() + i == all.len(),
            all.len() <= usize::MAX,
            b@ == (SelectModel { having: b0.having + all.take(i as int), ..b0 }),
        decreases rest@.len(),
    {
        let ghost before = rest@;
        let p = rest.remove(0);
        proof {
            lemma_remove_front(before, rest@, all, i as int);
        }
        b = b.having(p);
        i = i + 1;
    }
    assert(all.take(i as int) =~= all);
    b
}

fn push_predicates(out: &mut Vec<Predicate>, more: Vec<Predicate>)
    ensures
        predicates_model(final(out)@) == predicates_model(old(out)@) + predicates_model(more@),
{
    let mut rest = more;
    let ghost start = predicates_model(out@);
    let ghost all = predicates_model(rest@);
    let len0 = rest.len();
    assert(all.len() == len0);
    let mut i: usize = 0;
    while rest.len() > 0
        invariant
            i <= all.len(),
            predicates_model(rest@) == all.skip(i as int),
            rest@.len() + i == all.len(),
            all.len() <= usize::MAX,
            predicates_model(out@) == start + all.take(i as int),
        decreases rest@.len(),
    {
        let ghost before = rest@;
        let ghost bo = out@;
        let p = rest.remove(0);
        proof {
            lemma_remove_front(before, rest@, all, i as int);
        }
        out.push(p);
        proof {
            assert(predicates_model(out@) =~= predicates_model(bo).push(p@));
        }
        i = i + 1;
    }
    assert(all.take(i as int) =~= all);
}

impl MetadataSqlDriver {
    pub fn new(request: MetadataQueryRequest) -> (r: MetadataSqlDriver)
        ensures
            r@ == request@,
    {
        MetadataSqlDriver { engine: MetaSqlEngine, request }
    }

    /// Whether the request can be built: it has a field, every link has a step, an
    /// insert names its row, and no digit text is too large for an `i64`.
    pub fn is_ready(&self) -> (r: bool)
        ensures
            r == driver_ready(self@),
    {
        let fields = &self.request.fields;
        let n = fields.len();
        if n == 0 {
            return false;
        }
        if self.request.statement_type == StatementType::INSERT && self.request.options.id.is_none() {
            return false;
        }
        let ghost fs = self@.fields;
        let mut i: usize = 0;
        while i < n
            invariant
                n == fields@.len(),
                fs == self@.fields,
                fs == crate::metadata::field::fields_model(fields@),
                i <= n,
                forall|j: int| 0 <= j < i ==> link_has_steps(#[trigger] fs[j]) && field_numbers_fit(fs[j]),
            decreases n - i,
        {
            let f = &fields[i];
            assert(fs[i as int] == f@);
            match &f.source {
                FieldSource::Linked(link) => {
                    if link.steps.len() == 0 {
                        assert(!link_has_steps(fs[i as int]));
                        return false;
                    }
                },
                _ => {},
            }
            match &f.value {
                Some(v) => {
                    if number_overflows_of(v) {
                        assert(!field_numbers_fit(fs[i as int]));
                        assert(!numbers_fit(fs));
                        return false;
                    }
                },
                None => {},
            }
            match &f.default_value {
                Some(v) => {
                    if number_overflows_of(v) {
                        assert(!field_numbers_fit(fs[i as int]));
                        assert(!numbers_fit(fs));
                        return false;
                    }
                },
                None => {},
            }
            i = i + 1;
        }
        true
    }

    /// The SQL and parameters of the request, by its statement type.
    pub fn build<D: SqlDialect>(&self, dialect: &D) -> (r: BuiltQuery)
        requires
            driver_ready(self@),
        ensures
            r.sql@ == driver_query(*dialect, self@).0,
            values_model(r.params@) == driver_query(*dialect, self@).1,
    {
        match self.request.statement_type {
            StatementType::SELECT => self.build_select(dialect),
            StatementType::INSERT => self.build_insert(dialect),
            StatementType::UPDATE => self.build_update(dialect),
            StatementType::DELETE => self.build_delete(dialect),
        }
    }

    /// The alias of the main table.
    fn main_table_alias(&self) -> (r: String)
        requires
            self@.fields.len() > 0,
        ensures
            r@ == main_alias_of(self@),
    {
        copy_string(&self.request.fields[0].current_table)
    }

    fn main_table_ref(&self) -> (r: TableRef)
        requires
            self@.fields.len() > 0,
        ensures
            r@ == main_ref_of(self@),
    {
        let name = main_table_name(&self.request);
        match &self.request.fields[0].real_table {
            Some(_) => TableRef::new(name.as_str()).alias(self.request.fields[0].current_table.as_str()),
            None => TableRef::new(name.as_str()),
        }
    }

    /// The target of the field at `i`.
    fn target_at(&self, i: usize, ctx: &LinkContext) -> (r: String)
        requires
            i < self@.fields.len(),
            links_have_steps(self@.fields),
            ctx@ == link_context_of(self@.fields, main_alias_of(self@)),
        ensures
            r@ == field_target(self@.fields[i as int], ctx@),
    {
        let field = &self.request.fields[i];
        assert(self@.fields[i as int] == field@);
        match &field.source {
            FieldSource::Column(column) => {
                let mut s = copy_string(&field.current_table);
                s.append(".");
                s.append(column.as_str());
                s
            },
            FieldSource::Qualified(e) => copy_string(e),
            FieldSource::Formula(e) => copy_string(e),
            FieldSource::Linked(link) => {
                proof {
                    assert(crate::metadata_driver::context::link_has_steps(self@.fields[i as int]));
                    lemma_link_has_alias(self@.fields, main_alias_of(self@), i as int);
                }
                let mut s = ctx.alias_for(link);
                s.append(".");
                s.append(link.target_column.as_str());
                s
            },
        }
    }

    /// The target a filter naming `name` applies to.
    fn named_filter_target(&self, name: &str, ctx: &LinkContext) -> (r: String)
        requires
            self@.fields.len() > 0,
            links_have_steps(self@.fields),
            ctx@ == link_context_of(self@.fields, main_alias_of(self@)),
        ensures
            r@ == named_target(self@, ctx@, name@),
    {
        let ghost fs = self@.fields;
        let n = self.request.fields.len();
        let mut i: usize = 0;
        while i < n
            invariant
                n == self.request.fields@.len(),
                fs == self@.fields,
                fs.len() > 0,
                links_have_steps(fs),
                ctx@ == link_context_of(fs, main_alias_of(self@)),
                i <= n,
                first_named(fs, name@, 0) == first_named(fs, name@, i as int),
            decreases n - i,
        {
            let f = &self.request.fields[i];
            assert(fs[i as int] == f@);
            let by_alias = match &f.output_alias {
                Some(a) => str_eq(a.as_str(), name),
                None => false,
            };
            let out = f.output_name();
            let by_name = str_eq(out.as_str(), name);
            let by_column = match f.source_column() {
                Some(c) => str_eq(c, name),
                None => false,
            };
            if by_alias || by_name || by_column {
                return self.target_at(i, ctx);
            }
            i = i + 1;
        }
        owned(name)
    }

    /// The predicate of a filter expression.
    fn filter_predicate(&self, e: &MetadataFilterExpr, ctx: &LinkContext) -> (r: Predicate)
        requires
            self@.fields.len() > 0,
            links_have_steps(self@.fields),
            ctx@ == link_context_of(self@.fields, main_alias_of(self@)),
        ensures
            r@ == filter_predicate(e@, self@, ctx@),
        decreases e,
    {
        match e {
            MetadataFilterExpr::Field { field, filter } => {
                let t = self.named_filter_target(field.as_str(), ctx);
                match filter {
                    MetadataFilter::Eq(v) => Predicate::eq(t.as_str(), v.duplicate()),
                    MetadataFilter::Ne(v) => Predicate::ne(t.as_str(), v.duplicate()),
                    MetadataFilter::Gt(v) => Predicate::gt(t.as_str(), v.duplicate()),
                    MetadataFilter::Gte(v) => Predicate::gte(t.as_str(), v.duplicate()),
                    MetadataFilter::Lt(v) => Predicate::lt(t.as_str(), v.duplicate()),
                    MetadataFilter::Lte(v) => Predicate::lte(t.as_str(), v.duplicate()),
                    MetadataFilter::Like(s) => Predicate::like(t.as_str(), Value::String(copy_string(s))),
                    MetadataFilter::In(vs) => Predicate::in_list(t.as_str(), duplicate_values(vs)),
                    MetadataFilter::Between { lower, upper } => Predicate::between(t.as_str(), lower.duplicate(), upper.duplicate()),
                    MetadataFilter::IsNull => Predicate::is_null(t.as_str()),
                    MetadataFilter::IsNotNull => Predicate::is_not_null(t.as_str()),
                }
            },
            MetadataFilterExpr::Exists { sql, params } => Predicate::exists_query(sql.as_str(), duplicate_values(params)),
            MetadataFilterExpr::Custom { sql, params } => Predicate::custom(sql.as_str(), duplicate_values(params)),
            MetadataFilterExpr::Raw(s) => Predicate::raw(s.as_str()),
            MetadataFilterExpr::And(items) => {
                proof {
                    lemma_filter_group_view(*items);
                }
                let ps = self.filter_members(e, items, ctx);
                Predicate::and(ps)
            },
            MetadataFilterExpr::Or(items) => {
                proof {
                    lemma_filter_group_view(*items);
                }
                let ps = self.filter_members(e, items, ctx);
                Predicate::or(ps)
            },
            MetadataFilterExpr::Not(inner) => {
                proof {
                    assert(decreases_to!(*e => (*e)->Not_0));
                }
                let p = self.filter_predicate(&**inner, ctx);
                Predicate::not(p)
            },
        }
    }

    fn filter_members(&self, e: &MetadataFilterExpr, items: &Vec<MetadataFilterExpr>, ctx: &LinkContext) -> (r: Vec<Predicate>)
        requires
            *e == MetadataFilterExpr::And(*items) || *e == MetadataFilterExpr::Or(*items),
            self@.fields.len() > 0,
            links_have_steps(self@.fields),
            ctx@ == link_context_of(self@.fields, main_alias_of(self@)),
        ensures
            predicates_model(r@) == filter_predicates(filter_exprs_model(items@), self@, ctx@, items@.len() as int),
        decreases e, 0int,
    {
        let ghost m = filter_exprs_model(items@);
        let mut out: Vec<Predicate> = Vec::new();
        let n = items.len();
        let mut i: usize = 0;
        assert(predicates_model(out@) =~= filter_predicates(m, self@, ctx@, 0));
        while i < n
            invariant
                n == items@.len(),
                *e == MetadataFilterExpr::And(*items) || *e == MetadataFilterExpr::Or(*items),
                self@.fields.len() > 0,
                links_have_steps(self@.fields),
                ctx@ == link_context_of(self@.fields, main_alias_of(self@)),
                m == filter_exprs_model(items@),
                i <= n,
                predicates_model(out@) == filter_predicates(m, self@, ctx@, i as int),
            decreases n - i,
        {
            proof {
                assert(decreases_to!(*items => items[i as int]));
                if *e == MetadataFilterExpr::And(*items) {
                    assert(decreases_to!(*e => (*e)->And_0));
                } else {
                    assert(decreases_to!(*e => (*e)->Or_0));
                }
                assert(decreases_to!(*e => items[i as int]));
                assert(m[i as int] == items@[i as int]@);
            }
            let p = self.filter_predicate(&items[i], ctx);
            let ghost before = out@;
            out.push(p);
            assert(predicates_model(out@) =~= predicates_model(before).push(p@));
            i = i + 1;
        }
        out
    }

    /// The predicates of a list of filter expressions.
    fn filters_predicates(&self, items: &Vec<MetadataFilterExpr>, ctx: &LinkContext) -> (r: Vec<Predicate>)
        requires
            self@.fields.len() > 0,
            links_have_steps(self@.fields),
            ctx@ == link_context_of(self@.fields, main_alias_of(self@)),
        ensures
            predicates_model(r@) == filter_predicates(filter_exprs_model(items@), self@, ctx@, items@.len() as int),
    {
        let ghost m = filter_exprs_model(items@);
        let mut out: Vec<Predicate> = Vec::new();
        let n = items.len();
        let mut i: usize = 0;
        assert(predicates_model(out@) =~= filter_predicates(m, self@, ctx@, 0));
        while i < n
            invariant
                n == items@.len(),
                self@.fields.len() > 0,
                links_have_steps(self@.fields),
                ctx@ == link_context_of(self@.fields, main_alias_of(self@)),
                m == filter_exprs_model(items@),
                i <= n,
                predicates_model(out@) == filter_predicates(m, self@, ctx@, i as int),
            decreases n - i,
        {
            assert(m[i as int] == items@[i as int]@);
            let p = self.filter_predicate(&items[i], ctx);
            let ghost before = out@;
            out.push(p);
            assert(predicates_model(out@) =~= predicates_model(before).push(p@));
            i = i + 1;
        }
        out
    }

    /// The select expressions of the field at `i`.
    fn select_projections(&self, i: usize, ctx: &LinkContext) -> (r: Vec<String>)
        requires
            i < self@.fields.len(),
            links_have_steps(self@.fields),
            ctx@ == link_context_of(self@.fields, main_alias_of(self@)),
        ensures
            strings_view(r@) == projections_of(self@.fields[i as int], ctx@),
    {
        let field = &self.request.fields[i];
        assert(self@.fields[i as int] == field@);
        let out_name = field.output_name();
        let mut out: Vec<String> = Vec::new();
        match &field.source {
            FieldSource::Column(column) => {
                let mut first = copy_string(&field.current_table);
                first.append(".");
                first.append(column.as_str());
                first.append(" AS \"");
                first.append(out_name.as_str());
                first.append("\"");
                out.push(first);
                match &field.lookup {
                    Some(lookup) => {
                        let mut second = "(select ".to_owned();
                        second.append(lookup.display_column.as_str());
                        second.append(" as dk from ");
                        second.append(lookup.table.as_str());
                        second.append(" x where id = ");
                        second.append(field.current_table.as_str());
                        second.append(".");
                        second.append(column.as_str());
                        second.append(") as \"");
                        second.append(out_name.as_str());
                        second.append(".dk\"");
                        out.push(second);
                    },
                    None => {},
                }
            },
            FieldSource::Qualified(e) | FieldSource::Formula(e) => {
                let mut s = copy_string(e);
                s.append(" AS \"");
                s.append(out_name.as_str());
                s.append("\"");
                out.push(s);
            },
            FieldSource::Linked(link) => {
                proof {
                    assert(crate::metadata_driver::context::link_has_steps(self@.fields[i as int]));
                    lemma_link_has_alias(self@.fields, main_alias_of(self@), i as int);
                }
                let mut s = ctx.alias_for(link);
                s.append(".");
                s.append(link.target_column.as_str());
                s.append(" AS \"");
                s.append(out_name.as_str());
                s.append("\"");
                out.push(s);
            },
        }
        assert(strings_view(out@) =~= projections_of(self@.fields[i as int], ctx@));
        out
    }

    fn build_select<D: SqlDialect>(&self, dialect: &D) -> (r: BuiltQuery)
        requires
            driver_ready(self@),
            self@.statement_type == StatementType::SELECT,
        ensures
            r.sql@ == driver_query(*dialect, self@).0,
            values_model(r.params@) == driver_query(*dialect, self@).1,
    {
        let ghost rm = self@;
        let ghost fs = rm.fields;
        let alias = self.main_table_alias();
        let ctx = build_link_context(&self.request, alias.as_str());
        let ghost st = ctx@;
        let k = self.request.options.mask_index;
        let mut builder = SelectBuilder::new(self.main_table_ref());
        if !self.request.options.grouped {
            let mut id = copy_string(&alias);
            id.append(".id AS \"id\"");
            builder = builder.select(id.as_str());
        }
        let ghost b0 = builder@;
        let nr = ctx.relations.len();
        let mut j: usize = 0;
        while j < nr
            invariant
                nr == ctx.relations@.len(),
                st == ctx@,
                j <= nr,
                builder@ == (SelectModel { relations: b0.relations + st.relations.take(j as int), ..b0 }),
            decreases nr - j,
        {
            let rel = ctx.relations[j].duplicate();
            builder = builder.relation(rel);
            assert(st.relations.take(j + 1) =~= st.relations.take(j as int).push(rel@));
            j = j + 1;
        }
        assert(st.relations.take(nr as int) =~= st.relations);
        let ghost b1 = builder@;
        let n = self.request.fields.len();
        let mut i: usize = 0;
        while i < n
            invariant
                n == self.request.fields@.len(),
                fs == self@.fields,
                rm == self@,
                driver_ready(rm),
                st == ctx@,
                st == link_context_of(fs, main_alias_of(rm)),
                k == rm.options.mask_index,
                i <= n,
                builder@ == (SelectModel { projections: b1.projections + projections_upto(fs, k, st, i as int), ..b1 }),
            decreases n - i,
        {
            let field = &self.request.fields[i];
            assert(fs[i as int] == field@);
            let ghost bi = builder@;
            let allowed = field.access.allows(k);
            assert(allowed == field_allowed(fs[i as int], k));
            if allowed {
                let ps = self.select_projections(i, &ctx);
                let ghost bb = builder@;
                let m = ps.len();
                let mut q: usize = 0;
                while q < m
                    invariant
                        m == ps@.len(),
                        q <= m,
                        builder@ == (SelectModel { projections: bb.projections + strings_view(ps@).take(q as int), ..bb }),
                    decreases m - q,
                {
                    builder = builder.select(ps[q].as_str());
                    assert(strings_view(ps@).take(q + 1) =~= strings_view(ps@).take(q as int).push(ps@[q as int]@));
                    q = q + 1;
                }
                assert(strings_view(ps@).take(m as int) =~= strings_view(ps@));
                assert(b1.projections + projections_upto(fs, k, st, i + 1)
                    =~= b1.projections + projections_upto(fs, k, st, i as int) + strings_view(ps@));
            } else {
                assert(b1.projections + projections_upto(fs, k, st, i + 1)
                    =~= b1.projections + projections_upto(fs, k, st, i as int));
            }
            i = i + 1;
        }
        let preds = self.select_predicates(&ctx);
        builder = append_predicates(builder, preds);
        let having = self.filters_predicates(&self.request.having, &ctx);
        builder = append_having(builder, having);
        let ghost b2 = builder@;
        if self.request.options.grouped {
            let groups = self.group_by_expressions(&ctx);
            let g = groups.len();
            let mut q: usize = 0;
            while q < g
                invariant
                    g == groups@.len(),
                    q <= g,
                    builder@ == (SelectModel {
                        group_by: b2.group_by + strings_view(groups@).take(q as int),
                        order_by: b2.order_by + strings_view(groups@).take(q as int),
                        ..b2
                    }),
                decreases g - q,
            {
                builder = builder.group_by(groups[q].as_str()).order_by(groups[q].as_str());
                assert(strings_view(groups@).take(q + 1) =~= strings_view(groups@).take(q as int).push(groups@[q as int]@));
                q = q + 1;
            }
            assert(strings_view(groups@).take(g as int) =~= strings_view(groups@));
        } else {
            let orders = self.order_by_expressions(&ctx);
            let g = orders.len();
            let mut q: usize = 0;
            while q < g
                invariant
                    g == orders@.len(),
                    q <= g,
                    builder@ == (SelectModel { order_by: b2.order_by + strings_view(orders@).take(q as int), ..b2 }),
                decreases g - q,
            {
                builder = builder.order_by(orders[q].as_str());
                assert(strings_view(orders@).take(q + 1) =~= strings_view(orders@).take(q as int).push(orders@[q as int]@));
                q = q + 1;
            }
            assert(strings_view(orders@).take(g as int) =~= strings_view(orders@));
        }
        proof {
            let e = select_builder_of(rm);
            assert(builder@.projections =~= e.projections);
            assert(builder@.relations =~= e.relations);
            assert(builder@.predicates =~= e.predicates);
            assert(builder@.having =~= e.having);
            assert(builder@.group_by =~= e.group_by);
            assert(builder@.order_by =~= e.order_by);
        }
        self.engine.build_select(dialect, builder)
    }

    fn select_predicates(&self, ctx: &LinkContext) -> (r: Vec<Predicate>)
        requires
            driver_ready(self@),
            ctx@ == link_context_of(self@.fields, main_alias_of(self@)),
        ensures
            predicates_model(r@) == select_predicates_of(self@),
    {
        let ghost rm = self@;
        let ghost fs = rm.fields;
        let mut out: Vec<Predicate> = Vec::new();
        match &self.request.options.table_filter {
            Some(t) => {
                if t.unicode_len() > 0 {
                    out.push(Predicate::raw(t.as_str()));
                }
            },
            None => {},
        }
        assert(predicates_model(out@) =~= table_filter_predicates(rm));
        let fp = self.filters_predicates(&self.request.filters, ctx);
        push_predicates(&mut out, fp);
        let ghost p1 = predicates_model(out@);
        let n = self.request.fields.len();
        let mut i: usize = 0;
        while i < n
            invariant
                n == self.request.fields@.len(),
                fs == self@.fields,
                rm == self@,
                driver_ready(rm),
                ctx@ == link_context_of(fs, main_alias_of(rm)),
                i <= n,
                predicates_model(out@) == p1 + value_predicates_upto(fs, ctx@, i as int),
            decreases n - i,
        {
            let field = &self.request.fields[i];
            assert(fs[i as int] == field@);
            match &field.value {
                Some(v) => {
                    let target = self.target_at(i, ctx);
                    let vp = value_predicates(target.as_str(), v);
                    push_predicates(&mut out, vp);
                },
                None => {},
            }
            i = i + 1;
        }
        match self.request.options.id {
            Some(id) => {
                let mut field = self.main_table_alias();
                field.append(".id");
                let ghost before = out@;
                let p = Predicate::eq(field.as_str(), Value::from_i64(id));
                out.push(p);
                assert(predicates_model(out@) =~= predicates_model(before).push(p@));
            },
            None => {},
        }
        assert(predicates_model(out@) =~= select_predicates_of(rm));
        out
    }

    fn group_by_expressions(&self, ctx: &LinkContext) -> (r: Vec<String>)
        requires
            driver_ready(self@),
            ctx@ == link_context_of(self@.fields, main_alias_of(self@)),
        ensures
            strings_view(r@) == group_exprs_upto(self@.fields, self@.options.mask_index, ctx@, self@.fields.len() as int),
    {
        let ghost rm = self@;
        let ghost fs = rm.fields;
        let k = self.request.options.mask_index;
        let mut list: Vec<String> = Vec::new();
        assert(strings_view(list@) =~= group_exprs_upto(fs, k, ctx@, 0));
        let n = self.request.fields.len();
        let mut i: usize = 0;
        while i < n
            invariant
                n == self.request.fields@.len(),
                fs == self@.fields,
                rm == self@,
                driver_ready(rm),
                k == rm.options.mask_index,
                ctx@ == link_context_of(fs, main_alias_of(rm)),
                i <= n,
                strings_view(list@) == group_exprs_upto(fs, k, ctx@, i as int),
            decreases n - i,
        {
            let field = &self.request.fields[i];
            assert(fs[i as int] == field@);
            if field.access.allows(k) {
                match &field.source {
                    FieldSource::Formula(_) => {},
                    _ => {
                        let t = self.target_at(i, ctx);
                        push_unique(&mut list, t);
                    },
                }
            }
            i = i + 1;
        }
        list
    }

    fn order_by_expressions(&self, ctx: &LinkContext) -> (r: Vec<String>)
        requires
            driver_ready(self@),
            ctx@ == link_context_of(self@.fields, main_alias_of(self@)),
        ensures
            strings_view(r@) == order_exprs_upto(self@.fields, ctx@, self@.fields.len() as int),
    {
        let ghost rm = self@;
        let ghost fs = rm.fields;
        let mut list: Vec<String> = Vec::new();
        assert(strings_view(list@) =~= order_exprs_upto(fs, ctx@, 0));
        let n = self.request.fields.len();
        let mut i: usize = 0;
        while i < n
            invariant
                n == self.request.fields@.len(),
                fs == self@.fields,
                rm == self@,
                driver_ready(rm),
                ctx@ == link_context_of(fs, main_alias_of(rm)),
                i <= n,
                strings_view(list@) == order_exprs_upto(fs, ctx@, i as int),
            decreases n - i,
        {
            let field = &self.request.fields[i];
            assert(fs[i as int] == field@);
            match field.sort {
                Some(direction) => {
                    let mut s = self.target_at(i, ctx);
                    s.append(" ");
                    match direction {
                        SortDirection::Asc => s.append("asc"),
                        SortDirection::Desc => s.append("desc"),
                    }
                    s.append(" nulls first");
                    let ghost before = list@;
                    list.push(s);
                    assert(strings_view(list@) =~= strings_view(before).push(s@));
                },
                None => {},
            }
            i = i + 1;
        }
        list
    }

    fn build_insert<D: SqlDialect>(&self, dialect: &D) -> (r: BuiltQuery)
        requires
            driver_ready(self@),
            self@.statement_type == StatementType::INSERT,
        ensures
            r.sql@ == driver_query(*dialect, self@).0,
            values_model(r.params@) == driver_query(*dialect, self@).1,
    {
        let ghost rm = self@;
        let ghost fs = rm.fields;
        let k = self.request.options.mask_index;
        let client = self.request.options.client_id;
        let id = match self.request.options.id {
            Some(id) => id,
            None => 0,
        };
        let table = main_table_name(&self.request);
        let mut builder = InsertBuilder::new(table.as_str())
            .value("id", Value::from_i64(id))
            .value("ad_client_id", Value::from_i64(client))
            .value("ad_org_id", Value::from_i64(self.request.options.org_id))
            .value("ownerid", Value::from_i64(self.request.user_id))
            .value("modifiered", Value::from_i64(self.request.user_id))
            .raw_value("creationdate", "sysdate")
            .raw_value("modifieddate", "sysdate");
        let ghost b0 = builder@;
        let n = self.request.fields.len();
        let mut i: usize = 0;
        while i < n
            invariant
                n == self.request.fields@.len(),
                fs == self@.fields,
                rm == self@,
                driver_ready(rm),
                k == rm.options.mask_index,
                client == rm.options.client_id,
                i <= n,
                builder@ == (InsertModel { assignments: b0.assignments + insert_upto(fs, k, client, i as int), ..b0 }),
            decreases n - i,
        {
            let field = &self.request.fields[i];
            assert(fs[i as int] == field@);
            assert(field_numbers_fit(fs[i as int]));
            let allowed = field.access.allows(k);
            let is_id = match field.source_column() {
                Some(c) => is_id_text(c),
                None => false,
            };
            let background = !field.nullable && field.source_column().is_some() && !is_id
                && field.input_kind != FieldInputKind::Trigger;
            match &field.source {
                FieldSource::Column(column) => {
                    if allowed || background {
                        if field.input_kind == FieldInputKind::Sequence {
                            match &field.sequence_name {
                                Some(sequence_name) => {
                                    let mut sql = "get_sequenceno('".to_owned();
                                    sql.append(sequence_name.as_str());
                                    sql.append("', ");
                                    let c = i64_text(client);
                                    sql.append(c.as_str());
                                    sql.append(")");
                                    builder = builder.raw_value(column.as_str(), sql.as_str());
                                },
                                None => {},
                            }
                        } else {
                            let value = match &field.value {
                                Some(v) => v.duplicate(),
                                None => match &field.default_value {
                                    Some(d) => d.duplicate(),
                                    None => Value::Null,
                                },
                            };
                            match assignment_sql(field, value) {
                                SqlValue::Param(v) => {
                                    builder = builder.value(column.as_str(), v);
                                },
                                SqlValue::Raw(sql) => {
                                    builder = builder.raw_value(column.as_str(), sql.as_str());
                                },
                            }
                        }
                    }
                },
                _ => {},
            }
            proof {
                assert(builder@.assignments =~= b0.assignments + insert_upto(fs, k, client, i + 1));
            }
            i = i + 1;
        }
        proof {
            assert(builder@.assignments =~= insert_builder_of(rm).assignments);
        }
        self.engine.build_insert(dialect, builder)
    }

    fn build_update<D: SqlDialect>(&self, dialect: &D) -> (r: BuiltQuery)
        requires
            driver_ready(self@),
            self@.statement_type == StatementType::UPDATE,
        ensures
            r.sql@ == driver_query(*dialect, self@).0,
            values_model(r.params@) == driver_query(*dialect, self@).1,
    {
        let ghost rm = self@;
        let ghost fs = rm.fields;
        let k = self.request.options.mask_index;
        let table = main_table_name(&self.request);
        let mut builder = UpdateBuilder::new(table.as_str())
            .set("modifierid", Value::from_i64(self.request.user_id))
            .set_raw("modifieddate", "sysdate");
        let ghost b0 = builder@;
        let n = self.request.fields.len();
        let mut i: usize = 0;
        while i < n
            invariant
                n == self.request.fields@.len(),
                fs == self@.fields,
                rm == self@,
                driver_ready(rm),
                k == rm.options.mask_index,
                i <= n,
                builder@ == (UpdateModel { assignments: b0.assignments + update_upto(fs, k, i as int), ..b0 }),
            decreases n - i,
        {
            let field = &self.request.fields[i];
            assert(fs[i as int] == field@);
            assert(field_numbers_fit(fs[i as int]));
            if field.access.allows(k) {
                match (&field.source, &field.value) {
                    (FieldSource::Column(column), Some(value)) => {
                        match assignment_sql(field, value.duplicate()) {
                            SqlValue::Param(v) => {
                                builder = builder.set(column.as_str(), v);
                            },
                            SqlValue::Raw(sql) => {
                                builder = builder.set_raw(column.as_str(), sql.as_str());
                            },
                        }
                    },
                    _ => {},
                }
            }
            proof {
                assert(builder@.assignments =~= b0.assignments + update_upto(fs, k, i + 1));
            }
            i = i + 1;
        }
        match &self.request.options.table_filter {
            Some(t) => {
                if t.unicode_len() > 0 {
                    builder = builder.predicate(Predicate::raw(t.as_str()));
                }
            },
            None => {},
        }
        match self.request.options.id {
            Some(id) => {
                builder = builder.predicate(Predicate::eq("id", Value::from_i64(id)));
            },
            None => {},
        }
        proof {
            let e = update_builder_of(rm);
            assert(builder@.assignments =~= e.assignments);
            assert(builder@.predicates =~= e.predicates);
        }
        self.engine.build_update(dialect, builder)
    }

    fn build_delete<D: SqlDialect>(&self, dialect: &D) -> (r: BuiltQuery)
        requires
            driver_ready(self@),
            self@.statement_type == StatementType::DELETE,
        ensures
            r.sql@ == driver_query(*dialect, self@).0,
            values_model(r.params@) == driver_query(*dialect, self@).1,
    {
        let ghost rm = self@;
        let table = main_table_name(&self.request);
        let mut builder = DeleteBuilder::new(table.as_str());
        match &self.request.options.table_filter {
            Some(t) => {
                if t.unicode_len() > 0 {
                    builder = builder.predicate(Predicate::raw(t.as_str()));
                }
            },
            None => {},
        }
        match self.request.options.id {
            Some(id) => {
                builder = builder.predicate(Predicate::eq("id", Value::from_i64(id)));
            },
            None => {},
        }
        proof {
            let e = delete_builder_of(rm);
            assert(builder@.predicates =~= e.predicates);
        }
        self.engine.build_delete(dialect, builder)
    }
}

/// Whether a column is `id`, ignoring ASCII case.
fn is_id_text(c: &str) -> (r: bool)
    ensures
        r == is_id_column(c@),
{
    c.unicode_len() == 2 && (c.get_char(0) == 'i' || c.get_char(0) == 'I')
        && (c.get_char(1) == 'd' || c.get_char(1) == 'D')
}

} // verus!
