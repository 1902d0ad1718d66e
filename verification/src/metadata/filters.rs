//! Filters on metadata fields: comparisons, lists, ranges and boolean combinations.

use vstd::prelude::*;

use crate::text::{copy_string, owned};
use crate::value::{duplicate_values, value_view, values_model, Value, ValueModel};

verus! {

/// A condition on one field.
#[derive(Debug, Clone, PartialEq)]
pub enum MetadataFilter {
    Eq(Value),
    Ne(Value),
    Gt(Value),
    Gte(Value),
    Lt(Value),
    Lte(Value),
    Like(String),
    In(Vec<Value>),
    Between { lower: Value, upper: Value },
    IsNull,
    IsNotNull,
}

/// The model of a [`MetadataFilter`].
pub enum FilterModel {
    Eq(ValueModel),
    Ne(ValueModel),
    Gt(ValueModel),
    Gte(ValueModel),
    Lt(ValueModel),
    Lte(ValueModel),
    Like(Seq<char>),
    In(Seq<ValueModel>),
    Between { lower: ValueModel, upper: ValueModel },
    IsNull,
    IsNotNull,
}

impl View for MetadataFilter {
    type V = FilterModel;

    open spec fn view(&self) -> FilterModel {
        match self {
            MetadataFilter::Eq(v) => FilterModel::Eq(v@),
            MetadataFilter::Ne(v) => FilterModel::Ne(v@),
            MetadataFilter::Gt(v) => FilterModel::Gt(v@),
            MetadataFilter::Gte(v) => FilterModel::Gte(v@),
            MetadataFilter::Lt(v) => FilterModel::Lt(v@),
            MetadataFilter::Lte(v) => FilterModel::Lte(v@),
            MetadataFilter::Like(s) => FilterModel::Like(s@),
            MetadataFilter::In(vs) => FilterModel::In(values_model(vs@)),
            MetadataFilter::Between { lower, upper } => FilterModel::Between { lower: lower@, upper: upper@ },
            MetadataFilter::IsNull => FilterModel::IsNull,
            MetadataFilter::IsNotNull => FilterModel::IsNotNull,
        }
    }
}

impl MetadataFilter {
    /// A copy of this filter.
    pub fn duplicate(&self) -> (r: MetadataFilter)
        ensures
            r@ == self@,
    {
        match self {
            MetadataFilter::Eq(v) => MetadataFilter::Eq(v.duplicate()),
            MetadataFilter::Ne(v) => MetadataFilter::Ne(v.duplicate()),
            MetadataFilter::Gt(v) => MetadataFilter::Gt(v.duplicate()),
            MetadataFilter::Gte(v) => MetadataFilter::Gte(v.duplicate()),
            MetadataFilter::Lt(v) => MetadataFilter::Lt(v.duplicate()),
            MetadataFilter::Lte(v) => MetadataFilter::Lte(v.duplicate()),
            MetadataFilter::Like(s) => MetadataFilter::Like(copy_string(s)),
            MetadataFilter::In(vs) => MetadataFilter::In(duplicate_values(vs)),
            MetadataFilter::Between { lower, upper } => MetadataFilter::Between {
                lower: lower.duplicate(),
                upper: upper.duplicate(),
            },
            MetadataFilter::IsNull => MetadataFilter::IsNull,
            MetadataFilter::IsNotNull => MetadataFilter::IsNotNull,
        }
    }
}

/// A filter expression: a field condition, a subquery, custom or raw SQL, or a
/// combination of expressions.
#[derive(Debug, PartialEq)]
pub enum MetadataFilterExpr {
    Field { field: String, filter: MetadataFilter },
    Exists { sql: String, params: Vec<Value> },
    Custom { sql: String, params: Vec<Value> },
    Raw(String),
    And(Vec<MetadataFilterExpr>),
    Or(Vec<MetadataFilterExpr>),
    Not(Box<MetadataFilterExpr>),
}

/// The model of a [`MetadataFilterExpr`].
pub enum FilterExprModel {
    Field { field: Seq<char>, filter: FilterModel },
    Exists { sql: Seq<char>, params: Seq<ValueModel> },
    Custom { sql: Seq<char>, params: Seq<ValueModel> },
    Raw(Seq<char>),
    And(Seq<FilterExprModel>),
    Or(Seq<FilterExprModel>),
    Not(Box<FilterExprModel>),
}

pub open spec fn filter_expr_view(e: MetadataFilterExpr) -> FilterExprModel
    decreases e, 0int,
{
    match e {
        MetadataFilterExpr::Field { field, filter } => FilterExprModel::Field { field: field@, filter: filter@ },
        MetadataFilterExpr::Exists { sql, params } => FilterExprModel::Exists { sql: sql@, params: values_model(params@) },
        MetadataFilterExpr::Custom { sql, params } => FilterExprModel::Custom { sql: sql@, params: values_model(params@) },
        MetadataFilterExpr::Raw(s) => FilterExprModel::Raw(s@),
        MetadataFilterExpr::And(items) => FilterExprModel::And(filter_exprs_from(items@, 0)),
        MetadataFilterExpr::Or(items) => FilterExprModel::Or(filter_exprs_from(items@, 0)),
        MetadataFilterExpr::Not(inner) => FilterExprModel::Not(Box::new(filter_expr_view(*inner))),
    }
}

/// The models of `items[i..]`.
pub open spec fn filter_exprs_from(items: Seq<MetadataFilterExpr>, i: int) -> Seq<FilterExprModel>
    decreases items, items.len() - i,
{
    if 0 <= i < items.len() {
        seq![filter_expr_view(items[i])] + filter_exprs_from(items, i + 1)
    } else {
        Seq::empty()
    }
}

impl View for MetadataFilterExpr {
    type V = FilterExprModel;

    open spec fn view(&self) -> FilterExprModel {
        filter_expr_view(*self)
    }
}

/// The models of a sequence of filter expressions.
pub open spec fn filter_exprs_model(items: Seq<MetadataFilterExpr>) -> Seq<FilterExprModel> {
    items.map_values(|e: MetadataFilterExpr| filter_expr_view(e))
}

pub proof fn lemma_filter_exprs_from(s: Seq<MetadataFilterExpr>, i: int)
    requires
        0 <= i <= s.len(),
    ensures
        filter_exprs_from(s, i) == filter_exprs_model(s).subrange(i, s.len() as int),
    decreases s.len() - i,
{
    if i < s.len() {
        lemma_filter_exprs_from(s, i + 1);
    }
    assert(filter_exprs_from(s, i) =~= filter_exprs_model(s).subrange(i, s.len() as int));
}

/// The model of a combination is the sequence of the models of its members.
pub proof fn lemma_filter_group_view(items: Vec<MetadataFilterExpr>)
    ensures
        filter_expr_view(MetadataFilterExpr::And(items)) == FilterExprModel::And(filter_exprs_model(items@)),
        filter_expr_view(MetadataFilterExpr::Or(items)) == FilterExprModel::Or(filter_exprs_model(items@)),
{
    lemma_filter_exprs_from(items@, 0);
    assert(filter_exprs_model(items@).subrange(0, items@.len() as int) =~= filter_exprs_model(items@));
}

/// Copies of all `items`, in order.
pub fn duplicate_filter_exprs(items: &Vec<MetadataFilterExpr>) -> (r: Vec<MetadataFilterExpr>)
    ensures
        filter_exprs_model(r@) == filter_exprs_model(items@),
{
    let mut out: Vec<MetadataFilterExpr> = Vec::new();
    let n = items.len();
    let mut i: usize = 0;
    while i < n
        invariant
            n == items@.len(),
            i <= n,
            out@.len() == i,
            forall|j: int| 0 <= j < i ==> filter_expr_view(#[trigger] out@[j]) == filter_expr_view(items@[j]),
        decreases n - i,
    {
        let e = items[i].duplicate();
        out.push(e);
        i = i + 1;
    }
    assert(filter_exprs_model(out@) =~= filter_exprs_model(items@));
    out
}

impl Clone for MetadataFilterExpr {
    fn clone(&self) -> (r: MetadataFilterExpr)
        ensures
            r@ == self@,
    {
        self.duplicate()
    }
}

impl MetadataFilterExpr {
    /// A copy of this expression.
    pub fn duplicate(&self) -> (r: MetadataFilterExpr)
        ensures
            r@ == self@,
        decreases self,
    {
        match self {
            MetadataFilterExpr::Field { field, filter } => MetadataFilterExpr::Field {
                field: copy_string(field),
                filter: filter.duplicate(),
            },
            MetadataFilterExpr::Exists { sql, params } => MetadataFilterExpr::Exists {
                sql: copy_string(sql),
                params: duplicate_values(params),
            },
            MetadataFilterExpr::Custom { sql, params } => MetadataFilterExpr::Custom {
                sql: copy_string(sql),
                params: duplicate_values(params),
            },
            MetadataFilterExpr::Raw(s) => MetadataFilterExpr::Raw(copy_string(s)),
            MetadataFilterExpr::And(items) => {
                let out = self.duplicate_members(items);
                proof {
                    lemma_filter_group_view(*items);
                    lemma_filter_group_view(out);
                }
                MetadataFilterExpr::And(out)
            },
            MetadataFilterExpr::Or(items) => {
                let out = self.duplicate_members(items);
                proof {
                    lemma_filter_group_view(*items);
                    lemma_filter_group_view(out);
                }
                MetadataFilterExpr::Or(out)
            },
            MetadataFilterExpr::Not(inner) => {
                proof {
                    assert(decreases_to!(*self => (*self)->Not_0));
                }
                let c = (**inner).duplicate();
                MetadataFilterExpr::Not(Box::new(c))
            },
        }
    }

    fn duplicate_members(&self, items: &Vec<MetadataFilterExpr>) -> (r: Vec<MetadataFilterExpr>)
        requires
            *self == MetadataFilterExpr::And(*items) || *self == MetadataFilterExpr::Or(*items),
        ensures
            filter_exprs_model(r@) == filter_exprs_model(items@),
        decreases self, 0int,
    {
        let mut out: Vec<MetadataFilterExpr> = Vec::new();
        let n = items.len();
        let mut i: usize = 0;
        while i < n
            invariant
                n == items@.len(),
                *self == MetadataFilterExpr::And(*items) || *self == MetadataFilterExpr::Or(*items),
                i <= n,
                out@.len() == i,
                forall|j: int| 0 <= j < i ==> filter_expr_view(#[trigger] out@[j]) == filter_expr_view(items@[j]),
            decreases n - i,
        {
            proof {
                assert(decreases_to!(*items => items[i as int]));
                if *self == MetadataFilterExpr::And(*items) {
                    assert(decreases_to!(*self => (*self)->And_0));
                } else {
                    assert(decreases_to!(*self => (*self)->Or_0));
                }
                assert(decreases_to!(*self => items[i as int]));
            }
            let e = items[i].duplicate();
            out.push(e);
            i = i + 1;
        }
        assert(filter_exprs_model(out@) =~= filter_exprs_model(items@));
        out
    }

    pub fn eq(field: &str, value: Value) -> (r: MetadataFilterExpr)
        ensures
            r@ == (FilterExprModel::Field { field: field@, filter: FilterModel::Eq(value@) }),
    {
        MetadataFilterExpr::Field { field: owned(field), filter: MetadataFilter::Eq(value) }
    }

    pub fn ne(field: &str, value: Value) -> (r: MetadataFilterExpr)
        ensures
            r@ == (FilterExprModel::Field { field: field@, filter: FilterModel::Ne(value@) }),
    {
        MetadataFilterExpr::Field { field: owned(field), filter: MetadataFilter::Ne(value) }
    }

    pub fn gt(field: &str, value: Value) -> (r: MetadataFilterExpr)
        ensures
            r@ == (FilterExprModel::Field { field: field@, filter: FilterModel::Gt(value@) }),
    {
        MetadataFilterExpr::Field { field: owned(field), filter: MetadataFilter::Gt(value) }
    }

    pub fn gte(field: &str, value: Value) -> (r: MetadataFilterExpr)
        ensures
            r@ == (FilterExprModel::Field { field: field@, filter: FilterModel::Gte(value@) }),
    {
        MetadataFilterExpr::Field { field: owned(field), filter: MetadataFilter::Gte(value) }
    }

    pub fn lt(field: &str, value: Value) -> (r: MetadataFilterExpr)
        ensures
            r@ == (FilterExprModel::Field { field: field@, filter: FilterModel::Lt(value@) }),
    {
        MetadataFilterExpr::Field { field: owned(field), filter: MetadataFilter::Lt(value) }
    }

    pub fn lte(field: &str, value: Value) -> (r: MetadataFilterExpr)
        ensures
            r@ == (FilterExprModel::Field { field: field@, filter: FilterModel::Lte(value@) }),
    {
        MetadataFilterExpr::Field { field: owned(field), filter: MetadataFilter::Lte(value) }
    }

    pub fn like(field: &str, value: &str) -> (r: MetadataFilterExpr)
        ensures
            r@ == (FilterExprModel::Field { field: field@, filter: FilterModel::Like(value@) }),
    {
        MetadataFilterExpr::Field { field: owned(field), filter: MetadataFilter::Like(owned(value)) }
    }

    pub fn in_list(field: &str, values: Vec<Value>) -> (r: MetadataFilterExpr)
        ensures
            r@ == (FilterExprModel::Field { field: field@, filter: FilterModel::In(values_model(values@)) }),
    {
        MetadataFilterExpr::Field { field: owned(field), filter: MetadataFilter::In(values) }
    }

    pub fn between(field: &str, lower: Value, upper: Value) -> (r: MetadataFilterExpr)
        ensures
            r@ == (FilterExprModel::Field {
                field: field@,
                filter: FilterModel::Between { lower: lower@, upper: upper@ },
            }),
    {
        MetadataFilterExpr::Field {
            field: owned(field),
            filter: MetadataFilter::Between { lower, upper },
        }
    }

    pub fn is_null(field: &str) -> (r: MetadataFilterExpr)
        ensures
            r@ == (FilterExprModel::Field { field: field@, filter: FilterModel::IsNull }),
    {
        MetadataFilterExpr::Field { field: owned(field), filter: MetadataFilter::IsNull }
    }

    pub fn is_not_null(field: &str) -> (r: MetadataFilterExpr)
        ensures
            r@ == (FilterExprModel::Field { field: field@, filter: FilterModel::IsNotNull }),
    {
        MetadataFilterExpr::Field { field: owned(field), filter: MetadataFilter::IsNotNull }
    }

    /// An `EXISTS (sql)` condition over the subquery `sql`, binding `params`.
    pub fn exists_query(sql: &str, params: Vec<Value>) -> (r: MetadataFilterExpr)
        ensures
            r@ == (FilterExprModel::Exists { sql: sql@, params: values_model(params@) }),
    {
        MetadataFilterExpr::Exists { sql: owned(sql), params }
    }

    pub fn custom(sql: &str, params: Vec<Value>) -> (r: MetadataFilterExpr)
        ensures
            r@ == (FilterExprModel::Custom { sql: sql@, params: values_model(params@) }),
    {
        MetadataFilterExpr::Custom { sql: owned(sql), params }
    }

    pub fn raw(sql: &str) -> (r: MetadataFilterExpr)
        ensures
            r@ == FilterExprModel::Raw(sql@),
    {
        MetadataFilterExpr::Raw(owned(sql))
    }

    pub fn and(filters: Vec<MetadataFilterExpr>) -> (r: MetadataFilterExpr)
        ensures
            r@ == FilterExprModel::And(filter_exprs_model(filters@)),
    {
        proof {
            lemma_filter_group_view(filters);
        }
        MetadataFilterExpr::And(filters)
    }

    pub fn or(filters: Vec<MetadataFilterExpr>) -> (r: MetadataFilterExpr)
        ensures
            r@ == FilterExprModel::Or(filter_exprs_model(filters@)),
    {
        proof {
            lemma_filter_group_view(filters);
        }
        MetadataFilterExpr::Or(filters)
    }

    pub fn not(filter: MetadataFilterExpr) -> (r: MetadataFilterExpr)
        ensures
            r@ == FilterExprModel::Not(Box::new(filter@)),
    {
        MetadataFilterExpr::Not(Box::new(filter))
    }
}

} // verus!
