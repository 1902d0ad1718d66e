//! The debug text of filter expressions and values: how a filter is written into the
//! catalog tables.
//!
//! The text follows the conventions of Rust's `{:?}`: strings quoted and escaped as
//! std's `Debug` for `str` writes them, variants named, struct variants as
//! `Name { field: value }`, lists as `[a, b]`.

use vstd::prelude::*;

use crate::metadata::filters::{
    lemma_filter_group_view, filter_exprs_model, FilterExprModel, FilterModel, MetadataFilter, MetadataFilterExpr,
};
use crate::value::{
    entry_keys, entries_model, key_order, key_positions, lemma_array_view, lemma_object_view, positions, positions_below,
    values_model, Value, ValueModel,
};

verus! {

/// The text std's `Debug` for `str` writes for `s`: `s` between double quotes, with the
/// characters that need it escaped.
pub uninterp spec fn str_debug(s: Seq<char>) -> Seq<char>;

/// A text quoted and escaped.
pub open spec fn debug_quoted(s: Seq<char>) -> Seq<char> {
    str_debug(s)
}

/// The debug text of a value.
pub open spec fn value_debug(v: ValueModel) -> Seq<char>
    decreases v, 0int,
{
    match v {
        ValueModel::Null => "Null"@,
        ValueModel::Bool(b) => "Bool("@ + (if b { "true"@ } else { "false"@ }) + ")"@,
        ValueModel::Number(t) => "Number("@ + t + ")"@,
        ValueModel::Text(s) => "String("@ + debug_quoted(s) + ")"@,
        ValueModel::Array(items) => "Array ["@ + values_debug(items, items.len() as int) + "]"@,
        ValueModel::Object(entries) => {
            let order = key_order(entry_keys(entries), entries.len() as int);
            "Object {"@ + entries_debug(entries, order, order.len() as int) + "}"@
        },
    }
}

/// The debug texts of the first `n` values, separated by `, `.
pub open spec fn values_debug(items: Seq<ValueModel>, n: int) -> Seq<char>
    decreases items, n,
{
    if n <= 0 || n > items.len() {
        Seq::empty()
    } else if n == 1 {
        value_debug(items[0])
    } else {
        values_debug(items, n - 1) + ", "@ + value_debug(items[n - 1])
    }
}

/// The debug texts `"key": value` of the entries at the first `n` positions of `order`,
/// separated by `, `.
pub open spec fn entries_debug(entries: Seq<(Seq<char>, ValueModel)>, order: Seq<int>, n: int) -> Seq<char>
    decreases entries, n,
{
    if n <= 0 || n > order.len() {
        Seq::empty()
    } else {
        let j = order[n - 1];
        let item = if 0 <= j < entries.len() {
            proof {
                assert(decreases_to!(entries => entries[j]));
                assert(decreases_to!(entries[j] => entries[j].1));
            }
            debug_quoted(entries[j].0) + ": "@ + value_debug(entries[j].1)
        } else {
            Seq::empty()
        };
        if n == 1 {
            item
        } else {
            entries_debug(entries, order, n - 1) + ", "@ + item
        }
    }
}

/// The debug text of a field condition.
pub open spec fn filter_debug(f: FilterModel) -> Seq<char> {
    match f {
        FilterModel::Eq(v) => "Eq("@ + value_debug(v) + ")"@,
        FilterModel::Ne(v) => "Ne("@ + value_debug(v) + ")"@,
        FilterModel::Gt(v) => "Gt("@ + value_debug(v) + ")"@,
        FilterModel::Gte(v) => "Gte("@ + value_debug(v) + ")"@,
        FilterModel::Lt(v) => "Lt("@ + value_debug(v) + ")"@,
        FilterModel::Lte(v) => "Lte("@ + value_debug(v) + ")"@,
        FilterModel::Like(s) => "Like("@ + debug_quoted(s) + ")"@,
        FilterModel::In(vs) => "In(["@ + values_debug(vs, vs.len() as int) + "])"@,
        FilterModel::Between { lower, upper } =>
            "Between { lower: "@ + value_debug(lower) + ", upper: "@ + value_debug(upper) + " }"@,
        FilterModel::IsNull => "IsNull"@,
        FilterModel::IsNotNull => "IsNotNull"@,
    }
}

/// The debug text of a filter expression.
pub open spec fn expr_debug(e: FilterExprModel) -> Seq<char>
    decreases e, 0int,
{
    match e {
        FilterExprModel::Field { field, filter } =>
            "Field { field: "@ + debug_quoted(field) + ", filter: "@ + filter_debug(filter) + " }"@,
        FilterExprModel::Exists { sql, params } =>
            "Exists { sql: "@ + debug_quoted(sql) + ", params: ["@ + values_debug(params, params.len() as int) + "] }"@,
        FilterExprModel::Custom { sql, params } =>
            "Custom { sql: "@ + debug_quoted(sql) + ", params: ["@ + values_debug(params, params.len() as int) + "] }"@,
        FilterExprModel::Raw(s) => "Raw("@ + debug_quoted(s) + ")"@,
        FilterExprModel::And(items) => "And(["@ + exprs_debug(items, items.len() as int) + "])"@,
        FilterExprModel::Or(items) => "Or(["@ + exprs_debug(items, items.len() as int) + "])"@,
        FilterExprModel::Not(inner) => "Not("@ + expr_debug(*inner) + ")"@,
    }
}

/// The debug texts of the first `n` expressions, separated by `, `.
pub open spec fn exprs_debug(items: Seq<FilterExprModel>, n: int) -> Seq<char>
    decreases items, n,
{
    if n <= 0 || n > items.len() {
        Seq::empty()
    } else if n == 1 {
        expr_debug(items[0])
    } else {
        exprs_debug(items, n - 1) + ", "@ + expr_debug(items[n - 1])
    }
}

/// The debug text of `s`.
///
/// Trusted: `format!("{:?}", s)` writes `s` as std's `Debug` for `str` does, which is a
/// function of `s` alone; it is named [`str_debug`].
#[verifier::external_body]
fn str_debug_text(s: &str) -> (r: String)
    ensures
        r@ == str_debug(s@),
{
    format!("{:?}", s)
}

/// Appends `s` quoted and escaped.
pub fn push_debug_quoted(out: &mut String, s: &str)
    ensures
        final(out)@ == old(out)@ + debug_quoted(s@),
{
    let quoted = str_debug_text(s);
    out.append(quoted.as_str());
}

/// Appends the debug text of a value.
pub fn push_value_debug(out: &mut String, v: &Value)
    ensures
        final(out)@ == old(out)@ + value_debug(v@),
    decreases v,
{
    match v {
        Value::Null => out.append("Null"),
        Value::Bool(b) => {
            out.append("Bool(");
            if *b {
                out.append("true");
            } else {
                out.append("false");
            }
            out.append(")");
        },
        Value::Number(t) => {
            out.append("Number(");
            out.append(t.as_str());
            out.append(")");
        },
        Value::String(s) => {
            out.append("String(");
            push_debug_quoted(out, s.as_str());
            out.append(")");
        },
        Value::Array(items) => {
            proof {
                lemma_array_view(*items);
            }
            let ghost m = values_model(items@);
            out.append("Array [");
            let ghost start = out@;
            let n = items.len();
            let mut i: usize = 0;
            while i < n
                invariant
                    n == items@.len(),
                    *v == Value::Array(*items),
                    m == values_model(items@),
                    i <= n,
                    out@ == start + values_debug(m, i as int),
                decreases n - i,
            {
                proof {
                    assert(decreases_to!(*items => items[i as int]));
                    assert(decreases_to!(*v => (*v)->Array_0));
                    assert(decreases_to!(*v => items[i as int]));
                    assert(m[i as int] == items@[i as int]@);
                }
                if i > 0 {
                    out.append(", ");
                }
                push_value_debug(out, &items[i]);
                i = i + 1;
            }
            out.append("]");
        },
        Value::Object(entries) => {
            proof {
                lemma_object_view(*entries);
            }
            let ghost m = entries_model(entries@);
            let order = key_positions(entries);
            let ghost ord = positions(order@);
            out.append("Object {");
            let ghost start = out@;
            let n = order.len();
            let mut i: usize = 0;
            while i < n
                invariant
                    n == order@.len(),
                    *v == Value::Object(*entries),
                    m == entries_model(entries@),
                    ord == positions(order@),
                    positions_below(ord, entries@.len() as int),
                    i <= n,
                    out@ == start + entries_debug(m, ord, i as int),
                decreases n - i,
            {
                let j = order[i];
                proof {
                    assert(0 <= ord[i as int] < entries@.len());
                    assert(ord[i as int] == j as int);
                    assert(decreases_to!(*entries => entries[j as int]));
                    assert(decreases_to!(*v => (*v)->Object_0));
                    assert(decreases_to!(*v => entries[j as int].1));
                    assert(m[j as int] == (entries@[j as int].0@, entries@[j as int].1@));
                }
                if i > 0 {
                    out.append(", ");
                }
                push_debug_quoted(out, entries[j].0.as_str());
                out.append(": ");
                push_value_debug(out, &entries[j].1);
                i = i + 1;
            }
            out.append("}");
        },
    }
}

fn push_values_debug(out: &mut String, items: &Vec<Value>)
    ensures
        final(out)@ == old(out)@ + values_debug(values_model(items@), items@.len() as int),
{
    let ghost m = values_model(items@);
    let ghost start = out@;
    let n = items.len();
    let mut i: usize = 0;
    while i < n
        invariant
            n == items@.len(),
            m == values_model(items@),
            i <= n,
            out@ == start + values_debug(m, i as int),
        decreases n - i,
    {
        assert(m[i as int] == items@[i as int]@);
        if i > 0 {
            out.append(", ");
        }
        push_value_debug(out, &items[i]);
        i = i + 1;
    }
}

fn push_filter_debug(out: &mut String, f: &MetadataFilter)
    ensures
        final(out)@ == old(out)@ + filter_debug(f@),
{
    match f {
        MetadataFilter::Eq(v) => { out.append("Eq("); push_value_debug(out, v); out.append(")"); },
        MetadataFilter::Ne(v) => { out.append("Ne("); push_value_debug(out, v); out.append(")"); },
        MetadataFilter::Gt(v) => { out.append("Gt("); push_value_debug(out, v); out.append(")"); },
        MetadataFilter::Gte(v) => { out.append("Gte("); push_value_debug(out, v); out.append(")"); },
        MetadataFilter::Lt(v) => { out.append("Lt("); push_value_debug(out, v); out.append(")"); },
        MetadataFilter::Lte(v) => { out.append("Lte("); push_value_debug(out, v); out.append(")"); },
        MetadataFilter::Like(s) => { out.append("Like("); push_debug_quoted(out, s.as_str()); out.append(")"); },
        MetadataFilter::In(vs) => { out.append("In(["); push_values_debug(out, vs); out.append("])"); },
        MetadataFilter::Between { lower, upper } => {
            out.append("Between { lower: ");
            push_value_debug(out, lower);
            out.append(", upper: ");
            push_value_debug(out, upper);
            out.append(" }");
        },
        MetadataFilter::IsNull => out.append("IsNull"),
        MetadataFilter::IsNotNull => out.append("IsNotNull"),
    }
}

/// Appends the debug text of a filter expression.
pub fn push_expr_debug(out: &mut String, e: &MetadataFilterExpr)
    ensures
        final(out)@ == old(out)@ + expr_debug(e@),
    decreases e,
{
    match e {
        MetadataFilterExpr::Field { field, filter } => {
            out.append("Field { field: ");
            push_debug_quoted(out, field.as_str());
            out.append(", filter: ");
            push_filter_debug(out, filter);
            out.append(" }");
        },
        MetadataFilterExpr::Exists { sql, params } => {
            out.append("Exists { sql: ");
            push_debug_quoted(out, sql.as_str());
            out.append(", params: [");
            push_values_debug(out, params);
            out.append("] }");
        },
        MetadataFilterExpr::Custom { sql, params } => {
            out.append("Custom { sql: ");
            push_debug_quoted(out, sql.as_str());
            out.append(", params: [");
            push_values_debug(out, params);
            out.append("] }");
        },
        MetadataFilterExpr::Raw(s) => {
            out.append("Raw(");
            push_debug_quoted(out, s.as_str());
            out.append(")");
        },
        MetadataFilterExpr::And(items) => {
            proof {
                lemma_filter_group_view(*items);
            }
            out.append("And([");
            push_exprs_debug(out, e, items);
            out.append("])");
        },
        MetadataFilterExpr::Or(items) => {
            proof {
                lemma_filter_group_view(*items);
            }
            out.append("Or([");
            push_exprs_debug(out, e, items);
            out.append("])");
        },
        MetadataFilterExpr::Not(inner) => {
            proof {
                assert(decreases_to!(*e => (*e)->Not_0));
            }
            out.append("Not(");
            push_expr_debug(out, &**inner);
            out.append(")");
        },
    }
}

fn push_exprs_debug(out: &mut String, e: &MetadataFilterExpr, items: &Vec<MetadataFilterExpr>)
    requires
        *e == MetadataFilterExpr::And(*items) || *e == MetadataFilterExpr::Or(*items),
    ensures
        final(out)@ == old(out)@ + exprs_debug(filter_exprs_model(items@), items@.len() as int),
    decreases e, 0int,
{
    let ghost m = filter_exprs_model(items@);
    let ghost start = out@;
    let n = items.len();
    let mut i: usize = 0;
    while i < n
        invariant
            n == items@.len(),
            *e == MetadataFilterExpr::And(*items) || *e == MetadataFilterExpr::Or(*items),
            m == filter_exprs_model(items@),
            i <= n,
            out@ == start + exprs_debug(m, i as int),
        decreases n - i,
    {
        proof {
            assert(decreases_to!(*items => items[i as int]));
            if *e == MetadataFilterExpr::And(*items) {
                assert(decreases_to!(*e => (*e)->And_0));
            } else {
                assert(decreases_to!(*e => (*e)->Or_0));
            }
            assert(decreases_to!(*e => items[i as int]));
            assert(m[i as int] == items@[i as int]@);
        }
        if i > 0 {
            out.append(", ");
        }
        push_expr_debug(out, &items[i]);
        i = i + 1;
    }
}

/// The debug text of a filter expression.
pub fn filter_expr_text(filter: &MetadataFilterExpr) -> (r: String)
    ensures
        r@ == expr_debug(filter@),
{
    let mut s = String::new();
    push_expr_debug(&mut s, filter);
    s
}

} // verus!
