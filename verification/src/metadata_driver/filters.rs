//! The predicates a field value filters by.

use vstd::prelude::*;

use super::helpers::flag_text;
use crate::engine::query::{Predicate, PredicateModel, predicates_model};
use crate::portal_provider::helpers::{sanitize_filter_value, sanitized};
use crate::text::{
    copy_string, has_char, contains_char, join, join_strings, owned, remove_char, split_whitespace_words,
    split_words, starts_with_char, str_eq, strings_view, strip_leading, trim_leading, without_char,
};
use crate::value::{lemma_object_view, values_model, Value, ValueModel};

verus! {

/// A search term: `%term%`.
pub open spec fn like_term() -> spec_fn(Seq<char>) -> Seq<char> {
    |t: Seq<char>| "%"@ + t + "%"@
}

/// The clause `target LIKE ?`, whatever the term.
pub open spec fn like_clause(target: Seq<char>) -> spec_fn(Seq<char>) -> Seq<char> {
    |t: Seq<char>| target + " LIKE ?"@
}

/// A text value.
pub open spec fn text_value() -> spec_fn(Seq<char>) -> ValueModel {
    |t: Seq<char>| ValueModel::Text(t)
}

/// The predicates of a text filter on `target`. The text is sanitized and its double
/// quotes dropped; `=x` asks for equality with `x`; a text with a space asks for any of
/// its words as a `LIKE` pattern `%word%`; any other text asks for equality.
pub open spec fn string_predicates_of(target: Seq<char>, value: Seq<char>) -> Seq<PredicateModel> {
    let s = without_char(sanitized(value), '"');
    if s.len() > 0 && s[0] == '=' {
        seq![PredicateModel::Eq { field: target, value: ValueModel::Text(strip_leading(s, '=')) }]
    } else if has_char(s, ' ') {
        let terms = split_words(s).map_values(like_term());
        seq![PredicateModel::Custom {
            sql: "("@ + join(terms.map_values(like_clause(target)), " OR "@) + ")"@,
            params: terms.map_values(text_value()),
        }]
    } else {
        seq![PredicateModel::Eq { field: target, value: ValueModel::Text(s) }]
    }
}

/// The value an object holds for `key`: that of its last entry of `key`, as in the map
/// built by inserting the entries in order.
pub open spec fn object_get(entries: Seq<(Seq<char>, ValueModel)>, key: Seq<char>) -> Option<ValueModel>
    decreases entries.len(),
{
    if entries.len() == 0 {
        None
    } else if entries.last().0 == key {
        Some(entries.last().1)
    } else {
        object_get(entries.drop_last(), key)
    }
}

/// The predicates of an object filter on `target`: `{"type": "between", "begin": b,
/// "end": e}` asks for `target >= b` and `target <= e` (each when given); any other
/// object asks for nothing.
pub open spec fn object_predicates_of(target: Seq<char>, entries: Seq<(Seq<char>, ValueModel)>) -> Seq<PredicateModel> {
    if object_get(entries, "type"@) == Some(ValueModel::Text("between"@)) {
        (match object_get(entries, "begin"@) {
            Some(b) => seq![PredicateModel::Gte { field: target, value: b }],
            None => Seq::empty(),
        }) + (match object_get(entries, "end"@) {
            Some(e) => seq![PredicateModel::Lte { field: target, value: e }],
            None => Seq::empty(),
        })
    } else {
        Seq::empty()
    }
}

/// The predicates of a field value on `target`: null asks for nothing; a flag for `Y` or
/// `N`; a number for equality; a text as [`string_predicates_of`] says; an array for
/// membership; an object as [`object_predicates_of`] says.
pub open spec fn value_predicates_of(target: Seq<char>, v: ValueModel) -> Seq<PredicateModel> {
    match v {
        ValueModel::Null => Seq::empty(),
        ValueModel::Bool(b) => seq![PredicateModel::Eq { field: target, value: ValueModel::Text(flag_text(b)) }],
        ValueModel::Number(n) => seq![PredicateModel::Eq { field: target, value: ValueModel::Number(n) }],
        ValueModel::Text(s) => string_predicates_of(target, s),
        ValueModel::Array(items) => seq![PredicateModel::In { field: target, values: items }],
        ValueModel::Object(entries) => object_predicates_of(target, entries),
    }
}

/// The predicates of a text filter on `target`.
pub fn string_predicates(target: &str, value: &str) -> (r: Vec<Predicate>)
    ensures
        predicates_model(r@) == string_predicates_of(target@, value@),
{
    let cleaned = sanitize_filter_value(value);
    let s = remove_char(cleaned.as_str(), '"');
    let mut out: Vec<Predicate> = Vec::new();
    if starts_with_char(s.as_str(), '=') {
        let t = trim_leading(s.as_str(), '=');
        out.push(Predicate::eq(target, Value::String(t)));
    } else if contains_char(s.as_str(), ' ') {
        let words = split_whitespace_words(s.as_str());
        let ghost terms = split_words(s@).map_values(like_term());
        let mut clauses: Vec<String> = Vec::new();
        let mut params: Vec<Value> = Vec::new();
        let n = words.len();
        let mut i: usize = 0;
        while i < n
            invariant
                n == words@.len(),
                strings_view(words@) == split_words(s@),
                terms == split_words(s@).map_values(like_term()),
                i <= n,
                strings_view(clauses@) == terms.take(i as int).map_values(like_clause(target@)),
                values_model(params@) == terms.take(i as int).map_values(text_value()),
            decreases n - i,
        {
            let mut term = "%".to_owned();
            term.append(words[i].as_str());
            term.append("%");
            assert(term@ == terms[i as int]);
            let mut clause = owned(target);
            clause.append(" LIKE ?");
            let ghost bc = clauses@;
            let ghost bp = params@;
            clauses.push(clause);
            params.push(Value::String(term));
            proof {
                assert(strings_view(clauses@) =~= strings_view(bc).push(clause@));
                assert(values_model(params@) =~= values_model(bp).push(ValueModel::Text(terms[i as int])));
                assert(terms.take(i + 1).map_values(like_clause(target@))
                    =~= terms.take(i as int).map_values(like_clause(target@)).push(like_clause(target@)(terms[i as int])));
                assert(terms.take(i + 1).map_values(text_value())
                    =~= terms.take(i as int).map_values(text_value()).push(text_value()(terms[i as int])));
            }
            i = i + 1;
        }
        proof {
            assert(terms.take(n as int) =~= terms);
        }
        let mut sql = "(".to_owned();
        let joined = join_strings(&clauses, " OR ");
        sql.append(joined.as_str());
        sql.append(")");
        out.push(Predicate::custom(sql.as_str(), params));
    } else {
        out.push(Predicate::eq(target, Value::String(s)));
    }
    proof {
        assert(predicates_model(out@) =~= string_predicates_of(target@, value@));
    }
    out
}

/// The value an object holds for `key`.
pub(crate) fn object_value<'a>(entries: &'a Vec<(String, Value)>, key: &str) -> (r: Option<&'a Value>)
    ensures
        match r {
            Some(v) => object_get(crate::value::entries_model(entries@), key@) == Some(v@),
            None => object_get(crate::value::entries_model(entries@), key@) is None,
        },
{
    let ghost m = crate::value::entries_model(entries@);
    let mut i: usize = entries.len();
    assert(m.take(i as int) =~= m);
    while i > 0
        invariant
            i <= entries@.len(),
            m == crate::value::entries_model(entries@),
            object_get(m, key@) == object_get(m.take(i as int), key@),
        decreases i,
    {
        assert(m.take(i as int).drop_last() =~= m.take(i - 1));
        assert(m.take(i as int).last() == m[i - 1]);
        if str_eq(entries[i - 1].0.as_str(), key) {
            return Some(&entries[i - 1].1);
        }
        i = i - 1;
    }
    None
}

/// The predicates of an object filter on `target`.
pub fn object_predicates(target: &str, object: &Vec<(String, Value)>) -> (r: Vec<Predicate>)
    ensures
        predicates_model(r@) == object_predicates_of(target@, crate::value::entries_model(object@)),
{
    let mut list: Vec<Predicate> = Vec::new();
    let is_between = match object_value(object, "type") {
        Some(Value::String(t)) => str_eq(t.as_str(), "between"),
        _ => false,
    };
    if is_between {
        match object_value(object, "begin") {
            Some(begin) => list.push(Predicate::gte(target, begin.duplicate())),
            None => {},
        }
        match object_value(object, "end") {
            Some(end) => list.push(Predicate::lte(target, end.duplicate())),
            None => {},
        }
    }
    proof {
        assert(predicates_model(list@) =~= object_predicates_of(target@, crate::value::entries_model(object@)));
    }
    list
}

/// The predicates of a field value on `target`.
pub fn value_predicates(target: &str, value: &Value) -> (r: Vec<Predicate>)
    ensures
        predicates_model(r@) == value_predicates_of(target@, value@),
{
    let mut out: Vec<Predicate> = Vec::new();
    match value {
        Value::Null => {},
        Value::Bool(flag) => {
            out.push(Predicate::eq(target, Value::String(if *flag { "Y".to_owned() } else { "N".to_owned() })));
        },
        Value::Number(number) => {
            out.push(Predicate::eq(target, Value::Number(copy_string(number))));
        },
        Value::String(text) => {
            return string_predicates(target, text.as_str());
        },
        Value::Array(items) => {
            proof {
                crate::value::lemma_array_view(*items);
            }
            out.push(Predicate::in_list(target, crate::value::duplicate_values(items)));
        },
        Value::Object(entries) => {
            proof {
                lemma_object_view(*entries);
            }
            return object_predicates(target, entries);
        },
    }
    proof {
        assert(predicates_model(out@) =~= value_predicates_of(target@, value@));
    }
    out
}

} // verus!
