//! How the driver turns a field value into an assigned value.

use vstd::prelude::*;

use crate::engine::builders::{SqlValue, SqlValueModel};
use crate::metadata::field::FieldModel;
use crate::metadata::MetadataField;
use crate::text::{chars_of, copy_string, escape_quotes, push_escaped_quotes};
use crate::value::{Value, ValueModel};

verus! {

/// Whether `c` is an ASCII decimal digit.
pub open spec fn is_ascii_digit(c: char) -> bool {
    '0' <= c && c <= '9'
}

/// Whether `s` is made of decimal digits only and does not begin with `0` (the empty text
/// qualifies).
pub open spec fn is_plain_number(s: Seq<char>) -> bool {
    !(s.len() > 0 && s[0] == '0') && forall|i: int| 0 <= i < s.len() ==> is_ascii_digit(#[trigger] s[i])
}

/// The number that a text of decimal digits stands for.
pub open spec fn digits_value(s: Seq<char>) -> nat
    decreases s.len(),
{
    if s.len() == 0 { 0 } else { digits_value(s.drop_last()) * 10 + ((s.last() as int) - ('0' as int)) as nat }
}

/// Whether a value is a text of digits that the driver turns into a number, and that
/// number is larger than the largest `i64` (the driver's number parser refuses it).
pub open spec fn number_overflows(v: ValueModel) -> bool {
    match v {
        ValueModel::Text(t) => t.len() > 0 && is_plain_number(t) && digits_value(t) > i64::MAX,
        _ => false,
    }
}

/// The text `Y` or `N` a flag is stored as.
pub open spec fn flag_text(b: bool) -> Seq<char> {
    if b { "Y"@ } else { "N"@ }
}

/// What a field's value is written as: a flag as `Y`/`N`; an empty text as null; a text
/// of digits (not beginning with `0`) as a number; another text of a lookup field as the
/// id of the row of the lookup table whose display column holds it; any other value as
/// it is.
pub open spec fn assignment_value(f: FieldModel, v: ValueModel) -> SqlValueModel {
    match v {
        ValueModel::Null => SqlValueModel::Param(ValueModel::Null),
        ValueModel::Bool(b) => SqlValueModel::Param(ValueModel::Text(flag_text(b))),
        ValueModel::Number(n) => SqlValueModel::Param(ValueModel::Number(n)),
        ValueModel::Text(t) => {
            if t.len() == 0 {
                SqlValueModel::Param(ValueModel::Null)
            } else if is_plain_number(t) {
                SqlValueModel::Param(ValueModel::Number(t))
            } else {
                match f.lookup {
                    Some(l) => SqlValueModel::Raw(
                        "(select id from "@ + l.table + " where "@ + l.display_column + " = '"@ + escape_quotes(t) + "')"@,
                    ),
                    None => SqlValueModel::Param(ValueModel::Text(t)),
                }
            }
        },
        other => SqlValueModel::Param(other),
    }
}

/// Whether `t` is a non-empty run of decimal digits.
pub open spec fn all_digits(t: Seq<char>) -> bool {
    t.len() > 0 && forall|i: int| 0 <= i < t.len() ==> is_ascii_digit(#[trigger] t[i])
}

proof fn lemma_digits_prefix(t: Seq<char>, k: int)
    requires
        0 <= k <= t.len(),
        forall|i: int| 0 <= i < t.len() ==> is_ascii_digit(#[trigger] t[i]),
    ensures
        digits_value(t.take(k)) <= digits_value(t),
    decreases t.len() - k,
{
    if k == t.len() {
        assert(t.take(k) =~= t);
    } else {
        lemma_digits_prefix(t, k + 1);
        assert(t.take(k + 1).drop_last() =~= t.take(k));
        assert(t.take(k + 1).last() == t[k]);
        assert(is_ascii_digit(t[k]));
    }
}

/// The number that the digits `t` stand for, when they are all digits and it fits in a
/// `u64`.
pub(crate) fn digits_u64(t: &str) -> (r: Option<u64>)
    ensures
        match r {
            Some(v) => all_digits(t@) && v == digits_value(t@),
            None => !(all_digits(t@) && digits_value(t@) <= u64::MAX),
        },
{
    let chars = chars_of(t);
    let n = chars.len();
    if n == 0 {
        return None;
    }
    let mut acc: u64 = 0;
    let mut i: usize = 0;
    assert(t@.take(0) =~= Seq::<char>::empty());
    while i < n
        invariant
            n == t@.len(),
            chars@ == t@,
            i <= n,
            forall|j: int| 0 <= j < i ==> is_ascii_digit(#[trigger] t@[j]),
            acc == digits_value(t@.take(i as int)),
        decreases n - i,
    {
        let c = chars[i];
        if !('0' <= c && c <= '9') {
            return None;
        }
        let d = (c as u32 - '0' as u32) as u64;
        assert(t@.take(i + 1).drop_last() =~= t@.take(i as int));
        assert(t@.take(i + 1).last() == c);
        let next = match acc.checked_mul(10) {
            Some(m) => m.checked_add(d),
            None => None,
        };
        match next {
            Some(v) => {
                acc = v;
            },
            None => {
                proof {
                    if all_digits(t@) {
                        lemma_digits_prefix(t@, i + 1);
                    }
                }
                return None;
            },
        }
        i = i + 1;
    }
    assert(t@.take(n as int) =~= t@);
    Some(acc)
}

/// Whether a value is a text of digits too large for an `i64`.
pub fn number_overflows_of(value: &Value) -> (r: bool)
    ensures
        r == number_overflows(value@),
{
    match value {
        Value::String(t) => {
            if t.unicode_len() == 0 || !is_numeric_string_without_leading_zero(t.as_str()) {
                false
            } else {
                match digits_u64(t.as_str()) {
                    Some(v) => v > 9223372036854775807,
                    None => true,
                }
            }
        },
        _ => false,
    }
}

/// Whether `value` is a text of digits that does not begin with `0`.
pub fn is_numeric_string_without_leading_zero(value: &str) -> (r: bool)
    ensures
        r == is_plain_number(value@),
{
    let chars = chars_of(value);
    let n = chars.len();
    if n > 0 && chars[0] == '0' {
        return false;
    }
    let mut i: usize = 0;
    while i < n
        invariant
            n == chars@.len(),
            chars@ == value@,
            i <= n,
            forall|j: int| 0 <= j < i ==> is_ascii_digit(#[trigger] value@[j]),
        decreases n - i,
    {
        let c = chars[i];
        if c < '0' || c > '9' {
            assert(!is_ascii_digit(value@[i as int]));
            return false;
        }
        i = i + 1;
    }
    true
}

/// What a field's value is written as.
pub fn assignment_sql(field: &MetadataField, value: Value) -> (r: SqlValue)
    requires
        !number_overflows(value@),
    ensures
        crate::engine::builders::sql_value_view(r) == assignment_value(field@, value@),
{
    match value {
        Value::Null => SqlValue::Param(Value::Null),
        Value::Bool(flag) => SqlValue::Param(Value::String(if flag { "Y".to_owned() } else { "N".to_owned() })),
        Value::Number(number) => SqlValue::Param(Value::Number(number)),
        Value::String(text) => {
            if text.unicode_len() == 0 {
                SqlValue::Param(Value::Null)
            } else if is_numeric_string_without_leading_zero(text.as_str()) {
                SqlValue::Param(Value::Number(text))
            } else {
                match &field.lookup {
                    Some(lookup) => {
                        let mut sql = "(select id from ".to_owned();
                        sql.append(lookup.table.as_str());
                        sql.append(" where ");
                        sql.append(lookup.display_column.as_str());
                        sql.append(" = '");
                        push_escaped_quotes(&mut sql, text.as_str());
                        sql.append("')");
                        SqlValue::Raw(sql)
                    },
                    None => SqlValue::Param(Value::String(text)),
                }
            }
        },
        other => SqlValue::Param(other),
    }
}

} // verus!
