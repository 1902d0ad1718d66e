//! The value type carried as query parameters and metadata payloads.

use vstd::prelude::*;

use crate::text::{chars_of, copy_string, i64_text, int_text, owned, str_eq};

verus! {

/// A JSON-like value: what a query binds as a parameter or a metadata row stores.
///
/// A number is held by its decimal text (`30`, `-7`, `30.13`), exactly as it is written
/// into SQL or handed to a database driver. An object stands for the JSON map built by
/// inserting its entries in order: its keys in the order of strings, and a repeated key
/// meaning its last entry.
#[derive(Debug, PartialEq)]
pub enum Value {
    Null,
    Bool(bool),
    Number(String),
    String(String),
    Array(Vec<Value>),
    Object(Vec<(String, Value)>),
}

/// The mathematical model of a [`Value`].
pub enum ValueModel {
    Null,
    Bool(bool),
    Number(Seq<char>),
    Text(Seq<char>),
    Array(Seq<ValueModel>),
    Object(Seq<(Seq<char>, ValueModel)>),
}

pub open spec fn value_view(v: Value) -> ValueModel
    decreases v, 0int,
{
    match v {
        Value::Null => ValueModel::Null,
        Value::Bool(b) => ValueModel::Bool(b),
        Value::Number(n) => ValueModel::Number(n@),
        Value::String(s) => ValueModel::Text(s@),
        Value::Array(items) => ValueModel::Array(values_from(items@, 0)),
        Value::Object(items) => ValueModel::Object(entries_from(items@, 0)),
    }
}

/// The models of `items[i..]`.
pub open spec fn values_from(items: Seq<Value>, i: int) -> Seq<ValueModel>
    decreases items, items.len() - i,
{
    if 0 <= i < items.len() {
        seq![value_view(items[i])] + values_from(items, i + 1)
    } else {
        Seq::empty()
    }
}

/// The models of the entries `items[i..]`.
pub open spec fn entries_from(items: Seq<(String, Value)>, i: int) -> Seq<(Seq<char>, ValueModel)>
    decreases items, items.len() - i,
{
    if 0 <= i < items.len() {
        seq![(items[i].0@, value_view(items[i].1))] + entries_from(items, i + 1)
    } else {
        Seq::empty()
    }
}

impl View for Value {
    type V = ValueModel;

    open spec fn view(&self) -> ValueModel {
        value_view(*self)
    }
}

/// The models of a sequence of values.
pub open spec fn values_model(items: Seq<Value>) -> Seq<ValueModel> {
    items.map_values(|v: Value| value_view(v))
}

/// The models of the entries of an object.
pub open spec fn entries_model(items: Seq<(String, Value)>) -> Seq<(Seq<char>, ValueModel)> {
    items.map_values(|e: (String, Value)| (e.0@, value_view(e.1)))
}

pub proof fn lemma_values_from(s: Seq<Value>, i: int)
    requires
        0 <= i <= s.len(),
    ensures
        values_from(s, i) == values_model(s).subrange(i, s.len() as int),
    decreases s.len() - i,
{
    if i < s.len() {
        lemma_values_from(s, i + 1);
        assert(values_from(s, i) =~= values_model(s).subrange(i, s.len() as int));
    } else {
        assert(values_from(s, i) =~= values_model(s).subrange(i, s.len() as int));
    }
}

pub proof fn lemma_entries_from(s: Seq<(String, Value)>, i: int)
    requires
        0 <= i <= s.len(),
    ensures
        entries_from(s, i) == entries_model(s).subrange(i, s.len() as int),
    decreases s.len() - i,
{
    if i < s.len() {
        lemma_entries_from(s, i + 1);
        assert(entries_from(s, i) =~= entries_model(s).subrange(i, s.len() as int));
    } else {
        assert(entries_from(s, i) =~= entries_model(s).subrange(i, s.len() as int));
    }
}

/// The model of an array is the sequence of the models of its items.
pub proof fn lemma_array_view(items: Vec<Value>)
    ensures
        Value::Array(items)@ == ValueModel::Array(values_model(items@)),
{
    lemma_values_from(items@, 0);
    assert(values_model(items@).subrange(0, items@.len() as int) =~= values_model(items@));
}

/// The model of an object is the sequence of the models of its entries.
pub proof fn lemma_object_view(items: Vec<(String, Value)>)
    ensures
        Value::Object(items)@ == ValueModel::Object(entries_model(items@)),
{
    lemma_entries_from(items@, 0);
    assert(entries_model(items@).subrange(0, items@.len() as int) =~= entries_model(items@));
}

impl Clone for Value {
    fn clone(&self) -> (r: Value)
        ensures
            r@ == self@,
    {
        self.duplicate()
    }
}

impl Value {
    /// The number `n`.
    pub fn from_i64(n: i64) -> (r: Value)
        ensures
            r@ == ValueModel::Number(int_text(n as int)),
    {
        Value::Number(i64_text(n))
    }

    /// The boolean `b`.
    pub fn from_bool(b: bool) -> (r: Value)
        ensures
            r@ == ValueModel::Bool(b),
    {
        Value::Bool(b)
    }

    /// The text `s`.
    pub fn text(s: &str) -> (r: Value)
        ensures
            r@ == ValueModel::Text(s@),
    {
        Value::String(owned(s))
    }

    /// The number whose decimal text is `digits` (such as `30.13`).
    pub fn number_text(digits: &str) -> (r: Value)
        ensures
            r@ == ValueModel::Number(digits@),
    {
        Value::Number(owned(digits))
    }

    /// A copy of this value.
    pub fn duplicate(&self) -> (r: Value)
        ensures
            r@ == self@,
        decreases self,
    {
        match self {
            Value::Null => Value::Null,
            Value::Bool(b) => Value::Bool(*b),
            Value::Number(n) => Value::Number(copy_string(n)),
            Value::String(t) => Value::String(copy_string(t)),
            Value::Array(items) => {
                let mut out: Vec<Value> = Vec::new();
                let n = items.len();
                let mut i: usize = 0;
                while i < n
                    invariant
                        n == items@.len(),
                        *self == Value::Array(*items),
                        i <= n,
                        out@.len() == i,
                        forall|j: int| 0 <= j < i ==> value_view(#[trigger] out@[j]) == value_view(items@[j]),
                    decreases n - i,
                {
                    proof {
                        assert(decreases_to!(*items => items[i as int]));
                        assert(decreases_to!(*self => (*self)->Array_0));
                        assert(decreases_to!(*self => items[i as int]));
                    }
                    let v = items[i].duplicate();
                    out.push(v);
                    i = i + 1;
                }
                proof {
                    lemma_array_view(*items);
                    lemma_array_view(out);
                    assert(values_model(out@) =~= values_model(items@));
                }
                Value::Array(out)
            },
            Value::Object(entries) => {
                let mut out: Vec<(String, Value)> = Vec::new();
                let n = entries.len();
                let mut i: usize = 0;
                while i < n
                    invariant
                        n == entries@.len(),
                        *self == Value::Object(*entries),
                        i <= n,
                        out@.len() == i,
                        forall|j: int| 0 <= j < i ==> #[trigger] out@[j].0@ == entries@[j].0@
                            && value_view(out@[j].1) == value_view(entries@[j].1),
                    decreases n - i,
                {
                    proof {
                        assert(decreases_to!(*entries => entries[i as int]));
                        assert(decreases_to!(*self => (*self)->Object_0));
                        assert(decreases_to!(*self => entries[i as int].1));
                    }
                    let key = copy_string(&entries[i].0);
                    let v = entries[i].1.duplicate();
                    out.push((key, v));
                    i = i + 1;
                }
                proof {
                    lemma_object_view(*entries);
                    lemma_object_view(out);
                    assert(entries_model(out@) =~= entries_model(entries@));
                }
                Value::Object(out)
            },
        }
    }
}

/// Copies of all `items`, in order.
pub fn duplicate_values(items: &Vec<Value>) -> (r: Vec<Value>)
    ensures
        values_model(r@) == values_model(items@),
{
    let mut out: Vec<Value> = Vec::new();
    let n = items.len();
    let mut i: usize = 0;
    while i < n
        invariant
            n == items@.len(),
            i <= n,
            out@.len() == i,
            values_model(out@) == values_model(items@.take(i as int)),
        decreases n - i,
    {
        let v = items[i].duplicate();
        out.push(v);
        proof {
            let t = items@.take(i + 1);
            assert(t =~= items@.take(i as int).push(items@[i as int]));
            assert(value_view(v) == value_view(items@[i as int]));
            assert(out@.len() == i + 1);
            assert(t.len() == i + 1);
            assert(values_model(out@).len() == out@.len());
            assert(values_model(out@).len() == values_model(t).len());
            assert forall|j: int| 0 <= j < out@.len() implies values_model(out@)[j] == values_model(t)[j] by {
                if j < i {
                    assert(values_model(out@)[j] == value_view(out@[j]));
                    assert(values_model(items@.take(i as int))[j] == value_view(items@[j]));
                } else {
                    assert(out@[j] == v);
                }
            }
            assert(values_model(out@) =~= values_model(t));
        }
        i = i + 1;
    }
    proof {
        assert(items@.take(n as int) =~= items@);
    }
    out
}


/// Whether `a` comes before `b` in the order of strings: by the first character that
/// differs, compared by code point, a prefix coming first.
pub open spec fn key_less(a: Seq<char>, b: Seq<char>) -> bool
    decreases a.len(),
{
    if a.len() == 0 {
        b.len() > 0
    } else if b.len() == 0 {
        false
    } else if a[0] != b[0] {
        a[0] < b[0]
    } else {
        key_less(a.drop_first(), b.drop_first())
    }
}

/// The keys of entries.
pub open spec fn entry_keys<V>(entries: Seq<(Seq<char>, V)>) -> Seq<Seq<char>> {
    entries.map_values(|e: (Seq<char>, V)| e.0)
}

/// `order`, positions of entries kept in key order, with the entry at `i` put in: in
/// place of the entry of the same key, else before the first greater key.
pub open spec fn placed(keys: Seq<Seq<char>>, order: Seq<int>, i: int) -> Seq<int>
    decreases order.len(),
{
    if order.len() == 0 {
        seq![i]
    } else if keys[order[0]] == keys[i] {
        seq![i] + order.drop_first()
    } else if key_less(keys[i], keys[order[0]]) {
        seq![i] + order
    } else {
        seq![order[0]] + placed(keys, order.drop_first(), i)
    }
}

/// The positions of the first `n` entries as a map holds them: in key order, a repeated
/// key keeping its last entry.
pub open spec fn key_order(keys: Seq<Seq<char>>, n: int) -> Seq<int>
    decreases n,
{
    if n <= 0 {
        Seq::empty()
    } else {
        placed(keys, key_order(keys, n - 1), n - 1)
    }
}

/// Whether every position in `order` is below `n`.
pub open spec fn positions_below(order: Seq<int>, n: int) -> bool {
    forall|k: int| 0 <= k < order.len() ==> 0 <= #[trigger] order[k] < n
}

proof fn lemma_placed_below(keys: Seq<Seq<char>>, order: Seq<int>, i: int, n: int)
    requires
        positions_below(order, n),
        0 <= i < n,
    ensures
        positions_below(placed(keys, order, i), n),
    decreases order.len(),
{
    if order.len() > 0 {
        assert(positions_below(order.drop_first(), n)) by {
            assert forall|k: int| 0 <= k < order.drop_first().len() implies 0 <= #[trigger] order.drop_first()[k] < n by {
                assert(order.drop_first()[k] == order[k + 1]);
            }
        }
        lemma_placed_below(keys, order.drop_first(), i, n);
    }
}

/// The positions in key order lie among the entries.
pub proof fn lemma_key_order_below(keys: Seq<Seq<char>>, n: int)
    requires
        0 <= n,
    ensures
        positions_below(key_order(keys, n), n),
    decreases n,
{
    if n > 0 {
        lemma_key_order_below(keys, n - 1);
        assert(positions_below(key_order(keys, n - 1), n));
        lemma_placed_below(keys, key_order(keys, n - 1), n - 1, n);
    }
}

/// The positions as integers.
pub open spec fn positions(order: Seq<usize>) -> Seq<int> {
    order.map_values(|j: usize| j as int)
}

/// Whether `a` comes before `b` in the order of strings.
pub fn key_before(a: &str, b: &str) -> (r: bool)
    ensures
        r == key_less(a@, b@),
{
    let x = chars_of(a);
    let y = chars_of(b);
    let mut k: usize = 0;
    assert(a@.skip(0) =~= a@);
    assert(b@.skip(0) =~= b@);
    while k < x.len() && k < y.len() && x[k] == y[k]
        invariant
            x@ == a@,
            y@ == b@,
            k <= x@.len(),
            k <= y@.len(),
            key_less(a@, b@) == key_less(a@.skip(k as int), b@.skip(k as int)),
        decreases x@.len() - k,
    {
        assert(a@.skip(k as int).drop_first() =~= a@.skip(k + 1));
        assert(b@.skip(k as int).drop_first() =~= b@.skip(k + 1));
        k = k + 1;
    }
    let ghost sa = a@.skip(k as int);
    let ghost sb = b@.skip(k as int);
    if k == x.len() {
        assert(sa.len() == 0);
        k < y.len()
    } else if k == y.len() {
        assert(sa.len() > 0 && sb.len() == 0);
        false
    } else {
        let c = x[k];
        let d = y[k];
        assert(sa[0] == c && sb[0] == d && c != d);
        c < d
    }
}

/// Appends `order[from..]` to `out`.
fn push_rest(out: &mut Vec<usize>, order: &Vec<usize>, from: usize)
    requires
        from <= order@.len(),
    ensures
        final(out)@ == old(out)@ + order@.skip(from as int),
{
    let mut p = from;
    while p < order.len()
        invariant
            from <= p <= order@.len(),
            out@ == old(out)@ + order@.subrange(from as int, p as int),
        decreases order@.len() - p,
    {
        let ghost before = out@;
        out.push(order[p]);
        assert(out@ =~= old(out)@ + order@.subrange(from as int, p + 1));
        p = p + 1;
    }
    assert(order@.subrange(from as int, order@.len() as int) =~= order@.skip(from as int));
}

/// `order` with the entry at `i` put in its place.
fn place_entry(entries: &Vec<(String, Value)>, order: &Vec<usize>, i: usize) -> (r: Vec<usize>)
    requires
        i < entries@.len(),
        positions_below(positions(order@), entries@.len() as int),
    ensures
        positions(r@) == placed(entry_keys(entries_model(entries@)), positions(order@), i as int),
{
    let ghost keys = entry_keys(entries_model(entries@));
    let ghost ord = positions(order@);
    let mut out: Vec<usize> = Vec::new();
    let mut p: usize = 0;
    assert(ord.skip(0) =~= ord);
    assert(positions(out@) =~= Seq::<int>::empty());
    while p < order.len()
        invariant
            i < entries@.len(),
            keys == entry_keys(entries_model(entries@)),
            ord == positions(order@),
            positions_below(ord, entries@.len() as int),
            p <= order@.len(),
            placed(keys, ord, i as int) == positions(out@) + placed(keys, ord.skip(p as int), i as int),
        decreases order@.len() - p,
    {
        let j = order[p];
        let ghost rest = ord.skip(p as int);
        assert(rest[0] == j as int);
        assert(rest.drop_first() =~= ord.skip(p + 1));
        assert(0 <= ord[p as int] < entries@.len());
        assert(keys[j as int] == entries@[j as int].0@);
        assert(keys[i as int] == entries@[i as int].0@);
        if str_eq(entries[j].0.as_str(), entries[i].0.as_str()) {
            let ghost before = out@;
            out.push(i);
            push_rest(&mut out, order, p + 1);
            proof {
                assert(positions(out@) =~= positions(before) + (seq![i as int] + ord.skip(p + 1)));
                assert(order@.skip(p + 1).map_values(|x: usize| x as int) =~= ord.skip(p + 1));
            }
            return out;
        }
        if key_before(entries[i].0.as_str(), entries[j].0.as_str()) {
            let ghost before = out@;
            out.push(i);
            push_rest(&mut out, order, p);
            proof {
                assert(positions(out@) =~= positions(before) + (seq![i as int] + rest));
            }
            return out;
        }
        let ghost before = out@;
        out.push(j);
        assert(positions(out@) =~= positions(before) + seq![j as int]);
        p = p + 1;
    }
    let ghost before = out@;
    out.push(i);
    assert(ord.skip(p as int) =~= Seq::<int>::empty());
    assert(positions(out@) =~= positions(before) + seq![i as int]);
    out
}

/// The positions of an object's entries as the map it stands for holds them: in key
/// order, a repeated key keeping its last entry.
pub fn key_positions(entries: &Vec<(String, Value)>) -> (r: Vec<usize>)
    ensures
        positions(r@) == key_order(entry_keys(entries_model(entries@)), entries@.len() as int),
        positions_below(positions(r@), entries@.len() as int),
{
    let ghost keys = entry_keys(entries_model(entries@));
    let mut order: Vec<usize> = Vec::new();
    let n = entries.len();
    let mut i: usize = 0;
    assert(positions(order@) =~= Seq::<int>::empty());
    while i < n
        invariant
            n == entries@.len(),
            keys == entry_keys(entries_model(entries@)),
            i <= n,
            positions(order@) == key_order(keys, i as int),
            positions_below(positions(order@), i as int),
        decreases n - i,
    {
        proof {
            assert forall|k: int| 0 <= k < positions(order@).len() implies 0 <= #[trigger] positions(order@)[k] < n by {}
            lemma_placed_below(keys, positions(order@), i as int, i + 1);
        }
        order = place_entry(entries, &order, i);
        i = i + 1;
    }
    order
}

} // verus!
