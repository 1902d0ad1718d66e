//! Helpers of the portal provider: filter sanitizing, positions of separators and
//! duplicate-free lists.

use vstd::prelude::*;

use crate::text::{chars_of, push_char, str_eq, string_of, strings_view};

verus! {

/// Whether `c` is an ASCII hexadecimal digit.
pub open spec fn is_hex_digit(c: char) -> bool {
    let n = c as nat;
    (0x30 <= n && n <= 0x39) || (0x41 <= n && n <= 0x46) || (0x61 <= n && n <= 0x66)
}

fn hex_digit_char(c: char) -> (r: bool)
    ensures
        r == is_hex_digit(c),
{
    let n = c as u32;
    assert(n as nat == c as nat);
    (0x30 <= n && n <= 0x39) || (0x41 <= n && n <= 0x46) || (0x61 <= n && n <= 0x66)
}

/// `s` without its percent-encoded bytes: each `%` followed by two hexadecimal digits is
/// dropped together with them.
pub open spec fn sanitized(s: Seq<char>) -> Seq<char>
    decreases s.len(),
{
    if s.len() == 0 {
        Seq::empty()
    } else if s.len() >= 3 && s[0] == '%' && is_hex_digit(s[1]) && is_hex_digit(s[2]) {
        sanitized(s.skip(3))
    } else {
        seq![s[0]] + sanitized(s.drop_first())
    }
}

/// A filter input without `%` is kept as it is.
pub proof fn inputs_without_percent_are_kept(s: Seq<char>)
    requires
        !s.contains('%'),
    ensures
        sanitized(s) == s,
    decreases s.len(),
{
    if s.len() > 0 {
        assert(s[0] != '%') by {
            if s[0] == '%' {
                assert(s.contains('%'));
            }
        }
        let rest = s.drop_first();
        assert(!rest.contains('%')) by {
            if rest.contains('%') {
                let j = choose|j: int| 0 <= j < rest.len() && rest[j] == '%';
                assert(s[j + 1] == '%');
            }
        }
        inputs_without_percent_are_kept(rest);
        assert(seq![s[0]] + rest =~= s);
    }
}

/// A filter input without its percent-encoded bytes.
pub fn sanitize_filter_value(value: &str) -> (r: String)
    ensures
        r@ == sanitized(value@),
{
    let chars = chars_of(value);
    let mut out = String::new();
    let n = chars.len();
    let mut i: usize = 0;
    assert(value@.skip(0) =~= value@);
    while i < n
        invariant
            n == chars@.len(),
            chars@ == value@,
            i <= n,
            out@ + sanitized(value@.skip(i as int)) == sanitized(value@),
        decreases n - i,
    {
        let ghost rest = value@.skip(i as int);
        if chars[i] == '%' && n - i > 2 && hex_digit_char(chars[i + 1]) && hex_digit_char(chars[i + 2]) {
            assert(rest[0] == chars@[i as int] && rest[1] == chars@[i + 1] && rest[2] == chars@[i + 2]);
            assert(rest.skip(3) =~= value@.skip(i + 3));
            i = i + 3;
        } else {
            assert(rest.drop_first() =~= value@.skip(i + 1));
            let ghost before = out@;
            push_char(&mut out, chars[i]);
            assert(out@ + sanitized(value@.skip(i + 1)) =~= before + (seq![rest[0]] + sanitized(rest.drop_first())));
            i = i + 1;
        }
    }
    assert(value@.skip(n as int) =~= Seq::<char>::empty());
    assert(out@ + Seq::<char>::empty() =~= out@);
    out
}

/// The position of the character that makes the count of `c` reach `x`, scanning from
/// `i` with `count` occurrences seen before `i`.
pub open spec fn nth_from(s: Seq<char>, c: char, x: nat, i: int, count: nat) -> Option<int>
    decreases s.len() - i,
{
    if i < 0 || i >= s.len() {
        None
    } else if s[i] == c && count + 1 == x {
        Some(i)
    } else {
        nth_from(s, c, x, i + 1, if s[i] == c { (count + 1) as nat } else { count })
    }
}

/// The position of the `x`-th occurrence of `c` in `s` (counting from 1), if there is one.
pub open spec fn nth_position(s: Seq<char>, c: char, x: nat) -> Option<int> {
    nth_from(s, c, x, 0, 0)
}

/// How many bytes UTF-8 takes to encode `c`.
pub open spec fn utf8_width(c: char) -> nat {
    let n = c as nat;
    if n < 0x80 { 1 } else if n < 0x800 { 2 } else if n < 0x10000 { 3 } else { 4 }
}

/// The byte offset of the character at position `k` of `s` in its UTF-8 encoding.
pub open spec fn byte_offset(s: Seq<char>, k: int) -> nat
    decreases k,
{
    if k <= 0 || k > s.len() { 0 } else { byte_offset(s, k - 1) + utf8_width(s[k - 1]) }
}

/// The byte offset of the `x`-th occurrence of `c` in `s`, or 0 when there is none.
pub open spec fn ordinal_index(s: Seq<char>, c: char, x: nat) -> nat {
    match nth_position(s, c, x) {
        Some(k) => byte_offset(s, k),
        None => 0,
    }
}

fn utf8_width_of(c: char) -> (r: usize)
    ensures
        r == utf8_width(c),
{
    let n = c as u32;
    assert(n as nat == c as nat);
    if n < 0x80 { 1 } else if n < 0x800 { 2 } else if n < 0x10000 { 3 } else { 4 }
}

proof fn lemma_byte_offset_monotone(s: Seq<char>, j: int, k: int)
    requires
        0 <= j <= k <= s.len(),
    ensures
        byte_offset(s, j) <= byte_offset(s, k),
    decreases k - j,
{
    if j < k {
        lemma_byte_offset_monotone(s, j, k - 1);
    }
}

/// The byte offset of the `x`-th `arg` in `dbname`, counting from 1; 0 when there is no
/// such occurrence. The text is no longer than the largest `usize` in bytes.
pub fn ordinal_index_of(dbname: &str, arg: char, x: usize) -> (r: usize)
    requires
        byte_offset(dbname@, dbname@.len() as int) <= usize::MAX,
    ensures
        r == ordinal_index(dbname@, arg, x as nat),
{
    let chars = chars_of(dbname);
    let n = chars.len();
    let mut i: usize = 0;
    let mut count: usize = 0;
    let mut offset: usize = 0;
    while i < n
        invariant
            n == chars@.len(),
            chars@ == dbname@,
            i <= n,
            count <= i,
            offset == byte_offset(dbname@, i as int),
            byte_offset(dbname@, n as int) <= usize::MAX,
            nth_position(dbname@, arg, x as nat) == nth_from(dbname@, arg, x as nat, i as int, count as nat),
        decreases n - i,
    {
        let ch = chars[i];
        if ch == arg {
            count = count + 1;
            if count == x {
                return offset;
            }
        }
        proof {
            lemma_byte_offset_monotone(dbname@, i + 1, n as int);
        }
        offset = offset + utf8_width_of(ch);
        i = i + 1;
    }
    0
}

/// The text of `s` before its `x`-th `c` (counting from 1); empty when there is none.
pub open spec fn prefix_before(s: Seq<char>, c: char, x: nat) -> Seq<char> {
    match nth_position(s, c, x) {
        Some(k) => s.take(k),
        None => Seq::empty(),
    }
}

/// The text of `s` before its `x`-th `c`; empty when there is none.
pub fn text_before_nth(s: &str, c: char, x: usize) -> (r: String)
    ensures
        r@ == prefix_before(s@, c, x as nat),
{
    let chars = chars_of(s);
    let n = chars.len();
    let mut i: usize = 0;
    let mut count: usize = 0;
    while i < n
        invariant
            n == chars@.len(),
            chars@ == s@,
            i <= n,
            count <= i,
            nth_position(s@, c, x as nat) == nth_from(s@, c, x as nat, i as int, count as nat),
        decreases n - i,
    {
        if chars[i] == c {
            count = count + 1;
            if count == x {
                let mut out: Vec<char> = Vec::new();
                let mut j: usize = 0;
                while j < i
                    invariant
                        n == chars@.len(),
                        chars@ == s@,
                        j <= i < n,
                        out@ == s@.take(j as int),
                    decreases i - j,
                {
                    out.push(chars[j]);
                    assert(out@ =~= s@.take(j + 1));
                    j = j + 1;
                }
                return string_of(&out);
            }
        }
        i = i + 1;
    }
    String::new()
}

/// `list` with `item` appended unless it already holds it.
pub open spec fn with_unique(list: Seq<Seq<char>>, item: Seq<char>) -> Seq<Seq<char>> {
    if list.contains(item) { list } else { list.push(item) }
}

/// Appends `item` to `list` unless it already holds it.
pub fn push_unique(list: &mut Vec<String>, item: String)
    ensures
        strings_view(final(list)@) == with_unique(strings_view(old(list)@), item@),
{
    let ghost views = strings_view(list@);
    let n = list.len();
    let mut i: usize = 0;
    while i < n
        invariant
            n == list@.len(),
            views == strings_view(list@),
            i <= n,
            forall|j: int| 0 <= j < i ==> views[j] != item@,
        decreases n - i,
    {
        if str_eq(list[i].as_str(), item.as_str()) {
            assert(views[i as int] == item@);
            return;
        }
        i = i + 1;
    }
    assert(!views.contains(item@));
    let ghost before = list@;
    list.push(item);
    assert(strings_view(list@) =~= strings_view(before).push(item@));
}

} // verus!
