use vstd::prelude::*;

verus! {

/// A setting's value, by the type it is read as.
#[derive(Debug, PartialEq)]
pub enum SType<F, I, S> {
    Float(F),
    Int(I),
    String(S),
}

/// Line feed, which ends a line of the settings file.
pub const NEWLINE: u8 = 10;

/// Starts a comment that runs to the end of the line.
pub const HASH: u8 = 35;

/// Separates a setting's key from its value.
pub const EQUALS: u8 = 61;

/// Length in bytes of the whitespace character that `s` starts with, or 0
/// when it starts with none. Whitespace is Unicode's White_Space set in UTF-8:
/// U+0009 to U+000D, U+0020, U+0085, U+00A0, U+1680, U+2000 to U+200A,
/// U+2028, U+2029, U+202F, U+205F and U+3000. No such sequence starts at a
/// continuation byte, so in UTF-8 text a match is always that character.
pub open spec fn space_len(s: Seq<u8>) -> int {
    if s.len() >= 1 && (s[0] == 32 || (9 <= s[0] <= 13)) {
        1
    } else if s.len() >= 2 && s[0] == 0xC2 && (s[1] == 0x85 || s[1] == 0xA0) {
        2
    } else if s.len() >= 3 && ((s[0] == 0xE1 && s[1] == 0x9A && s[2] == 0x80) || (s[0] == 0xE2 && s[1]
        == 0x80 && ((0x80 <= s[2] <= 0x8A) || s[2] == 0xA8 || s[2] == 0xA9 || s[2] == 0xAF)) || (s[0]
        == 0xE2 && s[1] == 0x81 && s[2] == 0x9F) || (s[0] == 0xE3 && s[1] == 0x80 && s[2] == 0x80)) {
        3
    } else {
        0
    }
}

/// `s` with its whitespace characters removed.
pub open spec fn without_spaces(s: Seq<u8>) -> Seq<u8>
    decreases s.len(),
{
    if s.len() == 0 {
        s
    } else if space_len(s) > 0 {
        without_spaces(s.subrange(space_len(s), s.len() as int))
    } else {
        seq![s[0]] + without_spaces(s.drop_first())
    }
}

/// Index of the first `b` in `s`, or the length of `s` when there is none.
pub open spec fn first_index(s: Seq<u8>, b: u8) -> int
    decreases s.len(),
{
    if s.len() == 0 {
        0
    } else if first_index(s.drop_last(), b) < s.len() - 1 {
        first_index(s.drop_last(), b)
    } else if s.last() == b {
        s.len() - 1
    } else {
        s.len() as int
    }
}

/// Whether `key` occurs in `l`.
pub open spec fn holds(l: Seq<u8>, key: Seq<u8>) -> bool {
    exists|i: int| 0 <= i <= l.len() - key.len() && #[trigger] l.subrange(i, i + key.len()) == key
}

/// The value a line gives: what follows its first `=` and precedes any `#`,
/// with the whitespace removed; empty when no `=` precedes the comment.
pub open spec fn line_value(l: Seq<u8>) -> Seq<u8> {
    let c = l.subrange(0, first_index(l, HASH));
    let e = first_index(c, EQUALS);
    if e < c.len() {
        without_spaces(c.subrange(e + 1, c.len() as int))
    } else {
        seq![]
    }
}

/// `t[s..e]` is a line of `t`: it starts the text or follows a line feed, and
/// runs up to the next line feed or the end.
pub open spec fn is_line(t: Seq<u8>, s: int, e: int) -> bool {
    &&& 0 <= s <= e <= t.len()
    &&& (s == 0 || t[s - 1] == NEWLINE)
    &&& (e == t.len() || t[e] == NEWLINE)
    &&& forall|j: int| s <= j < e ==> t[j] != NEWLINE
}

/// The line `t[s..e]` names the key and gives a non-empty value.
pub open spec fn setting_line(t: Seq<u8>, key: Seq<u8>, s: int, e: int) -> bool {
    &&& is_line(t, s, e)
    &&& holds(t.subrange(s, e), key)
    &&& line_value(t.subrange(s, e)).len() > 0
}

proof fn first_index_is(s: Seq<u8>, b: u8, i: int)
    requires
        0 <= i <= s.len(),
        forall|j: int| 0 <= j < i ==> s[j] != b,
        i == s.len() || s[i] == b,
    ensures
        first_index(s, b) == i,
    decreases s.len(),
{
    if s.len() > 0 {
        let d = s.drop_last();
        if i < d.len() {
            first_index_is(d, b, i);
        } else {
            first_index_is(d, b, d.len() as int);
        }
    }
}

/// Position of the first `b` in `t[from..to]`, or `to`.
fn first_in(t: &[u8], from: usize, to: usize, b: u8) -> (r: usize)
    requires
        from <= to <= t@.len(),
    ensures
        from <= r <= to,
        r - from == first_index(t@.subrange(from as int, to as int), b),
        forall|j: int| from <= j < r ==> t@[j] != b,
        r == to || t@[r as int] == b,
{
    let mut i = from;
    while i < to && t[i] != b
        invariant
            from <= i <= to <= t@.len(),
            forall|j: int| from <= j < i ==> t@[j] != b,
        decreases to - i,
    {
        i = i + 1;
    }
    let ghost l = t@.subrange(from as int, to as int);
    assert forall|j: int| 0 <= j < i - from implies l[j] != b by {
        assert(l[j] == t@[from + j]);
    }
    proof {
        first_index_is(l, b, i - from);
    }
    i
}

/// Length of the whitespace character at `t[i..to]`, as `space_len` gives it.
fn space_len_at(t: &[u8], i: usize, to: usize) -> (r: usize)
    requires
        i < to <= t@.len(),
    ensures
        r == space_len(t@.subrange(i as int, to as int)),
{
    let ghost s = t@.subrange(i as int, to as int);
    let n = to - i;
    let b0 = t[i];
    assert(s[0] == b0);
    if b0 == 32 || (9 <= b0 && b0 <= 13) {
        return 1;
    }
    if n >= 2 {
        let b1 = t[i + 1];
        assert(s[1] == b1);
        if b0 == 0xC2 && (b1 == 0x85 || b1 == 0xA0) {
            return 2;
        }
        if n >= 3 {
            let b2 = t[i + 2];
            assert(s[2] == b2);
            if (b0 == 0xE1 && b1 == 0x9A && b2 == 0x80) || (b0 == 0xE2 && b1 == 0x80 && ((0x80 <= b2
                && b2 <= 0x8A) || b2 == 0xA8 || b2 == 0xA9 || b2 == 0xAF)) || (b0 == 0xE2 && b1 == 0x81
                && b2 == 0x9F) || (b0 == 0xE3 && b1 == 0x80 && b2 == 0x80) {
                return 3;
            }
        }
    }
    0
}

/// The bytes of `t[from..to]` without its whitespace characters.
fn strip_spaces(t: &[u8], from: usize, to: usize) -> (r: Vec<u8>)
    requires
        from <= to <= t@.len(),
    ensures
        r@ == without_spaces(t@.subrange(from as int, to as int)),
{
    let ghost whole = without_spaces(t@.subrange(from as int, to as int));
    let mut r: Vec<u8> = Vec::new();
    let mut i = from;
    assert(r@ + without_spaces(t@.subrange(i as int, to as int)) =~= whole);
    while i < to
        invariant
            from <= i <= to <= t@.len(),
            whole == without_spaces(t@.subrange(from as int, to as int)),
            r@ + without_spaces(t@.subrange(i as int, to as int)) == whole,
        decreases to - i,
    {
        let ghost rest = t@.subrange(i as int, to as int);
        let k = space_len_at(t, i, to);
        if k > 0 {
            assert(rest.subrange(k as int, rest.len() as int) =~= t@.subrange(i + k, to as int));
            i = i + k;
        } else {
            let b = t[i];
            assert(rest.drop_first() =~= t@.subrange(i + 1, to as int));
            assert(rest[0] == b);
            let ghost old_r = r@;
            r.push(b);
            assert(r@ + without_spaces(t@.subrange(i + 1, to as int)) =~= old_r + (seq![b]
                + without_spaces(rest.drop_first())));
            i = i + 1;
        }
    }
    assert(t@.subrange(to as int, to as int).len() == 0);
    assert(r@ =~= r@ + without_spaces(t@.subrange(to as int, to as int)));
    r
}

/// Whether `key` occurs in `t[from..to]`.
fn occurs_in(t: &[u8], from: usize, to: usize, key: &[u8]) -> (r: bool)
    requires
        from <= to <= t@.len(),
    ensures
        r == holds(t@.subrange(from as int, to as int), key@),
{
    let ghost l = t@.subrange(from as int, to as int);
    let n = key.len();
    if n > to - from {
        return false;
    }
    let mut i: usize = 0;
    while i <= to - from - n
        invariant
            n == key@.len(),
            n <= to - from,
            from <= to <= t@.len(),
            l == t@.subrange(from as int, to as int),
            forall|p: int| 0 <= p < i ==> #[trigger] l.subrange(p, p + n) != key@,
        decreases to - from - n + 1 - i,
    {
        let mut k: usize = 0;
        while k < n && t[from + i + k] == key[k]
            invariant
                n == key@.len(),
                i + n <= to - from,
                from <= to <= t@.len(),
                l == t@.subrange(from as int, to as int),
                k <= n,
                forall|q: int| 0 <= q < k ==> t@[from + i + q] == key@[q],
            decreases n - k,
        {
            k = k + 1;
        }
        if k == n {
            assert(l.subrange(i as int, i + n) =~= key@);
            return true;
        }
        assert(l.subrange(i as int, i + n)[k as int] != key@[k as int]);
        i = i + 1;
    }
    false
}

/// The value of the line `t[from..to]`.
fn value_of_line(t: &[u8], from: usize, to: usize) -> (r: Vec<u8>)
    requires
        from <= to <= t@.len(),
    ensures
        r@ == line_value(t@.subrange(from as int, to as int)),
{
    let ghost l = t@.subrange(from as int, to as int);
    let h = first_in(t, from, to, HASH);
    let ghost c = l.subrange(0, first_index(l, HASH));
    assert(c =~= t@.subrange(from as int, h as int));
    let e = first_in(t, from, h, EQUALS);
    if e < h {
        assert(c.subrange(e - from + 1, c.len() as int) =~= t@.subrange(e + 1, h as int));
        strip_spaces(t, e + 1, h)
    } else {
        Vec::new()
    }
}

/// Finds a setting in the text of a settings file, a line `key = value  # comment`
/// at a time: the value of the first line that names `key` and gives a
/// non-empty value, or `None` when no line does.
pub fn find_setting(text: &[u8], key: &[u8]) -> (r: Option<Vec<u8>>)
    ensures
        match r {
            Some(v) => exists|s: int, e: int|
                {
                    &&& #[trigger] setting_line(text@, key@, s, e)
                    &&& v@ == line_value(text@.subrange(s, e))
                    &&& forall|s2: int, e2: int| #[trigger] setting_line(text@, key@, s2, e2) ==> s <= s2
                },
            None => forall|s: int, e: int| !#[trigger] setting_line(text@, key@, s, e),
        },
{
    let ghost t = text@;
    let len = text.len();
    let mut start: usize = 0;
    while start <= len
        invariant
            len == t.len(),
            t == text@,
            start <= len ==> (start == 0 || t[start - 1] == NEWLINE),
            start <= len + 1,
            forall|s2: int, e2: int| s2 < start ==> !#[trigger] setting_line(t, key@, s2, e2),
        decreases len + 1 - start,
    {
        let end = first_in(text, start, len, NEWLINE);
        assert(is_line(t, start as int, end as int));
        if occurs_in(text, start, end, key) {
            let v = value_of_line(text, start, end);
            if v.len() > 0 {
                assert(setting_line(t, key@, start as int, end as int));
                assert forall|s2: int, e2: int| #[trigger] setting_line(t, key@, s2, e2) implies start <= s2 by {
                }
                return Some(v);
            }
        }
        assert forall|s2: int, e2: int| s2 < end + 1 implies !#[trigger] setting_line(t, key@, s2, e2) by {
            if s2 > start as int && setting_line(t, key@, s2, e2) {
                assert(t[s2 - 1] == NEWLINE);
            }
            if s2 == start as int && setting_line(t, key@, s2, e2) {
                if e2 < end as int {
                    assert(t[e2] == NEWLINE);
                } else if e2 > end as int {
                    assert(t[end as int] == NEWLINE);
                }
            }
        }
        if end == len {
            return None;
        }
        start = end + 1;
    }
    None
}

/// Sign bytes of a decimal integer.
pub const MINUS: u8 = 45;

pub const PLUS: u8 = 43;

pub open spec fn is_digit(b: u8) -> bool {
    48 <= b <= 57
}

pub open spec fn all_digits(s: Seq<u8>) -> bool {
    forall|i: int| 0 <= i < s.len() ==> is_digit(#[trigger] s[i])
}

/// The number that a string of decimal digits denotes.
pub open spec fn digits_value(s: Seq<u8>) -> int
    decreases s.len(),
{
    if s.len() == 0 {
        0
    } else {
        10 * digits_value(s.drop_last()) + (s.last() - 48)
    }
}

/// The integer a decimal text denotes: an optional `+` or `-`, then one or
/// more digits and nothing else.
pub open spec fn decimal_value(s: Seq<u8>) -> Option<int> {
    let signed = s.len() > 0 && (s[0] == MINUS || s[0] == PLUS);
    let body = if signed {
        s.drop_first()
    } else {
        s
    };
    if body.len() > 0 && all_digits(body) {
        Some(
            if s[0] == MINUS {
                -digits_value(body)
            } else {
                digits_value(body)
            },
        )
    } else {
        None
    }
}

proof fn digits_value_grows(s: Seq<u8>, k: int)
    requires
        all_digits(s),
        0 <= k <= s.len(),
    ensures
        0 <= digits_value(s.subrange(0, k)) <= digits_value(s),
    decreases s.len(),
{
    if k == s.len() {
        assert(s.subrange(0, k) =~= s);
        digits_value_nonnegative(s);
    } else {
        let d = s.drop_last();
        assert(d.subrange(0, k) =~= s.subrange(0, k));
        digits_value_grows(d, k);
        digits_value_nonnegative(d);
    }
}

proof fn digits_value_nonnegative(s: Seq<u8>)
    requires
        all_digits(s),
    ensures
        digits_value(s) >= 0,
    decreases s.len(),
{
    if s.len() > 0 {
        digits_value_nonnegative(s.drop_last());
    }
}

/// Reads a decimal `i32`: an optional sign, then digits; `None` for any other
/// text or for a number outside the range of `i32`.
pub fn parse_int(s: &[u8]) -> (r: Option<i32>)
    ensures
        r.is_some() <==> (decimal_value(s@).is_some() && i32::MIN <= decimal_value(s@).unwrap()
            <= i32::MAX),
        r.is_some() ==> r.unwrap() == decimal_value(s@).unwrap(),
{
    let n = s.len();
    if n == 0 {
        return None;
    }
    let negative = s[0] == MINUS;
    let first: usize = if s[0] == MINUS || s[0] == PLUS {
        1
    } else {
        0
    };
    let ghost body = if first == 1 {
        s@.drop_first()
    } else {
        s@
    };
    assert(body =~= s@.subrange(first as int, n as int));
    assert(body == (if s@.len() > 0 && (s@[0] == MINUS || s@[0] == PLUS) {
        s@.drop_first()
    } else {
        s@
    }));
    assert(negative == (s@[0] == MINUS));
    if first == n {
        return None;
    }
    let mut acc: i64 = 0;
    let mut i = first;
    assert(body.subrange(0, 0).len() == 0);
    while i < n
        invariant
            first <= i <= n == s@.len(),
            body == s@.subrange(first as int, n as int),
            body.len() > 0,
            decimal_value(s@).is_some() == all_digits(body),
            decimal_value(s@).is_some() ==> decimal_value(s@).unwrap() == if negative {
                -digits_value(body)
            } else {
                digits_value(body)
            },
            all_digits(body.subrange(0, i - first)),
            acc == digits_value(body.subrange(0, i - first)),
            0 <= acc <= 2147483648,
        decreases n - i,
    {
        let b = s[i];
        assert(body[i - first] == b);
        if !(48 <= b && b <= 57) {
            assert(!all_digits(body));
            return None;
        }
        assert(body.subrange(0, i + 1 - first).drop_last() =~= body.subrange(0, i - first));
        let next = acc * 10 + (b - 48) as i64;
        assert(all_digits(body.subrange(0, i + 1 - first)));
        if next > 2147483648 {
            proof {
                if all_digits(body) {
                    digits_value_grows(body, i + 1 - first);
                }
            }
            return None;
        }
        acc = next;
        i = i + 1;
    }
    assert(body.subrange(0, n - first) =~= body);
    if negative {
        Some((-acc) as i32)
    } else if acc <= 2147483647 {
        Some(acc as i32)
    } else {
        None
    }
}

} // verus!
