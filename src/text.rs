//! Small text helpers over `&str`, each stated over the string's characters.
use vstd::prelude::*;

verus! {

pub open spec fn is_digit(c: char) -> bool {
    '0' <= c && c <= '9'
}

pub open spec fn digit_value(c: char) -> int {
    (c as int) - ('0' as int)
}

pub open spec fn all_digits(s: Seq<char>) -> bool {
    forall|i: int| 0 <= i < s.len() ==> is_digit(#[trigger] s[i])
}

/// The number that a run of decimal digits spells.
pub open spec fn decimal_value(s: Seq<char>) -> int
    decreases s.len(),
{
    if s.len() == 0 {
        0
    } else {
        10 * decimal_value(s.drop_last()) + digit_value(s.last())
    }
}

/// What `str::parse::<i32>` accepts: an optional `+` or `-`, then one or more
/// ASCII digits, whose value fits in an `i32`.
pub open spec fn parse_i32_spec(s: Seq<char>) -> Option<int> {
    let signed = s.len() > 0 && (s[0] == '-' || s[0] == '+');
    let body = if signed { s.drop_first() } else { s };
    let magnitude = decimal_value(body);
    let v = if s.len() > 0 && s[0] == '-' { -magnitude } else { magnitude };
    if body.len() > 0 && all_digits(body) && i32::MIN <= v <= i32::MAX {
        Some(v)
    } else {
        None
    }
}

/// The characters for which `char::is_whitespace` holds (Unicode `White_Space`).
pub open spec fn is_space(c: char) -> bool {
    ('\u{9}' <= c && c <= '\u{d}') || c == ' ' || c == '\u{85}' || c == '\u{a0}' || c
        == '\u{1680}' || ('\u{2000}' <= c && c <= '\u{200a}') || c == '\u{2028}' || c
        == '\u{2029}' || c == '\u{202f}' || c == '\u{205f}' || c == '\u{3000}'
}

/// `s` with its leading whitespace removed.
pub open spec fn skip_spaces(s: Seq<char>) -> Seq<char>
    decreases s.len(),
{
    if s.len() > 0 && is_space(s[0]) {
        skip_spaces(s.drop_first())
    } else {
        s
    }
}

/// The longest prefix of `s` without whitespace.
pub open spec fn leading_word(s: Seq<char>) -> Seq<char>
    decreases s.len(),
{
    if s.len() > 0 && !is_space(s[0]) {
        seq![s[0]] + leading_word(s.drop_first())
    } else {
        Seq::empty()
    }
}

/// The first whitespace-separated word of `s`, as `split_whitespace().next()`
/// gives it; empty when `s` holds only whitespace.
pub open spec fn first_word(s: Seq<char>) -> Seq<char> {
    leading_word(skip_spaces(s))
}

/// Whether `w` occurs in `s` as a run of consecutive characters.
pub open spec fn contains_seq(s: Seq<char>, w: Seq<char>) -> bool {
    exists|i: int| 0 <= i && i + w.len() <= s.len() && #[trigger] s.subrange(i, i + w.len()) == w
}

pub proof fn lemma_decimal_nonneg(s: Seq<char>)
    requires
        all_digits(s),
    ensures
        decimal_value(s) >= 0,
    decreases s.len(),
{
    if s.len() > 0 {
        assert(all_digits(s.drop_last()));
        lemma_decimal_nonneg(s.drop_last());
        assert(is_digit(s[s.len() - 1]));
    }
}

/// A run of digits is worth at least as much as any of its prefixes.
pub proof fn lemma_decimal_prefix_le(s: Seq<char>, k: int)
    requires
        all_digits(s),
        0 <= k <= s.len(),
    ensures
        decimal_value(s.subrange(0, k)) <= decimal_value(s),
    decreases s.len(),
{
    if k < s.len() {
        let t = s.drop_last();
        assert(all_digits(t));
        lemma_decimal_prefix_le(t, k);
        assert(t.subrange(0, k) =~= s.subrange(0, k));
        lemma_decimal_nonneg(t);
        assert(is_digit(s[s.len() - 1]));
    } else {
        assert(s.subrange(0, k) =~= s);
    }
}

/// A word followed by nothing or by whitespace is the leading word.
pub proof fn lemma_leading_word_of_prefix(w: Seq<char>, rest: Seq<char>)
    requires
        forall|i: int| 0 <= i < w.len() ==> !is_space(#[trigger] w[i]),
        rest.len() == 0 || is_space(rest[0]),
    ensures
        leading_word(w + rest) == w,
    decreases w.len(),
{
    if w.len() == 0 {
        assert(w + rest =~= rest);
    } else {
        assert((w + rest).drop_first() =~= w.drop_first() + rest);
        assert(!is_space(w[0]));
        assert forall|i: int| 0 <= i < w.drop_first().len() implies !is_space(
            #[trigger] w.drop_first()[i],
        ) by {
            assert(w.drop_first()[i] == w[i + 1]);
        }
        lemma_leading_word_of_prefix(w.drop_first(), rest);
        assert(seq![w[0]] + w.drop_first() =~= w);
    }
}

/// A non-empty word at the very start, ended by whitespace or by the end of
/// the text, is the first word.
pub proof fn lemma_first_word_of_prefix(w: Seq<char>, rest: Seq<char>)
    requires
        w.len() > 0,
        forall|i: int| 0 <= i < w.len() ==> !is_space(#[trigger] w[i]),
        rest.len() == 0 || is_space(rest[0]),
    ensures
        first_word(w + rest) == w,
{
    assert((w + rest)[0] == w[0]);
    assert(!is_space(w[0]));
    assert(skip_spaces(w + rest) == w + rest);
    lemma_leading_word_of_prefix(w, rest);
}

/// Where the first word of `s` starts and ends.
pub fn first_word_bounds(s: &str) -> (r: (usize, usize))
    ensures
        r.0 <= r.1 <= s@.len(),
        s@.subrange(r.0 as int, r.1 as int) == first_word(s@),
{
    let n = s.unicode_len();
    let mut i: usize = 0;
    assert(s@.subrange(0, n as int) =~= s@);
    while i < n && is_space_char(s.get_char(i))
        invariant
            i <= n,
            n == s@.len(),
            skip_spaces(s@) == skip_spaces(s@.subrange(i as int, n as int)),
        decreases n - i,
    {
        assert(s@.subrange(i as int, n as int).drop_first() =~= s@.subrange(i + 1, n as int));
        i = i + 1;
    }
    assert(skip_spaces(s@.subrange(i as int, n as int)) == s@.subrange(i as int, n as int));
    let mut j: usize = i;
    assert(s@.subrange(i as int, i as int) + leading_word(s@.subrange(i as int, n as int))
        =~= leading_word(s@.subrange(i as int, n as int)));
    while j < n && !is_space_char(s.get_char(j))
        invariant
            i <= j <= n,
            n == s@.len(),
            first_word(s@) == leading_word(s@.subrange(i as int, n as int)),
            leading_word(s@.subrange(i as int, n as int)) == s@.subrange(i as int, j as int)
                + leading_word(s@.subrange(j as int, n as int)),
        decreases n - j,
    {
        assert(s@.subrange(j as int, n as int).drop_first() =~= s@.subrange(j + 1, n as int));
        assert(s@.subrange(i as int, j as int) + seq![s@[j as int]] =~= s@.subrange(
            i as int,
            j + 1,
        ));
        j = j + 1;
        assert(s@.subrange(i as int, n as int) == s@.subrange(i as int, n as int));
    }
    assert(s@.subrange(i as int, j as int) + Seq::<char>::empty() =~= s@.subrange(
        i as int,
        j as int,
    ));
    (i, j)
}

/// Whether the characters `s[a..b]` are exactly those of `t`.
pub fn range_equals(s: &str, a: usize, b: usize, t: &str) -> (r: bool)
    requires
        a <= b <= s@.len(),
    ensures
        r == (s@.subrange(a as int, b as int) == t@),
{
    let m = t.unicode_len();
    if b - a != m {
        return false;
    }
    let mut k: usize = 0;
    while k < m
        invariant
            k <= m,
            m == t@.len(),
            b - a == m,
            a <= b <= s@.len(),
            forall|q: int| 0 <= q < k ==> s@[a + q] == t@[q],
        decreases m - k,
    {
        if s.get_char(a + k) != t.get_char(k) {
            assert(s@.subrange(a as int, b as int)[k as int] != t@[k as int]);
            return false;
        }
        k = k + 1;
    }
    assert(s@.subrange(a as int, b as int) =~= t@);
    true
}

/// Whether `w` occurs in `s`.
pub fn contains_str(s: &str, w: &str) -> (r: bool)
    ensures
        r == contains_seq(s@, w@),
{
    let n = s.unicode_len();
    let m = w.unicode_len();
    if m > n {
        return false;
    }
    if m == 0 {
        assert(s@.subrange(0, 0 + w@.len() as int) =~= w@);
        return true;
    }
    let mut i: usize = 0;
    while i < n - m + 1
        invariant
            n == s@.len(),
            m == w@.len(),
            1 <= m <= n,
            i <= n - m + 1,
            forall|k: int| 0 <= k < i ==> #[trigger] s@.subrange(k, k + m) != w@,
        decreases n - m + 1 - i,
    {
        if range_equals(s, i, i + m, w) {
            assert(s@.subrange(i as int, i + w@.len()) == w@);
            return true;
        }
        i = i + 1;
    }
    false
}

pub fn is_space_char(c: char) -> (r: bool)
    ensures
        r == is_space(c),
{
    ('\u{9}' <= c && c <= '\u{d}') || c == ' ' || c == '\u{85}' || c == '\u{a0}' || c
        == '\u{1680}' || ('\u{2000}' <= c && c <= '\u{200a}') || c == '\u{2028}' || c
        == '\u{2029}' || c == '\u{202f}' || c == '\u{205f}' || c == '\u{3000}'
}

/// Reads the first `end` characters of `s` as a decimal `i32`.
pub fn parse_i32_prefix(s: &str, end: usize) -> (r: Option<i32>)
    requires
        end <= s@.len(),
    ensures
        r is Some <==> parse_i32_spec(s@.subrange(0, end as int)) is Some,
        r is Some ==> parse_i32_spec(s@.subrange(0, end as int)) == Some(r->0 as int),
{
    let ghost t = s@.subrange(0, end as int);
    if end == 0 {
        return None;
    }
    let c0 = s.get_char(0);
    assert(t[0] == c0);
    let signed = c0 == '-' || c0 == '+';
    let start: usize = if signed { 1 } else { 0 };
    let ghost body = if signed { t.drop_first() } else { t };
    assert(body =~= s@.subrange(start as int, end as int));
    if start >= end {
        return None;
    }
    let mut acc: i64 = 0;
    let mut i: usize = start;
    while i < end
        invariant
            start <= i <= end,
            end <= s@.len(),
            body == s@.subrange(start as int, end as int),
            t == s@.subrange(0, end as int),
            t.len() > 0 && t[0] == c0,
            signed == (c0 == '-' || c0 == '+'),
            body == (if signed { t.drop_first() } else { t }),
            0 <= acc <= 2147483648,
            acc == decimal_value(s@.subrange(start as int, i as int)),
            all_digits(s@.subrange(start as int, i as int)),
        decreases end - i,
    {
        let c = s.get_char(i);
        if !('0' <= c && c <= '9') {
            assert(body[i - start] == c);
            assert(!all_digits(body));
            return None;
        }
        let d: i64 = (c as u32 - '0' as u32) as i64;
        let ghost prev = s@.subrange(start as int, i as int);
        let ghost next = s@.subrange(start as int, i + 1);
        assert(next.drop_last() =~= prev);
        assert(next.last() == c);
        assert(d == digit_value(c));
        assert(all_digits(next)) by {
            assert forall|j: int| 0 <= j < next.len() implies is_digit(#[trigger] next[j]) by {
                if j < prev.len() {
                    assert(next[j] == prev[j]);
                }
            }
        }
        acc = acc * 10 + d;
        assert(acc == decimal_value(next));
        if acc > 2147483648 {
            proof {
                assert(body.subrange(0, i + 1 - start) =~= next);
                if all_digits(body) {
                    lemma_decimal_prefix_le(body, i + 1 - start);
                }
            }
            return None;
        }
        i = i + 1;
    }
    assert(s@.subrange(start as int, i as int) =~= body);
    let neg = c0 == '-';
    if neg {
        Some((-acc) as i32)
    } else if acc > 2147483647 {
        None
    } else {
        Some(acc as i32)
    }
}

} // verus!
