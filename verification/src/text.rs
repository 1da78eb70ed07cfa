//! Small string operations with exact specifications.

use vstd::prelude::*;

verus! {

/// Whether the character `c` occurs anywhere in `s`.
pub fn contains_char(s: &str, c: char) -> (r: bool)
    ensures
        r == s@.contains(c),
{
    let n = s.unicode_len();
    let mut i: usize = 0;
    while i < n
        invariant
            n == s@.len(),
            i <= n,
            forall|j: int| 0 <= j < i ==> s@[j] != c,
        decreases n - i,
    {
        if s.get_char(i) == c {
            assert(s@[i as int] == c);
            return true;
        }
        i += 1;
    }
    false
}

/// The concatenation of two strings.
pub fn concat2(a: &str, b: &str) -> (r: String)
    ensures
        r@ == a@ + b@,
{
    let mut r = String::from_str(a);
    r.append(b);
    r
}


/// Whether `prefix` is an initial segment of `s`.
pub open spec fn seq_starts_with(s: Seq<char>, prefix: Seq<char>) -> bool {
    prefix.len() <= s.len() && s.subrange(0, prefix.len() as int) == prefix
}

/// Whether `s` starts with `prefix`.
pub fn starts_with(s: &str, prefix: &str) -> (r: bool)
    ensures
        r == seq_starts_with(s@, prefix@),
{
    let n = s.unicode_len();
    let m = prefix.unicode_len();
    if m > n {
        return false;
    }
    let mut i: usize = 0;
    while i < m
        invariant
            n == s@.len(),
            m == prefix@.len(),
            m <= n,
            i <= m,
            forall|j: int| 0 <= j < i ==> s@[j] == prefix@[j],
        decreases m - i,
    {
        if s.get_char(i) != prefix.get_char(i) {
            assert(s@.subrange(0, m as int)[i as int] != prefix@[i as int]);
            return false;
        }
        i += 1;
    }
    assert(s@.subrange(0, m as int) =~= prefix@);
    true
}

/// Whether `c` has the Unicode `White_Space` property, the set of
/// characters that `char::is_whitespace` accepts.
pub open spec fn is_whitespace(c: char) -> bool {
    ||| ('\u{9}' <= c && c <= '\u{d}')
    ||| c == ' '
    ||| c == '\u{85}'
    ||| c == '\u{a0}'
    ||| c == '\u{1680}'
    ||| ('\u{2000}' <= c && c <= '\u{200a}')
    ||| c == '\u{2028}'
    ||| c == '\u{2029}'
    ||| c == '\u{202f}'
    ||| c == '\u{205f}'
    ||| c == '\u{3000}'
}

/// Whether `c` is a whitespace character.
pub fn char_is_whitespace(c: char) -> (r: bool)
    ensures
        r == is_whitespace(c),
{
    ('\u{9}' <= c && c <= '\u{d}') || c == ' ' || c == '\u{85}' || c == '\u{a0}'
        || c == '\u{1680}' || ('\u{2000}' <= c && c <= '\u{200a}') || c == '\u{2028}'
        || c == '\u{2029}' || c == '\u{202f}' || c == '\u{205f}' || c == '\u{3000}'
}

/// `s` without its leading whitespace.
pub open spec fn trim_start(s: Seq<char>) -> Seq<char>
    decreases s.len(),
{
    if s.len() > 0 && is_whitespace(s[0]) {
        trim_start(s.drop_first())
    } else {
        s
    }
}

/// `s` without its trailing whitespace.
pub open spec fn trim_end(s: Seq<char>) -> Seq<char>
    decreases s.len(),
{
    if s.len() > 0 && is_whitespace(s.last()) {
        trim_end(s.drop_last())
    } else {
        s
    }
}

/// `s` without leading and trailing whitespace, as `str::trim` gives it.
pub open spec fn trim(s: Seq<char>) -> Seq<char> {
    trim_end(trim_start(s))
}

proof fn lemma_trim_start_skip(s: Seq<char>, i: int)
    requires
        0 <= i <= s.len(),
        forall|j: int| 0 <= j < i ==> is_whitespace(#[trigger] s[j]),
    ensures
        trim_start(s) == trim_start(s.subrange(i, s.len() as int)),
    decreases i,
{
    if i > 0 {
        assert(s.drop_first().subrange(i - 1, s.drop_first().len() as int) =~= s.subrange(
            i,
            s.len() as int,
        ));
        lemma_trim_start_skip(s.drop_first(), i - 1);
    } else {
        assert(s.subrange(0, s.len() as int) =~= s);
    }
}

proof fn lemma_trim_end_take(s: Seq<char>, k: int)
    requires
        0 <= k <= s.len(),
        forall|j: int| k <= j < s.len() ==> is_whitespace(#[trigger] s[j]),
    ensures
        trim_end(s) == trim_end(s.subrange(0, k)),
    decreases s.len() - k,
{
    if k < s.len() {
        assert(s.drop_last().subrange(0, k) =~= s.subrange(0, k));
        lemma_trim_end_take(s.drop_last(), k);
    } else {
        assert(s.subrange(0, k) =~= s);
    }
}

/// The bounds `(a, b)` of `s@.subrange(from, to)` with whitespace removed at both ends.
fn trim_bounds(s: &str, from: usize, to: usize) -> (r: (usize, usize))
    requires
        from <= to <= s@.len(),
    ensures
        from <= r.0 <= r.1 <= to,
        s@.subrange(r.0 as int, r.1 as int) == trim(s@.subrange(from as int, to as int)),
{
    let ghost t = s@.subrange(from as int, to as int);
    let mut a = from;
    while a < to && char_is_whitespace(s.get_char(a))
        invariant
            from <= a <= to <= s@.len(),
            t == s@.subrange(from as int, to as int),
            forall|j: int| from <= j < a ==> is_whitespace(#[trigger] s@[j]),
        decreases to - a,
    {
        a += 1;
    }
    proof {
        assert forall|j: int| 0 <= j < a - from implies is_whitespace(#[trigger] t[j]) by {
            assert(t[j] == s@[from + j]);
        }
        lemma_trim_start_skip(t, a - from);
        assert(t.subrange(a - from, t.len() as int) =~= s@.subrange(a as int, to as int));
        if a < to {
            assert(!is_whitespace(s@[a as int]));
            reveal_with_fuel(trim_start, 2);
        }
        assert(trim_start(t) == s@.subrange(a as int, to as int));
    }
    let mut b = to;
    while b > a && char_is_whitespace(s.get_char(b - 1))
        invariant
            from <= a <= b <= to <= s@.len(),
            forall|j: int| b <= j < to ==> is_whitespace(#[trigger] s@[j]),
        decreases b - a,
    {
        b -= 1;
    }
    proof {
        let u = s@.subrange(a as int, to as int);
        assert forall|j: int| b - a <= j < u.len() implies is_whitespace(#[trigger] u[j]) by {
            assert(u[j] == s@[a + j]);
        }
        lemma_trim_end_take(u, b - a);
        assert(u.subrange(0, b - a) =~= s@.subrange(a as int, b as int));
        if b > a {
            let w = s@.subrange(a as int, b as int);
            assert(w.last() == s@[b - 1]);
            assert(!is_whitespace(w.last()));
        }
    }
    (a, b)
}

/// `s` with leading and trailing whitespace removed.
pub fn trim_str(s: &str) -> (r: String)
    ensures
        r@ == trim(s@),
{
    let n = s.unicode_len();
    let (a, b) = trim_bounds(s, 0, n);
    assert(s@.subrange(0, n as int) =~= s@);
    String::from_str(s.substring_char(a, b))
}


/// The pieces of `s` between occurrences of `sep`, as `str::split` yields them:
/// one more piece than there are separators.
pub open spec fn split_on(s: Seq<char>, sep: char) -> Seq<Seq<char>>
    decreases s.len(),
{
    if s.len() == 0 {
        seq![Seq::<char>::empty()]
    } else {
        let rest = split_on(s.drop_last(), sep);
        if s.last() == sep {
            rest.push(Seq::<char>::empty())
        } else {
            rest.update(rest.len() - 1, rest.last().push(s.last()))
        }
    }
}

/// The lines of `s` (split at `'\n'`) with surrounding whitespace removed.
/// A trailing line terminator yields a final empty line, and a `'\r'` before
/// `'\n'` is removed as whitespace.
pub open spec fn trimmed_lines(s: Seq<char>) -> Seq<Seq<char>> {
    split_on(s, '\n').map_values(|p: Seq<char>| trim(p))
}

/// Each line of `s`, trimmed of surrounding whitespace.
pub fn trimmed_lines_of(s: &str) -> (r: Vec<String>)
    ensures
        r@.map_values(|x: String| x@) == trimmed_lines(s@),
{
    let n = s.unicode_len();
    let mut out: Vec<String> = Vec::new();
    let mut start: usize = 0;
    let mut i: usize = 0;
    while i < n
        invariant
            n == s@.len(),
            start <= i <= n,
            split_on(s@.subrange(0, i as int), '\n').len() == out@.len() + 1,
            split_on(s@.subrange(0, i as int), '\n').last() == s@.subrange(start as int, i as int),
            forall|k: int|
                0 <= k < out@.len() ==> #[trigger] out@[k]@ == trim(
                    split_on(s@.subrange(0, i as int), '\n')[k],
                ),
        decreases n - i,
    {
        let ghost prev = split_on(s@.subrange(0, i as int), '\n');
        let c = s.get_char(i);
        proof {
            let t = s@.subrange(0, i + 1);
            assert(t.drop_last() =~= s@.subrange(0, i as int));
            assert(t.last() == c);
        }
        if c == '\n' {
            let (a, b) = trim_bounds(s, start, i);
            out.push(String::from_str(s.substring_char(a, b)));
            start = i + 1;
            proof {
                let cur = split_on(s@.subrange(0, i + 1), '\n');
                assert(cur == prev.push(Seq::<char>::empty()));
                assert(s@.subrange(start as int, i + 1) =~= Seq::<char>::empty());
                assert forall|k: int| 0 <= k < out@.len() implies #[trigger] out@[k]@ == trim(
                    cur[k],
                ) by {
                    if k == out@.len() - 1 {
                        assert(cur[k] == prev.last());
                    } else {
                        assert(cur[k] == prev[k]);
                    }
                }
            }
        } else {
            proof {
                let cur = split_on(s@.subrange(0, i + 1), '\n');
                assert(cur == prev.update(prev.len() - 1, prev.last().push(c)));
                assert(s@.subrange(start as int, i + 1) =~= prev.last().push(c));
                assert forall|k: int| 0 <= k < out@.len() implies #[trigger] out@[k]@ == trim(
                    cur[k],
                ) by {
                    assert(cur[k] == prev[k]);
                }
            }
        }
        i += 1;
    }
    let (a, b) = trim_bounds(s, start, n);
    out.push(String::from_str(s.substring_char(a, b)));
    proof {
        assert(s@.subrange(0, n as int) =~= s@);
        let sp = split_on(s@, '\n');
        assert(out@.map_values(|x: String| x@) =~= sp.map_values(|p: Seq<char>| trim(p)));
    }
    out
}


/// The parts of `s` before and after the first occurrence of `sep`, as
/// `str::split_once` gives them, or `None` when `sep` does not occur.
pub open spec fn split_once(s: Seq<char>, sep: char) -> Option<(Seq<char>, Seq<char>)>
    decreases s.len(),
{
    if s.len() == 0 {
        None
    } else if s[0] == sep {
        Some((Seq::<char>::empty(), s.drop_first()))
    } else {
        match split_once(s.drop_first(), sep) {
            Some(parts) => Some((seq![s[0]] + parts.0, parts.1)),
            None => None,
        }
    }
}

pub proof fn lemma_split_once_at(s: Seq<char>, sep: char, i: int)
    requires
        0 <= i <= s.len(),
        forall|j: int| 0 <= j < i ==> s[j] != sep,
        i < s.len() ==> s[i] == sep,
    ensures
        i < s.len() ==> split_once(s, sep) == Some((s.take(i), s.skip(i + 1))),
        i == s.len() ==> split_once(s, sep) is None,
    decreases i,
{
    if i > 0 {
        lemma_split_once_at(s.drop_first(), sep, i - 1);
        if i < s.len() {
            assert(seq![s[0]] + s.drop_first().take(i - 1) =~= s.take(i));
            assert(s.drop_first().skip(i) =~= s.skip(i + 1));
        }
    } else if s.len() > 0 {
        assert(s.take(0) =~= Seq::<char>::empty());
        assert(s.skip(1) =~= s.drop_first());
    }
}

/// Splits `s` at the first occurrence of `sep`.
pub fn split_once_str(s: &str, sep: char) -> (r: Option<(String, String)>)
    ensures
        match split_once(s@, sep) {
            Some(parts) => r matches Some(out) && out.0@ == parts.0 && out.1@ == parts.1,
            None => r is None,
        },
{
    let n = s.unicode_len();
    let mut i: usize = 0;
    while i < n
        invariant
            n == s@.len(),
            i <= n,
            forall|j: int| 0 <= j < i ==> s@[j] != sep,
        decreases n - i,
    {
        if s.get_char(i) == sep {
            proof {
                lemma_split_once_at(s@, sep, i as int);
                assert(s@.take(i as int) =~= s@.subrange(0, i as int));
                assert(s@.skip(i + 1) =~= s@.subrange(i + 1, n as int));
            }
            let before = String::from_str(s.substring_char(0, i));
            let after = String::from_str(s.substring_char(i + 1, n));
            return Some((before, after));
        }
        i += 1;
    }
    proof {
        lemma_split_once_at(s@, sep, n as int);
    }
    None
}

/// The decimal digit for `d < 10`.
pub open spec fn digit_char(d: nat) -> char {
    "0123456789"@[d as int]
}

/// The decimal representation of `n`, without sign or leading zeros, as
/// `u64::to_string` writes it.
pub open spec fn decimal(n: nat) -> Seq<char>
    decreases n,
{
    if n < 10 {
        seq![digit_char(n)]
    } else {
        decimal(n / 10).push(digit_char(n % 10))
    }
}

fn digit_str(d: u64) -> (r: &'static str)
    requires
        d < 10,
    ensures
        r@ == seq![digit_char(d as nat)],
{
    let digits = "0123456789";
    proof {
        reveal_strlit("0123456789");
    }
    let r = digits.substring_char(d as usize, (d + 1) as usize);
    assert(r@ =~= seq![digit_char(d as nat)]);
    r
}

/// The decimal representation of `v`.
pub fn decimal_string(v: u64) -> (r: String)
    ensures
        r@ == decimal(v as nat),
{
    let mut r = String::from_str(digit_str(v % 10));
    let mut m = v / 10;
    assert(decimal(v as nat) == if m == 0 { r@ } else { decimal(m as nat) + r@ }) by {
        if v >= 10 {
            assert(decimal(v as nat) =~= decimal(m as nat) + r@);
        }
    }
    while m > 0
        invariant
            decimal(v as nat) == if m == 0 { r@ } else { decimal(m as nat) + r@ },
        decreases m,
    {
        let d = digit_str(m % 10);
        let ghost old_r = r@;
        r = concat2(d, r.as_str());
        proof {
            if m >= 10 {
                assert(decimal(m as nat) + old_r =~= decimal((m / 10) as nat) + r@);
            } else {
                assert(decimal(m as nat) + old_r =~= r@);
            }
        }
        m = m / 10;
    }
    r
}


/// Whether two strings are equal.
pub fn str_equal(a: &str, b: &str) -> (r: bool)
    ensures
        r == (a@ == b@),
{
    let n = a.unicode_len();
    if n != b.unicode_len() {
        return false;
    }
    let r = starts_with(a, b);
    assert(a@.subrange(0, n as int) =~= a@);
    r
}


/// A copy of a list of strings.
pub fn clone_strings(v: &Vec<String>) -> (r: Vec<String>)
    ensures
        r@ == v@,
{
    let mut r: Vec<String> = Vec::new();
    let mut i: usize = 0;
    while i < v.len()
        invariant
            i <= v@.len(),
            r@ == v@.take(i as int),
        decreases v@.len() - i,
    {
        r.push(v[i].clone());
        assert(r@ =~= v@.take(i + 1));
        i += 1;
    }
    assert(v@.take(v@.len() as int) =~= v@);
    r
}


/// The views of a list of strings.
pub open spec fn views(v: Seq<String>) -> Seq<Seq<char>> {
    v.map_values(|s: String| s@)
}

/// Appends each of `items` to `r`, in order.
pub fn push_strs(r: &mut Vec<String>, items: &[&str])
    ensures
        views(final(r)@) == views(old(r)@) + items@.map_values(|s: &str| s@),
{
    let ghost start = views(r@);
    let mut i: usize = 0;
    while i < items.len()
        invariant
            i <= items@.len(),
            views(r@) == start + items@.take(i as int).map_values(|s: &str| s@),
        decreases items@.len() - i,
    {
        let ghost before = views(r@);
        let item = String::from_str(items[i]);
        r.push(item);
        assert(views(r@) =~= before.push(items@[i as int]@));
        assert(items@.take(i + 1).map_values(|s: &str| s@) =~= items@.take(i as int).map_values(
            |s: &str| s@,
        ).push(items@[i as int]@));
        i += 1;
    }
    assert(items@.take(items@.len() as int) =~= items@);
}


/// The items joined with `sep` between consecutive items.
pub open spec fn joined(items: Seq<Seq<char>>, sep: Seq<char>) -> Seq<char>
    decreases items.len(),
{
    if items.len() == 0 {
        Seq::<char>::empty()
    } else if items.len() == 1 {
        items[0]
    } else {
        joined(items.drop_last(), sep) + sep + items.last()
    }
}

/// The items joined with `sep` between consecutive items, as `join` on a
/// slice of strings gives it.
pub fn join_strings(items: &[String], sep: &str) -> (r: String)
    ensures
        r@ == joined(views(items@), sep@),
{
    let mut r = String::new();
    let mut i: usize = 0;
    while i < items.len()
        invariant
            i <= items@.len(),
            r@ == joined(views(items@.take(i as int)), sep@),
        decreases items@.len() - i,
    {
        let ghost before = views(items@.take(i as int));
        if i == 0 {
            r = String::from_str(items[0].as_str());
        } else {
            r.append(sep);
            r.append(items[i].as_str());
        }
        proof {
            let t = views(items@.take(i + 1));
            assert(t.drop_last() =~= before);
            assert(t.last() == items@[i as int]@);
            if i == 0 {
                assert(t =~= seq![items@[0]@]);
            }
        }
        i += 1;
    }
    assert(items@.take(items@.len() as int) =~= items@);
    r
}

} // verus!
