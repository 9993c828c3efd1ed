//! Scanning of text reports: whitespace trimming, tokens, substring search,
//! line-oriented lookups and decimal parsing.
use vstd::prelude::*;
use vstd::string::axiom_spec_iter;

verus! {

/// The characters of `s`, in order.
pub fn chars_of(s: &str) -> (v: Vec<char>)
    ensures
        v@ == s@,
{
    broadcast use axiom_spec_iter;

    let mut v: Vec<char> = Vec::new();
    for c in it: s.chars()
        invariant
            v@ == it.seq().subrange(0, it.index() as int),
    {
        v.push(c);
        assert(v@ =~= it.seq().subrange(0, it.index() + 1));
    }
    assert(v@ =~= s@);
    v
}

/// Whether `c` has the Unicode White_Space property (as `char::is_whitespace`).
pub open spec fn is_ws(c: char) -> bool {
    ||| c == ' '
    ||| ('\u{9}' <= c && c <= '\u{d}')
    ||| c == '\u{85}'
    ||| c == '\u{a0}'
    ||| c == '\u{1680}'
    ||| ('\u{2000}' <= c && c <= '\u{200a}')
    ||| c == '\u{2028}'
    ||| c == '\u{2029}'
    ||| c == '\u{202f}'
    ||| c == '\u{205f}'
    ||| c == '\u{3000}'
}

/// Whether `c` is white space (see `is_ws`).
pub fn is_whitespace(c: char) -> (b: bool)
    ensures
        b == is_ws(c),
{
    c == ' ' || ('\u{9}' <= c && c <= '\u{d}') || c == '\u{85}' || c == '\u{a0}' || c == '\u{1680}' || (
    '\u{2000}' <= c && c <= '\u{200a}') || c == '\u{2028}' || c == '\u{2029}' || c == '\u{202f}' || c
        == '\u{205f}' || c == '\u{3000}'
}

/// `s` without its leading white space.
pub open spec fn trim_start(s: Seq<char>) -> Seq<char>
    decreases s.len(),
{
    if s.len() > 0 && is_ws(s[0]) {
        trim_start(s.drop_first())
    } else {
        s
    }
}

/// `s` without its trailing white space.
pub open spec fn trim_end(s: Seq<char>) -> Seq<char>
    decreases s.len(),
{
    if s.len() > 0 && is_ws(s.last()) {
        trim_end(s.drop_last())
    } else {
        s
    }
}

/// `s` without leading and trailing white space (as `str::trim`).
pub open spec fn trim(s: Seq<char>) -> Seq<char> {
    trim_end(trim_start(s))
}

/// The leading run of non-white-space characters of `s`.
pub open spec fn leading_token(s: Seq<char>) -> Seq<char>
    decreases s.len(),
{
    if s.len() == 0 || is_ws(s[0]) {
        Seq::empty()
    } else {
        seq![s[0]] + leading_token(s.drop_first())
    }
}

/// The first white-space-separated token of `s`, if any (as
/// `split_whitespace().next()`).
pub open spec fn first_token(s: Seq<char>) -> Option<Seq<char>> {
    if trim_start(s).len() == 0 {
        None
    } else {
        Some(leading_token(trim_start(s)))
    }
}

proof fn lemma_trim_start_step(s: Seq<char>, i: int)
    requires
        0 <= i < s.len(),
        is_ws(s[i]),
    ensures
        trim_start(s.subrange(i, s.len() as int)) == trim_start(s.subrange(i + 1, s.len() as int)),
{
    assert(s.subrange(i, s.len() as int).drop_first() =~= s.subrange(i + 1, s.len() as int));
}

proof fn lemma_trim_end_step(s: Seq<char>, j: int)
    requires
        0 < j <= s.len(),
        is_ws(s[j - 1]),
    ensures
        trim_end(s.subrange(0, j)) == trim_end(s.subrange(0, j - 1)),
{
    assert(s.subrange(0, j).drop_last() =~= s.subrange(0, j - 1));
}

/// The index of the first character of `s` from `from` on that is not
/// white space (`s.len()` if none).
pub fn skip_ws(s: &Vec<char>, from: usize) -> (i: usize)
    requires
        from <= s@.len(),
    ensures
        from <= i <= s@.len(),
        trim_start(s@.subrange(from as int, s@.len() as int)) == s@.subrange(i as int, s@.len() as int),
        i < s@.len() ==> !is_ws(s@[i as int]),
{
    let mut i = from;
    while i < s.len() && is_whitespace(s[i])
        invariant
            from <= i <= s@.len(),
            trim_start(s@.subrange(from as int, s@.len() as int)) == trim_start(
                s@.subrange(i as int, s@.len() as int),
            ),
        decreases s@.len() - i,
    {
        proof {
            lemma_trim_start_step(s@, i as int);
        }
        i = i + 1;
    }
    assert(i < s@.len() ==> s@.subrange(i as int, s@.len() as int)[0] == s@[i as int]);
    i
}

/// `s` trimmed of white space at both ends (see `trim`).
pub fn trimmed(s: &Vec<char>) -> (t: Vec<char>)
    ensures
        t@ == trim(s@),
{
    let start = skip_ws(s, 0);
    assert(s@.subrange(0, s@.len() as int) =~= s@);
    let ghost front = s@.subrange(start as int, s@.len() as int);
    let mut end = s.len();
    while end > start && is_whitespace(s[end - 1])
        invariant
            start <= end <= s@.len(),
            front == s@.subrange(start as int, s@.len() as int),
            trim_end(front) == trim_end(s@.subrange(start as int, end as int)),
        decreases end,
    {
        proof {
            let part = s@.subrange(start as int, end as int);
            lemma_trim_end_step(part, end - start);
            assert(part.subrange(0, end - start - 1) =~= s@.subrange(start as int, end - 1));
            assert(part.subrange(0, end - start) =~= part);
        }
        end = end - 1;
    }
    let mut t: Vec<char> = Vec::new();
    let mut k = start;
    while k < end
        invariant
            start <= k <= end <= s@.len(),
            t@ == s@.subrange(start as int, k as int),
        decreases end - k,
    {
        t.push(s[k]);
        k = k + 1;
        assert(t@ =~= s@.subrange(start as int, k as int));
    }
    proof {
        let part = s@.subrange(start as int, end as int);
        if part.len() > 0 {
            assert(part.last() == s@[end - 1]);
        }
        assert(trim_end(part) == part);
    }
    t
}

/// The first white-space-separated token of `s[from..]` (see
/// `first_token`).
pub fn token_at(s: &Vec<char>, from: usize) -> (r: Option<Vec<char>>)
    requires
        from <= s@.len(),
    ensures
        r matches Some(t) ==> first_token(s@.subrange(from as int, s@.len() as int)) == Some(t@),
        r is None ==> first_token(s@.subrange(from as int, s@.len() as int)) is None,
{
    let start = skip_ws(s, from);
    if start == s.len() {
        return None;
    }
    let ghost rest = s@.subrange(start as int, s@.len() as int);
    let mut t: Vec<char> = Vec::new();
    let mut k = start;
    while k < s.len() && !is_whitespace(s[k])
        invariant
            start <= k <= s@.len(),
            rest == s@.subrange(start as int, s@.len() as int),
            t@ == s@.subrange(start as int, k as int),
            leading_token(rest) == t@ + leading_token(s@.subrange(k as int, s@.len() as int)),
        decreases s@.len() - k,
    {
        proof {
            let tail = s@.subrange(k as int, s@.len() as int);
            assert(tail.drop_first() =~= s@.subrange(k + 1, s@.len() as int));
            assert(tail[0] == s@[k as int]);
        }
        t.push(s[k]);
        k = k + 1;
        assert(t@ =~= s@.subrange(start as int, k as int));
        assert(leading_token(rest) =~= t@ + leading_token(s@.subrange(k as int, s@.len() as int)));
    }
    proof {
        let tail = s@.subrange(k as int, s@.len() as int);
        if tail.len() > 0 {
            assert(tail[0] == s@[k as int]);
        }
        assert(leading_token(tail) =~= Seq::<char>::empty());
        assert(leading_token(rest) =~= t@);
    }
    Some(t)
}

/// Whether `pat` occurs in `s` at position `i`.
pub open spec fn occurs_at(s: Seq<char>, pat: Seq<char>, i: int) -> bool {
    0 <= i && i + pat.len() <= s.len() && s.subrange(i, i + pat.len()) == pat
}

/// Whether `pat` occurs in `s` (as `str::contains`).
pub open spec fn contains_seq(s: Seq<char>, pat: Seq<char>) -> bool {
    exists|i: int| occurs_at(s, pat, i)
}

/// Whether `pat` occurs in `s` at `i`.
fn matches_at(s: &Vec<char>, pat: &Vec<char>, i: usize) -> (b: bool)
    requires
        i + pat@.len() <= s@.len(),
    ensures
        b == occurs_at(s@, pat@, i as int),
{
    let _n = s.len();
    let mut k: usize = 0;
    while k < pat.len()
        invariant
            s@.len() <= usize::MAX,
            i + pat@.len() <= s@.len(),
            k <= pat@.len(),
            forall|j: int| 0 <= j < k ==> s@[i + j] == pat@[j],
        decreases pat@.len() - k,
    {
        if s[i + k] != pat[k] {
            assert(s@.subrange(i as int, i + pat@.len())[k as int] != pat@[k as int]);
            return false;
        }
        k = k + 1;
    }
    assert(s@.subrange(i as int, i + pat@.len()) =~= pat@);
    true
}

/// Whether `pat` occurs in `s` (see `contains_seq`).
pub fn contains(s: &Vec<char>, pat: &Vec<char>) -> (b: bool)
    ensures
        b == contains_seq(s@, pat@),
{
    if pat.len() > s.len() {
        assert forall|i: int| !occurs_at(s@, pat@, i) by {}
        return false;
    }
    let last = s.len() - pat.len();
    let mut i: usize = 0;
    while i < last
        invariant
            i <= last,
            last + pat@.len() == s@.len(),
            forall|j: int| 0 <= j < i ==> !occurs_at(s@, pat@, j),
        decreases last - i,
    {
        if matches_at(s, pat, i) {
            return true;
        }
        i = i + 1;
    }
    if matches_at(s, pat, last) {
        return true;
    }
    assert forall|j: int| !occurs_at(s@, pat@, j) by {
        if 0 <= j && j + pat@.len() <= s@.len() {
            assert(j <= last);
        }
    }
    false
}

/// The index of the first line feed of `s` at or after `i` (`s.len()` if
/// none).
pub open spec fn line_end(s: Seq<char>, i: int) -> int
    decreases s.len() - i,
{
    if i >= s.len() {
        s.len() as int
    } else if s[i] == '\n' {
        i
    } else {
        line_end(s, i + 1)
    }
}

/// The line of `s` that starts at `start`, without its line ending (a line
/// feed, or a carriage return and a line feed), as `str::lines` yields it.
pub open spec fn line_text(s: Seq<char>, start: int) -> Seq<char> {
    let e = line_end(s, start);
    if e < s.len() && e > start && s[e - 1] == '\r' {
        s.subrange(start, e - 1)
    } else {
        s.subrange(start, e)
    }
}

/// What follows `prefix` on the first line of `s`, from the line starting at
/// `start` on, that begins with `prefix`.
pub open spec fn after_prefixed_line(s: Seq<char>, prefix: Seq<char>, start: int) -> Option<Seq<char>>
    decreases s.len() - start,
{
    if start < 0 || start >= s.len() {
        None
    } else {
        let l = line_text(s, start);
        if prefix.len() <= l.len() && l.subrange(0, prefix.len() as int) == prefix {
            Some(l.subrange(prefix.len() as int, l.len() as int))
        } else if line_end(s, start) < s.len() {
            proof {
                lemma_line_end_bounds(s, start);
            }
            after_prefixed_line(s, prefix, line_end(s, start) + 1)
        } else {
            None
        }
    }
}

pub proof fn lemma_line_end_bounds(s: Seq<char>, i: int)
    requires
        0 <= i <= s.len(),
    ensures
        i <= line_end(s, i) <= s.len(),
        line_end(s, i) < s.len() ==> s[line_end(s, i)] == '\n',
        forall|k: int| i <= k < line_end(s, i) ==> s[k] != '\n',
    decreases s.len() - i,
{
    if i < s.len() && s[i] != '\n' {
        lemma_line_end_bounds(s, i + 1);
    }
}

/// The index of the first line feed of `s` at or after `i`.
fn find_line_end(s: &Vec<char>, i: usize) -> (e: usize)
    requires
        i <= s@.len(),
    ensures
        e == line_end(s@, i as int),
{
    let mut e = i;
    while e < s.len() && s[e] != '\n'
        invariant
            i <= e <= s@.len(),
            line_end(s@, i as int) == line_end(s@, e as int),
        decreases s@.len() - e,
    {
        e = e + 1;
    }
    e
}

/// What follows `prefix` on the first line of `s` that begins with it (see
/// `after_prefixed_line`).
pub fn find_prefixed_line(s: &Vec<char>, prefix: &Vec<char>) -> (r: Option<Vec<char>>)
    ensures
        r matches Some(v) ==> after_prefixed_line(s@, prefix@, 0) == Some(v@),
        r is None ==> after_prefixed_line(s@, prefix@, 0) is None,
{
    let n = s.len();
    let mut start: usize = 0;
    while start < n
        invariant
            n == s@.len(),
            start <= n,
            after_prefixed_line(s@, prefix@, 0) == after_prefixed_line(s@, prefix@, start as int),
        decreases n - start,
    {
        let e = find_line_end(s, start);
        proof {
            lemma_line_end_bounds(s@, start as int);
        }
        let stop = if e < n && e > start && s[e - 1] == '\r' {
            e - 1
        } else {
            e
        };
        let ghost l = line_text(s@, start as int);
        assert(l =~= s@.subrange(start as int, stop as int));
        if prefix.len() <= stop - start {
            let mut k: usize = 0;
            let mut same = true;
            while k < prefix.len()
                invariant
                    prefix@.len() <= stop - start,
                    stop <= n,
                    n == s@.len(),
                    k <= prefix@.len(),
                    same <==> forall|j: int| 0 <= j < k ==> s@[start + j] == prefix@[j],
                decreases prefix@.len() - k,
            {
                if s[start + k] != prefix[k] {
                    same = false;
                }
                k = k + 1;
            }
            if same {
                assert(l.subrange(0, prefix@.len() as int) =~= prefix@);
                let mut rest: Vec<char> = Vec::new();
                let mut j = start + prefix.len();
                while j < stop
                    invariant
                        start + prefix@.len() <= j <= stop <= n,
                        n == s@.len(),
                        rest@ == s@.subrange(start + prefix@.len(), j as int),
                    decreases stop - j,
                {
                    rest.push(s[j]);
                    j = j + 1;
                    assert(rest@ =~= s@.subrange(start + prefix@.len(), j as int));
                }
                assert(rest@ =~= l.subrange(prefix@.len() as int, l.len() as int));
                return Some(rest);
            } else {
                proof {
                    let j = choose|j: int| 0 <= j < prefix@.len() && s@[start + j] != prefix@[j];
                    assert(l.subrange(0, prefix@.len() as int)[j] != prefix@[j]);
                }
            }
        }
        if e == n {
            return None;
        }
        start = e + 1;
    }
    None
}

/// Whether `c` is an ASCII decimal digit.
pub open spec fn is_digit(c: char) -> bool {
    '0' <= c && c <= '9'
}

/// The number written by the decimal digits `d`.
pub open spec fn digits_value(d: Seq<char>) -> nat
    decreases d.len(),
{
    if d.len() == 0 {
        0
    } else {
        (digits_value(d.drop_last()) * 10 + ((d.last() as u32) - ('0' as u32))) as nat
    }
}

/// `t` without one leading `+`.
pub open spec fn unsigned_digits(t: Seq<char>) -> Seq<char> {
    if t.len() > 0 && t[0] == '+' {
        t.drop_first()
    } else {
        t
    }
}

/// Whether every character of `d` is a decimal digit.
pub open spec fn all_digits(d: Seq<char>) -> bool {
    forall|i: int| 0 <= i < d.len() ==> is_digit(#[trigger] d[i])
}

/// The `u64` that `t` writes in base ten, with an optional leading `+`
/// (as `u64::from_str`); `None` when `t` is not such a numeral or its value
/// does not fit.
pub open spec fn parse_u64_spec(t: Seq<char>) -> Option<u64> {
    let d = unsigned_digits(t);
    if d.len() == 0 || !all_digits(d) || digits_value(d) > u64::MAX {
        None
    } else {
        Some(digits_value(d) as u64)
    }
}

/// A numeral of `d.len()` digits is below `10^d.len()` (for up to three).
pub proof fn lemma_digits_bound(d: Seq<char>)
    requires
        d.len() <= 2,
        forall|i: int| 0 <= i < d.len() ==> is_digit(#[trigger] d[i]),
    ensures
        digits_value(d) < (if d.len() == 0 { 1 } else if d.len() == 1 { 10int } else { 100int }),
    decreases d.len(),
{
    if d.len() > 0 {
        lemma_digits_bound(d.drop_last());
        assert(is_digit(d.last()));
    }
}

proof fn lemma_digits_monotone(d: Seq<char>, k: int)
    requires
        0 <= k <= d.len(),
        forall|i: int| 0 <= i < d.len() ==> is_digit(#[trigger] d[i]),
    ensures
        digits_value(d.subrange(0, k)) <= digits_value(d),
    decreases d.len() - k,
{
    if k < d.len() {
        lemma_digits_monotone(d, k + 1);
        let p = d.subrange(0, k + 1);
        assert(p.drop_last() =~= d.subrange(0, k));
        assert(is_digit(p.last()));
    } else {
        assert(d.subrange(0, k) =~= d);
    }
}

/// Parse `t` as `u64::from_str` does (see `parse_u64_spec`).
pub fn parse_u64(t: &Vec<char>) -> (r: Option<u64>)
    ensures
        r == parse_u64_spec(t@),
{
    let n = t.len();
    let start: usize = if n > 0 && t[0] == '+' {
        1
    } else {
        0
    };
    let ghost d = unsigned_digits(t@);
    assert(d =~= t@.subrange(start as int, n as int));
    if start == n {
        return None;
    }
    let mut i = start;
    while i < n
        invariant
            start <= i <= n,
            n == t@.len(),
            d == t@.subrange(start as int, n as int),
            d == unsigned_digits(t@),
            forall|j: int| 0 <= j < i - start ==> is_digit(#[trigger] d[j]),
        decreases n - i,
    {
        if !('0' <= t[i] && t[i] <= '9') {
            assert(d[i - start] == t@[i as int]);
            assert(!is_digit(d[i - start]));
            assert(!all_digits(d));
            return None;
        }
        i = i + 1;
    }
    let mut acc: u64 = 0;
    let mut k = start;
    while k < n
        invariant
            start <= k <= n,
            n == t@.len(),
            d == t@.subrange(start as int, n as int),
            d == unsigned_digits(t@),
            forall|j: int| 0 <= j < d.len() ==> is_digit(#[trigger] d[j]),
            acc == digits_value(d.subrange(0, k - start)),
        decreases n - k,
    {
        assert(is_digit(d[k - start]));
        assert(d[k - start] == t@[k as int]);
        let digit = (t[k] as u32 - '0' as u32) as u64;
        proof {
            let p = d.subrange(0, k - start + 1);
            assert(p.drop_last() =~= d.subrange(0, k - start));
            assert(p.last() == t@[k as int]);
            assert(digits_value(p) == acc * 10 + digit);
        }
        if acc > (u64::MAX - digit) / 10 {
            proof {
                lemma_digits_monotone(d, k - start + 1);
                assert(acc * 10 + digit > u64::MAX) by (nonlinear_arith)
                    requires
                        acc > (u64::MAX - digit) / 10,
                        digit <= 9,
                ;
                assert(digits_value(d) > u64::MAX);
            }
            return None;
        }
        acc = acc * 10 + digit;
        k = k + 1;
    }
    assert(d.subrange(0, d.len() as int) =~= d);
    Some(acc)
}

/// Where the first white-space-separated token of `s[from..]` starts and
/// ends: `s[start..]` is `s[from..]` without its leading white space, and
/// `s[start..end]` is the token (empty when there is none).
pub fn token_bounds(s: &Vec<char>, from: usize) -> (b: (usize, usize))
    requires
        from <= s@.len(),
    ensures
        from <= b.0 <= b.1 <= s@.len(),
        trim_start(s@.subrange(from as int, s@.len() as int)) == s@.subrange(b.0 as int, s@.len() as int),
        leading_token(s@.subrange(b.0 as int, s@.len() as int)) == s@.subrange(b.0 as int, b.1 as int),
{
    let start = skip_ws(s, from);
    let ghost rest = s@.subrange(start as int, s@.len() as int);
    let mut k = start;
    while k < s.len() && !is_whitespace(s[k])
        invariant
            start <= k <= s@.len(),
            rest == s@.subrange(start as int, s@.len() as int),
            leading_token(rest) == s@.subrange(start as int, k as int) + leading_token(
                s@.subrange(k as int, s@.len() as int),
            ),
        decreases s@.len() - k,
    {
        proof {
            let tail = s@.subrange(k as int, s@.len() as int);
            assert(tail.drop_first() =~= s@.subrange(k + 1, s@.len() as int));
            assert(tail[0] == s@[k as int]);
        }
        k = k + 1;
        assert(leading_token(rest) =~= s@.subrange(start as int, k as int) + leading_token(
            s@.subrange(k as int, s@.len() as int),
        ));
    }
    proof {
        let tail = s@.subrange(k as int, s@.len() as int);
        if tail.len() > 0 {
            assert(tail[0] == s@[k as int]);
        }
        assert(leading_token(tail) =~= Seq::<char>::empty());
        assert(leading_token(rest) =~= s@.subrange(start as int, k as int));
    }
    (start, k)
}

} // verus!
