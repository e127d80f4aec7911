//! Character-level string primitives with specifications over `Seq<char>`.
//!
//! Every function here states its result over the sequence of characters of
//! its arguments. Scanning works on a `Vec<char>` so that each character is
//! looked at in constant time; results are cut out of the `&str` given.

use vstd::prelude::*;
use vstd::string::*;

verus! {

/// Whether `c` carries the Unicode `White_Space` property.
pub open spec fn is_whitespace(c: char) -> bool {
    let n = c as u32;
    ||| 0x09 <= n <= 0x0d
    ||| n == 0x20
    ||| n == 0x85
    ||| n == 0xa0
    ||| n == 0x1680
    ||| 0x2000 <= n <= 0x200a
    ||| n == 0x2028
    ||| n == 0x2029
    ||| n == 0x202f
    ||| n == 0x205f
    ||| n == 0x3000
}

/// Executable test for the Unicode `White_Space` property.
pub fn char_is_whitespace(c: char) -> (b: bool)
    ensures
        b == is_whitespace(c),
{
    let n: u32 = c as u32;
    (0x09 <= n && n <= 0x0d) || n == 0x20 || n == 0x85 || n == 0xa0 || n == 0x1680 || (0x2000 <= n
        && n <= 0x200a) || n == 0x2028 || n == 0x2029 || n == 0x202f || n == 0x205f || n == 0x3000
}

/// Collects the characters of `s` into a vector.
pub fn chars_of(s: &str) -> (v: Vec<char>)
    ensures
        v@ == s@,
{
    let mut v: Vec<char> = Vec::new();
    for c in it: s.chars()
        invariant
            v@ == it.seq().take(it.index() as int),
            it.seq() == s@,
    {
        v.push(c);
    }
    v
}

/// Number of characters at the front of `s` whose whitespace status is `ws`.
pub open spec fn leading_run(s: Seq<char>, ws: bool) -> nat
    decreases s.len(),
{
    if s.len() > 0 && is_whitespace(s[0]) == ws {
        1 + leading_run(s.drop_first(), ws)
    } else {
        0
    }
}

/// Number of characters at the back of `s` whose whitespace status is `ws`.
pub open spec fn trailing_run(s: Seq<char>, ws: bool) -> nat
    decreases s.len(),
{
    if s.len() > 0 && is_whitespace(s.last()) == ws {
        1 + trailing_run(s.drop_last(), ws)
    } else {
        0
    }
}

/// `s` without its leading whitespace.
pub open spec fn trimmed_start(s: Seq<char>) -> Seq<char> {
    s.skip(leading_run(s, true) as int)
}

/// `s` without its trailing whitespace.
pub open spec fn trimmed_end(s: Seq<char>) -> Seq<char> {
    s.take(s.len() - trailing_run(s, true))
}

/// `s` without leading and trailing whitespace.
pub open spec fn trimmed(s: Seq<char>) -> Seq<char> {
    trimmed_end(trimmed_start(s))
}

/// A leading run is exactly the longest prefix of uniform whitespace status.
pub proof fn lemma_leading_run(s: Seq<char>, ws: bool, k: int)
    requires
        0 <= k <= s.len(),
        forall|j: int| 0 <= j < k ==> is_whitespace(#[trigger] s[j]) == ws,
        k == s.len() || is_whitespace(s[k]) != ws,
    ensures
        leading_run(s, ws) == k,
    decreases k,
{
    if k > 0 {
        let rest = s.drop_first();
        assert forall|j: int| 0 <= j < k - 1 implies is_whitespace(#[trigger] rest[j]) == ws by {}
        lemma_leading_run(rest, ws, k - 1);
    }
}

/// A trailing run is exactly the longest suffix of uniform whitespace status.
pub proof fn lemma_trailing_run(s: Seq<char>, ws: bool, k: int)
    requires
        0 <= k <= s.len(),
        forall|j: int| s.len() - k <= j < s.len() ==> is_whitespace(#[trigger] s[j]) == ws,
        k == s.len() || is_whitespace(s[s.len() - k - 1]) != ws,
    ensures
        trailing_run(s, ws) == k,
    decreases k,
{
    if k > 0 {
        let rest = s.drop_last();
        assert forall|j: int| rest.len() - (k - 1) <= j < rest.len() implies is_whitespace(
            #[trigger] rest[j],
        ) == ws by {}
        lemma_trailing_run(rest, ws, k - 1);
    }
}

/// A leading run never exceeds the sequence, covers only characters of the
/// requested status, and stops at a character of the other status.
pub proof fn lemma_leading_run_bounds(s: Seq<char>, ws: bool)
    ensures
        leading_run(s, ws) <= s.len(),
        forall|j: int| 0 <= j < leading_run(s, ws) ==> is_whitespace(#[trigger] s[j]) == ws,
        leading_run(s, ws) < s.len() ==> is_whitespace(s[leading_run(s, ws) as int]) != ws,
    decreases s.len(),
{
    if s.len() > 0 && is_whitespace(s[0]) == ws {
        let rest = s.drop_first();
        lemma_leading_run_bounds(rest, ws);
        assert forall|j: int| 0 <= j < leading_run(s, ws) implies is_whitespace(#[trigger] s[j])
            == ws by {
            if j > 0 {
                assert(s[j] == rest[j - 1]);
            }
        }
    }
}

/// A trailing run never exceeds the sequence, covers only characters of the
/// requested status, and stops at a character of the other status.
pub proof fn lemma_trailing_run_bounds(s: Seq<char>, ws: bool)
    ensures
        trailing_run(s, ws) <= s.len(),
        forall|j: int|
            s.len() - trailing_run(s, ws) <= j < s.len() ==> is_whitespace(#[trigger] s[j]) == ws,
        trailing_run(s, ws) < s.len() ==> is_whitespace(s[s.len() - trailing_run(s, ws) - 1])
            != ws,
    decreases s.len(),
{
    if s.len() > 0 && is_whitespace(s.last()) == ws {
        let rest = s.drop_last();
        lemma_trailing_run_bounds(rest, ws);
        assert forall|j: int| s.len() - trailing_run(s, ws) <= j < s.len() implies is_whitespace(
            #[trigger] s[j],
        ) == ws by {
            if j < s.len() - 1 {
                assert(s[j] == rest[j]);
            }
        }
    }
}

/// What is left after trimming begins and ends with a character that is
/// not whitespace, so trimming it again changes nothing.
pub proof fn lemma_trimmed_is_tight(s: Seq<char>)
    ensures
        trimmed(s).len() > 0 ==> !is_whitespace(trimmed(s)[0]) && !is_whitespace(
            trimmed(s).last(),
        ),
        trimmed(s).len() == 0 <==> !has_word(s),
        trimmed(trimmed(s)) == trimmed(s),
{
    let t = trimmed_start(s);
    let r = trimmed(s);
    lemma_leading_run_bounds(s, true);
    lemma_trailing_run_bounds(t, true);
    if t.len() > 0 {
        assert(r[0] == t[0]);
    } else {
        assert forall|i: int| 0 <= i < s.len() implies is_whitespace(#[trigger] s[i]) by {}
    }
    lemma_leading_run(r, true, 0);
    lemma_trailing_run(r, true, 0);
}

/// End of the run of characters with whitespace status `ws` that starts at
/// `from`, looking no further than `to`.
pub(crate) fn run_end(v: &Vec<char>, from: usize, to: usize, ws: bool) -> (i: usize)
    requires
        from <= to <= v.len(),
    ensures
        from <= i <= to,
        i - from == leading_run(v@.subrange(from as int, to as int), ws),
{
    let mut i: usize = from;
    while i < to && char_is_whitespace(v[i]) == ws
        invariant
            from <= i <= to <= v.len(),
            forall|j: int| from <= j < i ==> is_whitespace(#[trigger] v@[j]) == ws,
        decreases to - i,
    {
        i += 1;
    }
    proof {
        lemma_leading_run(v@.subrange(from as int, to as int), ws, i - from);
    }
    i
}

/// Start of the run of characters with whitespace status `ws` that ends at
/// `to`, looking no further back than `from`.
pub(crate) fn run_start(v: &Vec<char>, from: usize, to: usize, ws: bool) -> (i: usize)
    requires
        from <= to <= v.len(),
    ensures
        from <= i <= to,
        to - i == trailing_run(v@.subrange(from as int, to as int), ws),
{
    let mut i: usize = to;
    while i > from && char_is_whitespace(v[i - 1]) == ws
        invariant
            from <= i <= to <= v.len(),
            forall|j: int| i <= j < to ==> is_whitespace(#[trigger] v@[j]) == ws,
        decreases i,
    {
        i -= 1;
    }
    proof {
        lemma_trailing_run(v@.subrange(from as int, to as int), ws, to - i);
    }
    i
}

/// Bounds of the part of `v[from..to]` that remains after trimming.
pub(crate) fn trim_range(v: &Vec<char>, from: usize, to: usize) -> (r: (usize, usize))
    requires
        from <= to <= v.len(),
    ensures
        from <= r.0 <= r.1 <= to,
        v@.subrange(r.0 as int, r.1 as int) == trimmed(v@.subrange(from as int, to as int)),
{
    let a = run_end(v, from, to, true);
    let b = run_start(v, a, to, true);
    proof {
        let s = v@.subrange(from as int, to as int);
        assert(trimmed_start(s) == v@.subrange(a as int, to as int));
    }
    (a, b)
}

/// `s` without leading and trailing whitespace, as a slice of `s`.
pub fn trim(s: &str) -> (r: &str)
    ensures
        r@ == trimmed(s@),
{
    let v = chars_of(s);
    let (a, b) = trim_range(&v, 0, v.len());
    assert(v@.subrange(0, v.len() as int) == v@);
    s.substring_char(a, b)
}

/// Whether `p` occurs in `v` at position `at`.
pub(crate) fn matches_at(v: &Vec<char>, at: usize, to: usize, p: &Vec<char>) -> (b: bool)
    requires
        at <= to <= v.len(),
    ensures
        b == p@.is_prefix_of(v@.subrange(at as int, to as int)),
{
    let m = p.len();
    if m > to - at {
        return false;
    }
    let mut k: usize = 0;
    while k < m
        invariant
            at <= to <= v.len(),
            m == p.len(),
            m <= to - at,
            k <= m,
            forall|j: int| 0 <= j < k ==> v@[at + j] == p@[j],
        decreases m - k,
    {
        if v[at + k] != p[k] {
            return false;
        }
        k += 1;
    }
    true
}

/// Whether `s` begins with `p`.
pub fn starts_with(s: &str, p: &str) -> (b: bool)
    ensures
        b == p@.is_prefix_of(s@),
{
    let v = chars_of(s);
    let pv = chars_of(p);
    matches_at(&v, 0, v.len(), &pv)
}

/// Whether `s` ends with `p`.
pub fn ends_with(s: &str, p: &str) -> (b: bool)
    ensures
        b == p@.is_suffix_of(s@),
{
    let v = chars_of(s);
    let pv = chars_of(p);
    if pv.len() > v.len() {
        return false;
    }
    let at = v.len() - pv.len();
    let b = matches_at(&v, at, v.len(), &pv);
    b
}

/// Whether `a` and `b` hold the same characters.
pub fn same_text(a: &str, b: &str) -> (r: bool)
    ensures
        r == (a@ == b@),
{
    let av = chars_of(a);
    let bv = chars_of(b);
    if av.len() != bv.len() {
        return false;
    }
    let r = matches_at(&av, 0, av.len(), &bv);
    proof {
        let whole = av@.subrange(0, av.len() as int);
        assert(whole == av@);
    }
    r
}

/// `s` after removing the prefix `p` as often as it occurs at the front.
pub open spec fn without_leading(s: Seq<char>, p: Seq<char>) -> Seq<char>
    decreases s.len(),
{
    if p.len() > 0 && p.is_prefix_of(s) {
        without_leading(s.skip(p.len() as int), p)
    } else {
        s
    }
}

/// `s` after removing the suffix `p` as often as it occurs at the back.
pub open spec fn without_trailing(s: Seq<char>, p: Seq<char>) -> Seq<char>
    decreases s.len(),
{
    if p.len() > 0 && p.is_suffix_of(s) {
        without_trailing(s.take(s.len() - p.len()), p)
    } else {
        s
    }
}

/// Start of what is left of `v[from..to]` once every leading `p` is removed.
pub(crate) fn strip_leading_range(v: &Vec<char>, from: usize, to: usize, p: &Vec<char>) -> (i: usize)
    requires
        from <= to <= v.len(),
    ensures
        from <= i <= to,
        v@.subrange(i as int, to as int) == without_leading(
            v@.subrange(from as int, to as int),
            p@,
        ),
{
    let m = p.len();
    if m == 0 {
        return from;
    }
    let mut i: usize = from;
    while matches_at(v, i, to, p)
        invariant
            from <= i <= to <= v.len(),
            m == p.len(),
            m > 0,
            without_leading(v@.subrange(i as int, to as int), p@) == without_leading(
                v@.subrange(from as int, to as int),
                p@,
            ),
        decreases to - i,
    {
        proof {
            let window = v@.subrange(i as int, to as int);
            assert(window.skip(m as int) == v@.subrange(i + m, to as int));
        }
        i += m;
    }
    i
}

/// End of what is left of `v[from..to]` once every trailing `p` is removed.
pub(crate) fn strip_trailing_range(v: &Vec<char>, from: usize, to: usize, p: &Vec<char>) -> (i: usize)
    requires
        from <= to <= v.len(),
    ensures
        from <= i <= to,
        v@.subrange(from as int, i as int) == without_trailing(
            v@.subrange(from as int, to as int),
            p@,
        ),
{
    let m = p.len();
    if m == 0 {
        return to;
    }
    let mut i: usize = to;
    loop
        invariant
            from <= i <= to <= v.len(),
            m == p.len(),
            m > 0,
            without_trailing(v@.subrange(from as int, i as int), p@) == without_trailing(
                v@.subrange(from as int, to as int),
                p@,
            ),
        ensures
            from <= i <= to,
            v@.subrange(from as int, i as int) == without_trailing(
                v@.subrange(from as int, to as int),
                p@,
            ),
        decreases i,
    {
        if i - from < m {
            break ;
        }
        let hit = matches_at(v, i - m, i, p);
        proof {
            let window = v@.subrange(from as int, i as int);
            assert(window.take(window.len() - m) == v@.subrange(from as int, i - m));
        }
        if !hit {
            break ;
        }
        i -= m;
    }
    i
}

/// The maximal runs of non-whitespace characters of `s`, in order: after
/// the leading whitespace comes the first word, and the words of what
/// follows it are the others. (Where a character is left after the leading
/// whitespace, the first word has a length within the bounds that the
/// condition names; they are there to show that the definition ends.)
pub open spec fn words(s: Seq<char>) -> Seq<Seq<char>>
    decreases s.len(),
{
    let gap = leading_run(s, true);
    let rest = s.skip(gap as int);
    let n = leading_run(rest, false);
    if gap < s.len() && 0 < n <= rest.len() {
        seq![rest.take(n as int)] + words(rest.skip(n as int))
    } else {
        Seq::empty()
    }
}

/// The elements of `parts` with `sep` between neighbours.
pub open spec fn joined(parts: Seq<Seq<char>>, sep: Seq<char>) -> Seq<char>
    decreases parts.len(),
{
    if parts.len() == 0 {
        Seq::empty()
    } else if parts.len() == 1 {
        parts[0]
    } else {
        joined(parts.drop_last(), sep) + sep + parts.last()
    }
}

/// Whether `s` holds a character that is not whitespace.
pub open spec fn has_word(s: Seq<char>) -> bool {
    exists|i: int| 0 <= i < s.len() && !is_whitespace(#[trigger] s[i])
}

/// A text has a word exactly when it holds a character that is not
/// whitespace.
pub proof fn lemma_words_nonempty(s: Seq<char>)
    ensures
        has_word(s) <==> words(s).len() > 0,
        words(s).len() > 0 ==> words(s)[0] == s.skip(leading_run(s, true) as int).take(
            leading_run(s.skip(leading_run(s, true) as int), false) as int,
        ),
{
    lemma_leading_run_bounds(s, true);
    let gap = leading_run(s, true);
    let rest = s.skip(gap as int);
    lemma_leading_run_bounds(rest, false);
    if gap < s.len() {
    } else {
        assert forall|i: int| 0 <= i < s.len() implies is_whitespace(#[trigger] s[i]) by {}
    }
}

/// No word is empty.
pub proof fn lemma_words_are_nonempty(s: Seq<char>)
    ensures
        forall|k: int| 0 <= k < words(s).len() ==> (#[trigger] words(s)[k]).len() > 0,
    decreases s.len(),
{
    let gap = leading_run(s, true);
    let rest = s.skip(gap as int);
    let n = leading_run(rest, false);
    if gap < s.len() && 0 < n <= rest.len() {
        lemma_words_are_nonempty(rest.skip(n as int));
        assert forall|k: int| 0 <= k < words(s).len() implies (#[trigger] words(s)[k]).len()
            > 0 by {
            if k > 0 {
                assert(words(s)[k] == words(rest.skip(n as int))[k - 1]);
            }
        }
    }
}

/// Joining leaves nothing out: the joined text is at least as long as its
/// last part.
pub proof fn lemma_joined_len(parts: Seq<Seq<char>>, sep: Seq<char>)
    ensures
        parts.len() > 0 ==> joined(parts, sep).len() >= parts.last().len(),
        parts.len() == 0 ==> joined(parts, sep).len() == 0,
{
}

/// Bounds of the words of `v[from..to]`, in order.
pub(crate) fn word_ranges(v: &Vec<char>, from: usize, to: usize) -> (r: Vec<(usize, usize)>)
    requires
        from <= to <= v.len(),
    ensures
        r@.len() == words(v@.subrange(from as int, to as int)).len(),
        forall|k: int|
            0 <= k < r@.len() ==> from <= (#[trigger] r@[k]).0 < r@[k].1 <= to && v@.subrange(
                r@[k].0 as int,
                r@[k].1 as int,
            ) == words(v@.subrange(from as int, to as int))[k],
{
    let mut r: Vec<(usize, usize)> = Vec::new();
    let mut i: usize = from;
    let ghost all = words(v@.subrange(from as int, to as int));
    loop
        invariant
            from <= i <= to <= v.len(),
            all == words(v@.subrange(from as int, to as int)),
            all == Seq::new(
                r@.len(),
                |k: int| v@.subrange(r@[k].0 as int, r@[k].1 as int),
            ) + words(v@.subrange(i as int, to as int)),
            forall|k: int| 0 <= k < r@.len() ==> from <= (#[trigger] r@[k]).0 < r@[k].1 <= to,
        ensures
            r@.len() == all.len(),
            forall|k: int|
                0 <= k < r@.len() ==> from <= (#[trigger] r@[k]).0 < r@[k].1 <= to && v@.subrange(
                    r@[k].0 as int,
                    r@[k].1 as int,
                ) == all[k],
        decreases to - i,
    {
        let a = run_end(v, i, to, true);
        let b = run_end(v, a, to, false);
        let ghost window = v@.subrange(i as int, to as int);
        let ghost before = Seq::new(
            r@.len(),
            |k: int| v@.subrange(r@[k].0 as int, r@[k].1 as int),
        );
        proof {
            assert(window.skip(a - i) == v@.subrange(a as int, to as int));
            lemma_leading_run_bounds(v@.subrange(a as int, to as int), false);
        }
        if a == to || b == a {
            break ;
        }
        proof {
            let rest = v@.subrange(a as int, to as int);
            assert(rest.take(b - a) == v@.subrange(a as int, b as int));
            assert(rest.skip(b - a) == v@.subrange(b as int, to as int));
        }
        r.push((a, b));
        proof {
            let after = Seq::new(
                r@.len(),
                |k: int| v@.subrange(r@[k].0 as int, r@[k].1 as int),
            );
        }
        i = b;
    }
    r
}

/// `s` with every occurrence of `p` removed, scanning from the left and
/// resuming after each removed occurrence. An empty `p` removes nothing.
pub open spec fn without(s: Seq<char>, p: Seq<char>) -> Seq<char>
    decreases s.len(),
{
    if p.len() == 0 || s.len() < p.len() {
        s
    } else if p.is_prefix_of(s) {
        without(s.skip(p.len() as int), p)
    } else {
        seq![s[0]] + without(s.drop_first(), p)
    }
}

/// `s` with every occurrence of `p` removed.
pub fn remove_all(s: &str, p: &str) -> (r: String)
    ensures
        r@ == without(s@, p@),
{
    let v = chars_of(s);
    let pv = chars_of(p);
    let n = v.len();
    let m = pv.len();
    if m == 0 || n < m {
        return s.to_owned();
    }
    let mut out = String::new();
    let mut kept: usize = 0;
    let mut i: usize = 0;
    proof {
        assert(s@.skip(0) == s@);
    }
    while i <= n - m
        invariant
            v@ == s@,
            pv@ == p@,
            n == v.len(),
            m == pv.len(),
            0 < m <= n,
            kept <= i <= n,
            without(s@, p@) == out@ + s@.subrange(kept as int, i as int) + without(
                s@.skip(i as int),
                p@,
            ),
        decreases n - i,
    {
        let hit = matches_at(&v, i, n, &pv);
        if hit {
            out.append(s.substring_char(kept, i));
            proof {
                assert(s@.skip(i as int).skip(m as int) == s@.skip(i + m));
            }
            i += m;
            kept = i;
        } else {
            proof {
                assert(s@.skip(i as int).drop_first() == s@.skip(i + 1));
            }
            i += 1;
        }
    }
    out.append(s.substring_char(kept, n));
    out
}

/// The character that writes the decimal digit `d`.
pub open spec fn digit_char(d: nat) -> char
    recommends
        d < 10,
{
    (0x30 + d) as char
}

/// The decimal notation of `n`, without leading zeros.
pub open spec fn decimal(n: nat) -> Seq<char>
    decreases n,
{
    if n < 10 {
        seq![digit_char(n)]
    } else {
        decimal(n / 10).push(digit_char(n % 10))
    }
}

/// The decimal notation of `i`, with a minus sign in front of a negative
/// number.
pub open spec fn signed_decimal(i: int) -> Seq<char> {
    if i < 0 {
        seq!['-'] + decimal((-i) as nat)
    } else {
        decimal(i as nat)
    }
}

/// The one-character text of the decimal digit `d`.
fn digit_text(d: u64) -> (r: &'static str)
    requires
        d < 10,
    ensures
        r@ == seq![digit_char(d as nat)],
{
    proof {
        reveal_strlit("0");
        reveal_strlit("1");
        reveal_strlit("2");
        reveal_strlit("3");
        reveal_strlit("4");
        reveal_strlit("5");
        reveal_strlit("6");
        reveal_strlit("7");
        reveal_strlit("8");
        reveal_strlit("9");
    }
    let r = if d == 0 {
        "0"
    } else if d == 1 {
        "1"
    } else if d == 2 {
        "2"
    } else if d == 3 {
        "3"
    } else if d == 4 {
        "4"
    } else if d == 5 {
        "5"
    } else if d == 6 {
        "6"
    } else if d == 7 {
        "7"
    } else if d == 8 {
        "8"
    } else {
        "9"
    };
    r
}

/// Writes `n` in decimal notation.
pub fn format_u64(n: u64) -> (r: String)
    ensures
        r@ == decimal(n as nat),
    decreases n,
{
    if n < 10 {
        digit_text(n).to_owned()
    } else {
        let mut r = format_u64(n / 10);
        r.append(digit_text(n % 10));
        r
    }
}

/// Writes `i` in decimal notation, with a minus sign if it is negative.
pub fn format_i64(i: i64) -> (r: String)
    ensures
        r@ == signed_decimal(i as int),
{
    if i >= 0 {
        format_u64(i as u64)
    } else {
        let magnitude: u64 = if i == i64::MIN {
            0x8000_0000_0000_0000u64
        } else {
            (-i) as u64
        };
        proof {
            reveal_strlit("-");
        }
        let mut r = "-".to_owned();
        r.append(format_u64(magnitude).as_str());
        r
    }
}

/// The pieces into which the occurrences of `sep` cut `s`. There is always
/// at least one piece, and a piece is empty where two separators meet or
/// one stands at either end.
pub open spec fn fields(s: Seq<char>, sep: char) -> Seq<Seq<char>>
    decreases s.len(),
{
    if s.len() == 0 {
        seq![Seq::empty()]
    } else {
        let before = fields(s.drop_last(), sep);
        if s.last() == sep {
            before.push(Seq::empty())
        } else {
            before.drop_last().push(before.last().push(s.last()))
        }
    }
}

/// There is always a piece, and the pieces with the separator put back
/// between them are the text again.
pub proof fn lemma_fields_rejoin(s: Seq<char>, sep: char)
    ensures
        fields(s, sep).len() >= 1,
        joined(fields(s, sep), seq![sep]) == s,
    decreases s.len(),
{
    if s.len() > 0 {
        let before = fields(s.drop_last(), sep);
        lemma_fields_rejoin(s.drop_last(), sep);
        let all = fields(s, sep);
        if s.last() == sep {
            assert(all.drop_last() == before);
        } else {
            if before.len() == 1 {
            } else {
                assert(all.drop_last() == before.drop_last());
                assert(s.drop_last().push(s.last()) == s);
            }
        }
    }
}

/// Bounds of the pieces into which `sep` cuts `v[from..to]`, in order.
pub(crate) fn field_ranges(v: &Vec<char>, from: usize, to: usize, sep: char) -> (r: Vec<(usize, usize)>)
    requires
        from <= to <= v.len(),
    ensures
        r@.len() == fields(v@.subrange(from as int, to as int), sep).len(),
        forall|k: int|
            0 <= k < r@.len() ==> from <= (#[trigger] r@[k]).0 <= r@[k].1 <= to && v@.subrange(
                r@[k].0 as int,
                r@[k].1 as int,
            ) == fields(v@.subrange(from as int, to as int), sep)[k],
{
    let mut r: Vec<(usize, usize)> = Vec::new();
    let mut begin: usize = from;
    let mut i: usize = from;
    proof {
        assert(v@.subrange(from as int, from as int) == Seq::<char>::empty());
    }
    while i < to
        invariant
            from <= begin <= i <= to <= v.len(),
            fields(v@.subrange(from as int, i as int), sep) == Seq::new(
                r@.len(),
                |k: int| v@.subrange(r@[k].0 as int, r@[k].1 as int),
            ).push(v@.subrange(begin as int, i as int)),
            forall|k: int| 0 <= k < r@.len() ==> from <= (#[trigger] r@[k]).0 <= r@[k].1 <= to,
        decreases to - i,
    {
        proof {
            let upto = v@.subrange(from as int, i + 1);
            assert(upto.drop_last() == v@.subrange(from as int, i as int));
            assert(v@.subrange(begin as int, i as int).push(v@[i as int]) == v@.subrange(
                begin as int,
                i + 1,
            ));
        }
        if v[i] == sep {
            r.push((begin, i));
            begin = i + 1;
            proof {
                assert(v@.subrange(i + 1, i + 1) == Seq::<char>::empty());
            }
        }
        i += 1;
    }
    r.push((begin, to));
    r
}

/// Whether `c` is one of the ten decimal digits.
pub open spec fn is_digit(c: char) -> bool {
    0x30 <= c as u32 <= 0x39
}

/// Whether `s` is made of decimal digits alone.
pub open spec fn all_digits(s: Seq<char>) -> bool {
    forall|i: int| 0 <= i < s.len() ==> is_digit(#[trigger] s[i])
}

/// The number that the digits of `s` write in decimal notation.
pub open spec fn digits_value(s: Seq<char>) -> nat
    decreases s.len(),
{
    if s.len() == 0 {
        0
    } else {
        digits_value(s.drop_last()) * 10 + (s.last() as u32 - 0x30) as nat
    }
}

/// The number that `s` writes: an optional plus sign, then at least one
/// decimal digit and nothing else, with a value that fits 32 bits.
pub open spec fn parsed_u32(s: Seq<char>) -> Option<u32> {
    let digits = if s.len() > 0 && s[0] == '+' {
        s.drop_first()
    } else {
        s
    };
    if digits.len() > 0 && all_digits(digits) && digits_value(digits) <= u32::MAX {
        Some(digits_value(digits) as u32)
    } else {
        None
    }
}

/// More digits never write a smaller number.
pub proof fn lemma_digits_value_grows(s: Seq<char>, k: int)
    requires
        all_digits(s),
        0 <= k <= s.len(),
    ensures
        digits_value(s.take(k)) <= digits_value(s),
    decreases s.len() - k,
{
    if k < s.len() {
        lemma_digits_value_grows(s, k + 1);
        assert(s.take(k + 1).drop_last() == s.take(k));
    } else {
        assert(s.take(k) == s);
    }
}

/// What is written in decimal notation reads back as the same number.
pub proof fn lemma_decimal_reads_back(n: nat)
    ensures
        decimal(n).len() > 0,
        all_digits(decimal(n)),
        digits_value(decimal(n)) == n,
        n <= u32::MAX ==> parsed_u32(decimal(n)) == Some(n as u32),
    decreases n,
{
    let d = decimal(n);
    if n < 10 {
        assert(digits_value(d.drop_last()) == 0);
    } else {
        lemma_decimal_reads_back(n / 10);
        assert(d.drop_last() == decimal(n / 10));
        assert forall|i: int| 0 <= i < d.len() implies is_digit(#[trigger] d[i]) by {}
    }
}

/// Reads `s` as an unsigned decimal number.
pub fn parse_u32(s: &str) -> (r: Option<u32>)
    ensures
        r == parsed_u32(s@),
{
    let v = chars_of(s);
    assert(v@.subrange(0, v.len() as int) == s@);
    parse_u32_range(&v, 0, v.len())
}

/// Reads `v[from..to]` as an unsigned decimal number.
pub(crate) fn parse_u32_range(v: &Vec<char>, from: usize, to: usize) -> (r: Option<u32>)
    requires
        from <= to <= v.len(),
    ensures
        r == parsed_u32(v@.subrange(from as int, to as int)),
{
    let ghost s = v@.subrange(from as int, to as int);
    let start: usize = if from < to && v[from] == '+' {
        from + 1
    } else {
        from
    };
    let ghost digits = v@.subrange(start as int, to as int);
    if start == to {
        return None;
    }
    let mut value: u64 = 0;
    let mut i: usize = start;
    while i < to
        invariant
            from <= start <= i <= to <= v.len(),
            start < to,
            s == v@.subrange(from as int, to as int),
            digits == v@.subrange(start as int, to as int),
            digits == if s.len() > 0 && s[0] == '+' {
                s.drop_first()
            } else {
                s
            },
            all_digits(digits.take(i - start)),
            value == digits_value(digits.take(i - start)),
            value <= u32::MAX,
        decreases to - i,
    {
        let c = v[i];
        let code: u32 = c as u32;
        proof {
            let upto = digits.take(i + 1 - start);
            assert(upto.drop_last() == digits.take(i - start));
        }
        if code < 0x30 || code > 0x39 {
            proof {
                assert(digits[i - start] == c);
            }
            return None;
        }
        value = value * 10 + (code - 0x30) as u64;
        if value > 0xffff_ffff {
            proof {
                if all_digits(digits) {
                    lemma_digits_value_grows(digits, i + 1 - start);
                }
            }
            return None;
        }
        i += 1;
    }
    proof {
        assert(digits.take(to - start) == digits);
    }
    Some(value as u32)
}

} // verus!
