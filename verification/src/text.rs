//! Character-level text primitives shared by the rest of the crate.
//!
//! Strings are modelled by their view, a `Seq<char>`; the executable
//! functions work on `Vec<char>` and convert at the edges.

use vstd::prelude::*;
use vstd::std_specs::iter::IteratorSpec;

verus! {

/// Whether `c` carries the Unicode `White_Space` property.
pub open spec fn is_space(c: char) -> bool {
    let u = c as u32;
    ||| 0x09 <= u <= 0x0D
    ||| u == 0x20
    ||| u == 0x85
    ||| u == 0xA0
    ||| u == 0x1680
    ||| 0x2000 <= u <= 0x200A
    ||| u == 0x2028
    ||| u == 0x2029
    ||| u == 0x202F
    ||| u == 0x205F
    ||| u == 0x3000
}

/// Executable test for [`is_space`].
pub fn is_whitespace(c: char) -> (r: bool)
    ensures
        r == is_space(c),
{
    let u: u32 = c as u32;
    (0x09 <= u && u <= 0x0D) || u == 0x20 || u == 0x85 || u == 0xA0 || u == 0x1680 || (0x2000 <= u
        && u <= 0x200A) || u == 0x2028 || u == 0x2029 || u == 0x202F || u == 0x205F || u == 0x3000
}

/// The characters of `s`, in order.
pub fn chars_of(s: &str) -> (v: Vec<char>)
    ensures
        v@ == s@,
{
    let mut v: Vec<char> = Vec::new();
    let mut it = s.chars();
    let ghost total = s@;
    loop
        invariant
            it.obeys_prophetic_iter_laws(),
            total == v@ + it.remaining(),
            it.decrease() is Some,
        ensures
            v@ == total,
        decreases it.decrease()->0,
    {
        match it.next() {
            Some(c) => {
                v.push(c);
            },
            None => {
                break;
            },
        }
    }
    v
}

/// Builds the string whose characters are `chars`; trusted statement about
/// `String::from_iter`, which appends the characters it is given in order.
#[verifier::external_body]
pub(crate) fn string_of(chars: &Vec<char>) -> (s: String)
    ensures
        s@ == chars@,
{
    String::from_iter(chars)
}

/// Appends the characters of `s` to `out`.
pub fn push_text(out: &mut Vec<char>, s: &str)
    ensures
        final(out)@ == old(out)@ + s@,
{
    let mut it = s.chars();
    let ghost start = out@;
    let ghost done = Seq::<char>::empty();
    loop
        invariant
            it.obeys_prophetic_iter_laws(),
            s@ == done + it.remaining(),
            out@ == start + done,
            it.decrease() is Some,
        ensures
            out@ == start + s@,
        decreases it.decrease()->0,
    {
        match it.next() {
            Some(c) => {
                out.push(c);
                proof {
                    done = done.push(c);
                }
            },
            None => {
                break;
            },
        }
    }
}

/// Appends the characters `src[from..to]` to `out`.
pub fn push_range(out: &mut Vec<char>, src: &Vec<char>, from: usize, to: usize)
    requires
        from <= to <= src.len(),
    ensures
        final(out)@ == old(out)@ + src@.subrange(from as int, to as int),
{
    let mut i: usize = from;
    while i < to
        invariant
            from <= i <= to <= src.len(),
            out@ == old(out)@ + src@.subrange(from as int, i as int),
        decreases to - i,
    {
        out.push(src[i]);
        i += 1;
    }
}

/// Appends all of `src` to `out`.
pub fn push_all(out: &mut Vec<char>, src: &Vec<char>)
    ensures
        final(out)@ == old(out)@ + src@,
{
    push_range(out, src, 0, src.len());
    assert(src@.subrange(0, src.len() as int) == src@);
}

/// A copy of `src[from..to]`.
pub fn slice_of(src: &Vec<char>, from: usize, to: usize) -> (out: Vec<char>)
    requires
        from <= to <= src.len(),
    ensures
        out@ == src@.subrange(from as int, to as int),
{
    let mut out: Vec<char> = Vec::new();
    push_range(&mut out, src, from, to);
    out
}

/// Whether `p` occurs in `s` at offset `i`.
pub open spec fn occurs_at(s: Seq<char>, p: Seq<char>, i: int) -> bool {
    0 <= i && i + p.len() <= s.len() && s.subrange(i, i + p.len()) == p
}

/// Whether `p` is a prefix of `s`.
pub open spec fn starts_with(s: Seq<char>, p: Seq<char>) -> bool {
    occurs_at(s, p, 0)
}

/// Whether `p` occurs somewhere in `s`.
pub open spec fn contains(s: Seq<char>, p: Seq<char>) -> bool {
    exists|i: int| occurs_at(s, p, i)
}

/// Executable test for [`occurs_at`].
pub fn matches_at(s: &Vec<char>, p: &Vec<char>, i: usize) -> (r: bool)
    ensures
        r == occurs_at(s@, p@, i as int),
{
    if p.len() > s.len() || i > s.len() - p.len() {
        return false;
    }
    let mut k: usize = 0;
    while k < p.len()
        invariant
            k <= p.len(),
            i + p.len() <= s.len(),
            forall|j: int| 0 <= j < k ==> s[i + j] == p[j],
        decreases p.len() - k,
    {
        if s[i + k] != p[k] {
            proof {
                assert(s@.subrange(i as int, i + p.len())[k as int] == s[i + k]);
            }
            return false;
        }
        k += 1;
    }
    assert(s@.subrange(i as int, i + p.len()) =~= p@);
    true
}

/// Executable test for [`starts_with`].
pub fn has_prefix(s: &Vec<char>, p: &Vec<char>) -> (r: bool)
    ensures
        r == starts_with(s@, p@),
{
    matches_at(s, p, 0)
}

/// Executable test for equality of two character sequences.
pub fn same_text(a: &Vec<char>, b: &Vec<char>) -> (r: bool)
    ensures
        r == (a@ == b@),
{
    if a.len() != b.len() {
        return false;
    }
    let r = matches_at(a, b, 0);
    assert(a@.subrange(0, a.len() as int) == a@);
    r
}

/// Executable test for [`contains`].
pub fn contains_text(s: &Vec<char>, p: &Vec<char>) -> (r: bool)
    ensures
        r == contains(s@, p@),
{
    if p.len() > s.len() {
        return false;
    }
    let last: usize = s.len() - p.len();
    let mut i: usize = 0;
    loop
        invariant
            i <= last,
            last == s.len() - p.len(),
            forall|j: int| 0 <= j < i ==> !occurs_at(s@, p@, j),
        decreases last - i,
    {
        if matches_at(s, p, i) {
            return true;
        }
        if i == last {
            return false;
        }
        i += 1;
    }
}

/// Number of whitespace characters at the front of `s`.
pub open spec fn leading_spaces(s: Seq<char>) -> int
    decreases s.len(),
{
    if s.len() > 0 && is_space(s[0]) {
        1 + leading_spaces(s.drop_first())
    } else {
        0
    }
}

/// Number of whitespace characters at the back of `s`.
pub open spec fn trailing_spaces(s: Seq<char>) -> int
    decreases s.len(),
{
    if s.len() > 0 && is_space(s.last()) {
        1 + trailing_spaces(s.drop_last())
    } else {
        0
    }
}

/// Number of non-whitespace characters at the front of `s`.
pub open spec fn leading_word(s: Seq<char>) -> int
    decreases s.len(),
{
    if s.len() > 0 && !is_space(s[0]) {
        1 + leading_word(s.drop_first())
    } else {
        0
    }
}

/// `s` without its leading and trailing whitespace.
pub open spec fn trim(s: Seq<char>) -> Seq<char> {
    let a = leading_spaces(s);
    if a >= s.len() {
        Seq::empty()
    } else {
        s.subrange(a, s.len() - trailing_spaces(s))
    }
}

/// `a` is the length of the whitespace run at the front of `s`.
pub proof fn lemma_leading_spaces(s: Seq<char>, a: int)
    requires
        0 <= a <= s.len(),
        forall|j: int| 0 <= j < a ==> is_space(#[trigger] s[j]),
        a < s.len() ==> !is_space(s[a]),
    ensures
        leading_spaces(s) == a,
    decreases s.len(),
{
    if a > 0 {
        let t = s.drop_first();
        assert forall|j: int| 0 <= j < a - 1 implies is_space(#[trigger] t[j]) by {
            assert(t[j] == s[j + 1]);
        }
        lemma_leading_spaces(t, a - 1);
    }
}

/// `b` is the length of the whitespace run at the back of `s`.
pub proof fn lemma_trailing_spaces(s: Seq<char>, b: int)
    requires
        0 <= b <= s.len(),
        forall|j: int| s.len() - b <= j < s.len() ==> is_space(#[trigger] s[j]),
        b < s.len() ==> !is_space(s[s.len() - b - 1]),
    ensures
        trailing_spaces(s) == b,
    decreases s.len(),
{
    if b > 0 {
        let t = s.drop_last();
        assert forall|j: int| t.len() - (b - 1) <= j < t.len() implies is_space(#[trigger] t[j]) by {
            assert(t[j] == s[j]);
        }
        lemma_trailing_spaces(t, b - 1);
    }
}

/// `a` is the length of the non-whitespace run at the front of `s`.
pub proof fn lemma_leading_word(s: Seq<char>, a: int)
    requires
        0 <= a <= s.len(),
        forall|j: int| 0 <= j < a ==> !is_space(#[trigger] s[j]),
        a < s.len() ==> is_space(s[a]),
    ensures
        leading_word(s) == a,
    decreases s.len(),
{
    if a > 0 {
        let t = s.drop_first();
        assert forall|j: int| 0 <= j < a - 1 implies !is_space(#[trigger] t[j]) by {
            assert(t[j] == s[j + 1]);
        }
        lemma_leading_word(t, a - 1);
    }
}

/// The runs counted by [`leading_spaces`], [`trailing_spaces`] and
/// [`leading_word`] lie inside `s` and end where the spec functions say.
pub proof fn lemma_runs(s: Seq<char>)
    ensures
        0 <= leading_spaces(s) <= s.len(),
        0 <= trailing_spaces(s) <= s.len(),
        0 <= leading_word(s) <= s.len(),
        forall|j: int| 0 <= j < leading_spaces(s) ==> is_space(#[trigger] s[j]),
        leading_spaces(s) < s.len() ==> !is_space(s[leading_spaces(s)]),
        forall|j: int| s.len() - trailing_spaces(s) <= j < s.len() ==> is_space(#[trigger] s[j]),
        trailing_spaces(s) < s.len() ==> !is_space(s[s.len() - trailing_spaces(s) - 1]),
        forall|j: int| 0 <= j < leading_word(s) ==> !is_space(#[trigger] s[j]),
        leading_word(s) < s.len() ==> is_space(s[leading_word(s)]),
    decreases s.len(),
{
    if s.len() > 0 {
        let f = s.drop_first();
        let l = s.drop_last();
        lemma_runs(f);
        lemma_runs(l);
        assert forall|j: int| 0 <= j < leading_spaces(s) implies is_space(#[trigger] s[j]) by {
            if j > 0 {
                assert(s[j] == f[j - 1]);
            }
        }
        assert forall|j: int| 0 <= j < leading_word(s) implies !is_space(#[trigger] s[j]) by {
            if j > 0 {
                assert(s[j] == f[j - 1]);
            }
        }
        assert forall|j: int| s.len() - trailing_spaces(s) <= j < s.len() implies is_space(
            #[trigger] s[j],
        ) by {
            if j < s.len() - 1 {
                assert(s[j] == l[j]);
            }
        }
        if leading_spaces(s) < s.len() && is_space(s[0]) {
            assert(s[leading_spaces(s)] == f[leading_spaces(f)]);
        }
        if leading_word(s) < s.len() && !is_space(s[0]) {
            assert(s[leading_word(s)] == f[leading_word(f)]);
        }
        if trailing_spaces(s) < s.len() && is_space(s.last()) {
            assert(s[s.len() - trailing_spaces(s) - 1] == l[l.len() - trailing_spaces(l) - 1]);
        }
    }
}

/// The bounds `(a, b)` with `s[a..b] == trim(s)`.
pub fn trim_bounds(s: &Vec<char>) -> (r: (usize, usize))
    ensures
        r.0 <= r.1 <= s.len(),
        s@.subrange(r.0 as int, r.1 as int) == trim(s@),
        r.0 == s.len() || r.0 == leading_spaces(s@),
{
    let n = s.len();
    let mut a: usize = 0;
    while a < n && is_whitespace(s[a])
        invariant
            a <= n == s.len(),
            forall|j: int| 0 <= j < a ==> is_space(#[trigger] s[j]),
        decreases n - a,
    {
        a += 1;
    }
    proof {
        lemma_leading_spaces(s@, a as int);
    }
    if a == n {
        assert(s@.subrange(n as int, n as int) =~= Seq::<char>::empty());
        return (n, n);
    }
    let mut b: usize = n;
    while b > a + 1 && is_whitespace(s[b - 1])
        invariant
            a < b <= n == s.len(),
            !is_space(s[a as int]),
            forall|j: int| b <= j < n ==> is_space(#[trigger] s[j]),
        decreases b,
    {
        b -= 1;
    }
    proof {
        lemma_trailing_spaces(s@, n - b);
    }
    (a, b)
}

/// Executable [`trim`].
pub fn trim_of(s: &Vec<char>) -> (out: Vec<char>)
    ensures
        out@ == trim(s@),
{
    let (a, b) = trim_bounds(s);
    slice_of(s, a, b)
}

/// The maximal runs of non-whitespace characters of `s`, in order.
pub open spec fn split_tokens(s: Seq<char>) -> Seq<Seq<char>>
    decreases s.len(),
{
    let a = leading_spaces(s);
    if 0 <= a < s.len() {
        let rest = s.skip(a);
        let t = leading_word(rest);
        if 1 <= t <= rest.len() {
            seq![rest.take(t)] + split_tokens(rest.skip(t))
        } else {
            Seq::empty()
        }
    } else {
        Seq::empty()
    }
}

/// The views of the rows of `v`.
pub open spec fn rows(v: Seq<Vec<char>>) -> Seq<Seq<char>> {
    Seq::new(v.len(), |i: int| v[i]@)
}

/// Executable [`split_tokens`].
pub fn tokens_of(s: &Vec<char>) -> (out: Vec<Vec<char>>)
    ensures
        rows(out@) == split_tokens(s@),
{
    let n = s.len();
    let mut out: Vec<Vec<char>> = Vec::new();
    let mut pos: usize = 0;
    assert(s@.skip(0) == s@);
    assert(rows(out@) + split_tokens(s@) == split_tokens(s@));
    while pos < n
        invariant
            pos <= n == s.len(),
            split_tokens(s@) == rows(out@) + split_tokens(s@.skip(pos as int)),
        ensures
            split_tokens(s@) == rows(out@),
        decreases n - pos,
    {
        let ghost cur = s@.skip(pos as int);
        let mut a: usize = pos;
        while a < n && is_whitespace(s[a])
            invariant
                pos <= a <= n == s.len(),
                forall|j: int| pos <= j < a ==> is_space(#[trigger] s[j]),
            decreases n - a,
        {
            a += 1;
        }
        proof {
            assert forall|j: int| 0 <= j < a - pos implies is_space(#[trigger] cur[j]) by {
                assert(cur[j] == s[pos + j]);
            }
            lemma_leading_spaces(cur, a - pos);
        }
        if a == n {
            assert(split_tokens(cur) == Seq::<Seq<char>>::empty());
            assert(rows(out@) + Seq::<Seq<char>>::empty() == rows(out@));
            break;
        }
        let mut b: usize = a + 1;
        while b < n && !is_whitespace(s[b])
            invariant
                a < b <= n == s.len(),
                !is_space(s[a as int]),
                forall|j: int| a <= j < b ==> !is_space(#[trigger] s[j]),
            decreases n - b,
        {
            b += 1;
        }
        let word = slice_of(s, a, b);
        proof {
            let rest = cur.skip(a - pos);
            assert(rest == s@.skip(a as int));
            assert forall|j: int| 0 <= j < b - a implies !is_space(#[trigger] rest[j]) by {
                assert(rest[j] == s[a + j]);
            }
            lemma_leading_word(rest, b - a);
            assert(rest.take(b - a) == word@);
            assert(rest.skip(b - a) == s@.skip(b as int));
            assert(split_tokens(cur) == seq![word@] + split_tokens(s@.skip(b as int)));
            assert(rows(out@.push(word)) == rows(out@) + seq![word@]);
        }
        out.push(word);
        pos = b;
    }
    proof {
        if pos >= n {
            assert(s@.skip(pos as int).len() == 0);
            assert(split_tokens(s@.skip(pos as int)) == Seq::<Seq<char>>::empty());
            assert(rows(out@) + Seq::<Seq<char>>::empty() == rows(out@));
        }
    }
    out
}

/// The decimal digit for `d`, where `d < 10`.
pub open spec fn digit(d: nat) -> char {
    if d == 0 {
        '0'
    } else if d == 1 {
        '1'
    } else if d == 2 {
        '2'
    } else if d == 3 {
        '3'
    } else if d == 4 {
        '4'
    } else if d == 5 {
        '5'
    } else if d == 6 {
        '6'
    } else if d == 7 {
        '7'
    } else if d == 8 {
        '8'
    } else {
        '9'
    }
}

/// `n` in decimal, without leading zeros.
pub open spec fn decimal(n: nat) -> Seq<char>
    decreases n,
{
    if n < 10 {
        seq![digit(n)]
    } else {
        decimal(n / 10).push(digit(n % 10))
    }
}

/// Executable [`digit`].
pub fn digit_char(d: u8) -> (c: char)
    requires
        d < 10,
    ensures
        c == digit(d as nat),
{
    if d == 0 {
        '0'
    } else if d == 1 {
        '1'
    } else if d == 2 {
        '2'
    } else if d == 3 {
        '3'
    } else if d == 4 {
        '4'
    } else if d == 5 {
        '5'
    } else if d == 6 {
        '6'
    } else if d == 7 {
        '7'
    } else if d == 8 {
        '8'
    } else {
        '9'
    }
}

/// Appends `n` in decimal to `out`.
pub fn push_decimal(out: &mut Vec<char>, n: u64)
    ensures
        final(out)@ == old(out)@ + decimal(n as nat),
    decreases n,
{
    if n >= 10 {
        push_decimal(out, n / 10);
    }
    let d: u8 = (n % 10) as u8;
    out.push(digit_char(d));
    proof {
        if n >= 10 {
            assert(old(out)@ + decimal((n / 10) as nat).push(digit((n % 10) as nat)) == (old(out)@
                + decimal((n / 10) as nat)).push(digit((n % 10) as nat)));
        } else {
            assert(old(out)@ + seq![digit(n as nat)] == old(out)@.push(digit(n as nat)));
        }
    }
}

/// `s` with every occurrence of `p` replaced by `r`, found from left to
/// right without overlap. An empty `p` occurs nowhere.
pub open spec fn replace_all(s: Seq<char>, p: Seq<char>, r: Seq<char>) -> Seq<char>
    decreases s.len(),
{
    if p.len() == 0 || s.len() < p.len() {
        s
    } else if starts_with(s, p) {
        r + replace_all(s.skip(p.len() as int), p, r)
    } else {
        seq![s[0]] + replace_all(s.skip(1), p, r)
    }
}

/// Executable [`replace_all`].
pub fn replace_text(s: &Vec<char>, p: &Vec<char>, r: &Vec<char>) -> (out: Vec<char>)
    ensures
        out@ == replace_all(s@, p@, r@),
{
    let n = s.len();
    if p.len() == 0 {
        let out = slice_of(s, 0, n);
        assert(s@.subrange(0, n as int) == s@);
        return out;
    }
    let mut out: Vec<char> = Vec::new();
    let mut i: usize = 0;
    assert(s@.skip(0) == s@);
    assert(out@ + replace_all(s@, p@, r@) == replace_all(s@, p@, r@));
    while i < n
        invariant
            i <= n == s.len(),
            p.len() > 0,
            replace_all(s@, p@, r@) == out@ + replace_all(s@.skip(i as int), p@, r@),
        decreases n - i,
    {
        let ghost cur = s@.skip(i as int);
        let ghost before = out@;
        if matches_at(s, p, i) {
            proof {
                assert(cur.subrange(0, p.len() as int) == s@.subrange(i as int, i + p.len()));
                assert(cur.skip(p.len() as int) == s@.skip(i + p.len()));
                assert(before + (r@ + replace_all(s@.skip(i + p.len()), p@, r@)) == before + r@
                    + replace_all(s@.skip(i + p.len()), p@, r@));
            }
            push_all(&mut out, r);
            i += p.len();
        } else {
            proof {
                assert(cur.skip(1) == s@.skip(i + 1));
                if cur.len() >= p.len() {
                    assert(cur.subrange(0, p.len() as int) == s@.subrange(i as int, i + p.len()));
                } else {
                    assert(replace_all(cur.skip(1), p@, r@) == cur.skip(1));
                    assert(cur == seq![cur[0]] + cur.skip(1));
                }
                assert(before + (seq![s[i as int]] + replace_all(s@.skip(i + 1), p@, r@))
                    == before.push(s[i as int]) + replace_all(s@.skip(i + 1), p@, r@));
            }
            out.push(s[i]);
            i += 1;
        }
    }
    proof {
        assert(s@.skip(n as int).len() == 0);
        assert(out@ + replace_all(s@.skip(n as int), p@, r@) == out@);
    }
    out
}

} // verus!
