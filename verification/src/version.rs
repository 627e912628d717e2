//! Comparing dotted version numbers.

use crate::lines::{index_of, lemma_index_of};
use crate::models::UpdateInfo;
use crate::text::{chars_of, slice_of, string_of};
use vstd::prelude::*;

verus! {

/// The version of the program.
pub const APP_VERSION: &'static str = "4.0.0";

/// The version of the program.
pub fn get_version() -> (version: String)
    ensures
        version@ == APP_VERSION@,
{
    APP_VERSION.to_owned()
}

/// The pieces of `s` between the occurrences of `c`; one more piece than
/// there are occurrences.
pub open spec fn split_on(s: Seq<char>, c: char) -> Seq<Seq<char>>
    decreases s.len(),
{
    let n = index_of(s, c);
    if 0 <= n < s.len() {
        seq![s.take(n)] + split_on(s.skip(n + 1), c)
    } else {
        seq![s]
    }
}

/// The value of a decimal digit.
pub open spec fn digit_value(c: char) -> Option<nat> {
    if '0' <= c <= '9' {
        Some((c as u32 - '0' as u32) as nat)
    } else {
        None
    }
}

/// Whether `s` consists of decimal digits.
pub open spec fn all_digits(s: Seq<char>) -> bool {
    forall|j: int| 0 <= j < s.len() ==> digit_value(#[trigger] s[j]) is Some
}

/// The number that the digits of `s` write.
pub open spec fn digits_value(s: Seq<char>) -> nat
    decreases s.len(),
{
    if s.len() == 0 {
        0
    } else {
        digits_value(s.drop_last()) * 10 + match digit_value(s.last()) {
            Some(d) => d,
            None => 0,
        }
    }
}

/// The number that `s` writes: an optional plus sign and at least one
/// decimal digit, with a value that fits in 32 bits.
pub open spec fn parse_u32(s: Seq<char>) -> Option<u32> {
    let digits = if s.len() > 0 && s[0] == '+' {
        s.skip(1)
    } else {
        s
    };
    if digits.len() > 0 && all_digits(digits) && digits_value(digits) <= u32::MAX {
        Some(digits_value(digits) as u32)
    } else {
        None
    }
}

/// The numbers among `pieces`, in order; a piece that writes no number is
/// passed over.
pub open spec fn numbers(pieces: Seq<Seq<char>>) -> Seq<u32>
    decreases pieces.len(),
{
    if pieces.len() == 0 {
        Seq::empty()
    } else {
        match parse_u32(pieces.last()) {
            Some(n) => numbers(pieces.drop_last()).push(n),
            None => numbers(pieces.drop_last()),
        }
    }
}

/// The components of a version: the numbers between its dots.
pub open spec fn components(version: Seq<char>) -> Seq<u32> {
    numbers(split_on(version, '.'))
}

/// The component at `i`, or zero where the version has fewer components.
pub open spec fn component(v: Seq<u32>, i: int) -> u32 {
    if 0 <= i < v.len() {
        v[i]
    } else {
        0
    }
}

/// Whether `a` is greater than `b` in the order of versions: at the first
/// component in which they differ, `a` holds the greater number. A missing
/// component counts as zero.
pub open spec fn is_newer(a: Seq<u32>, b: Seq<u32>) -> bool {
    exists|i: int|
        0 <= i && #[trigger] component(a, i) > component(b, i) && forall|j: int|
            0 <= j < i ==> #[trigger] component(a, j) == component(b, j)
}

/// A longer run of digits writes no smaller number.
proof fn lemma_digits_grow(s: Seq<char>, k: int)
    requires
        0 <= k <= s.len(),
    ensures
        digits_value(s.take(k)) <= digits_value(s),
    decreases s.len() - k,
{
    if k < s.len() {
        let next = s.take(k + 1);
        assert(next.drop_last() == s.take(k));
        lemma_digits_grow(s, k + 1);
    } else {
        assert(s.take(k) == s);
    }
}

/// Executable [`parse_u32`], on `s[from..to]`.
fn parse_number(s: &Vec<char>, from: usize, to: usize) -> (r: Option<u32>)
    requires
        from <= to <= s.len(),
    ensures
        r == parse_u32(s@.subrange(from as int, to as int)),
{
    let ghost piece = s@.subrange(from as int, to as int);
    let start: usize = if from < to && s[from] == '+' {
        from + 1
    } else {
        from
    };
    let ghost digits = s@.subrange(start as int, to as int);
    proof {
        if from < to && s[from as int] == '+' {
            assert(piece[0] == '+');
            assert(piece.skip(1) == digits);
        } else {
            if from < to {
                assert(piece[0] == s[from as int]);
            }
        }
    }
    if start == to {
        return None;
    }
    let mut value: u64 = 0;
    let mut i: usize = start;
    assert(digits.take(0) == Seq::<char>::empty());
    while i < to
        invariant
            start <= i <= to <= s.len(),
            start < to,
            piece == s@.subrange(from as int, to as int),
            digits == s@.subrange(start as int, to as int),
            digits == if piece.len() > 0 && piece[0] == '+' {
                piece.skip(1)
            } else {
                piece
            },
            all_digits(digits.take(i - start)),
            value == digits_value(digits.take(i - start)),
            value <= u32::MAX,
        decreases to - i,
    {
        let c = s[i];
        let ghost next = digits.take(i - start + 1);
        proof {
            assert(next.drop_last() == digits.take(i - start));
            assert(next.last() == c);
            assert(digits[i - start] == c);
        }
        if c < '0' || c > '9' {
            assert(digit_value(digits[i - start]) is None);
            return None;
        }
        let d: u64 = (c as u32 - '0' as u32) as u64;
        let grown: u64 = value * 10 + d;
        if grown > u32::MAX as u64 {
            proof {
                lemma_digits_grow(digits, i - start + 1);
            }
            return None;
        }
        proof {
            assert forall|j: int| 0 <= j < next.len() implies digit_value(#[trigger] next[j])
                is Some by {
                if j < next.len() - 1 {
                    assert(next[j] == digits.take(i - start)[j]);
                }
            }
        }
        value = grown;
        i += 1;
    }
    assert(digits.take(to - start) == digits);
    Some(value as u32)
}

/// Executable [`components`].
pub fn components_of(version: &str) -> (out: Vec<u32>)
    ensures
        out@ == components(version@),
{
    let s = chars_of(version);
    let n = s.len();
    let mut out: Vec<u32> = Vec::new();
    let mut pos: usize = 0;
    let ghost mut done: Seq<Seq<char>> = Seq::empty();
    assert(s@.skip(0) == s@);
    assert(done + split_on(s@, '.') == split_on(s@, '.'));
    loop
        invariant_except_break
            split_on(s@, '.') == done + split_on(s@.skip(pos as int), '.'),
            out@ == numbers(done),
        invariant
            pos <= n == s.len(),
            s@ == version@,
        ensures
            out@ == components(version@),
        decreases n - pos,
    {
        let ghost cur = s@.skip(pos as int);
        let mut end: usize = pos;
        while end < n && s[end] != '.'
            invariant
                pos <= end <= n == s.len(),
                forall|j: int| pos <= j < end ==> #[trigger] s[j] != '.',
            decreases n - end,
        {
            end += 1;
        }
        proof {
            assert forall|j: int| 0 <= j < end - pos implies #[trigger] cur[j] != '.' by {
                assert(cur[j] == s[pos + j]);
            }
            lemma_index_of(cur, '.', end - pos);
        }
        let parsed = parse_number(&s, pos, end);
        let ghost piece = s@.subrange(pos as int, end as int);
        proof {
            assert(done.push(piece).drop_last() == done);
        }
        match parsed {
            Some(number) => {
                out.push(number);
            },
            None => {},
        }
        if end < n {
            proof {
                assert(cur.take(end - pos) == piece);
                assert(cur.skip(end - pos + 1) == s@.skip(end + 1));
                assert(done + (seq![piece] + split_on(s@.skip(end + 1), '.')) == done.push(piece)
                    + split_on(s@.skip(end + 1), '.'));
                done = done.push(piece);
            }
            pos = end + 1;
        } else {
            proof {
                assert(piece == cur);
                assert(done + seq![cur] == done.push(piece));
                done = done.push(piece);
            }
            break;
        }
    }
    out
}

/// Whether the version `remote` is greater than the version `local`. The
/// versions are compared number by number from the left, a missing number
/// counting as zero; what stands between two dots and writes no number is
/// passed over.
pub fn version_gt(remote: &str, local: &str) -> (r: bool)
    ensures
        r == is_newer(components(remote@), components(local@)),
{
    let a = components_of(remote);
    let b = components_of(local);
    let most: usize = if a.len() > b.len() {
        a.len()
    } else {
        b.len()
    };
    let mut i: usize = 0;
    while i < most
        invariant
            i <= most,
            most >= a.len(),
            most >= b.len(),
            a@ == components(remote@),
            b@ == components(local@),
            forall|j: int| 0 <= j < i ==> #[trigger] component(a@, j) == component(b@, j),
        decreases most - i,
    {
        let x: u32 = if i < a.len() {
            a[i]
        } else {
            0
        };
        let y: u32 = if i < b.len() {
            b[i]
        } else {
            0
        };
        assert(x == component(a@, i as int) && y == component(b@, i as int));
        if x > y {
            assert(is_newer(a@, b@));
            return true;
        }
        if x < y {
            assert forall|k: int| 0 <= k && #[trigger] component(a@, k) > component(b@, k) implies !(
            forall|j: int| 0 <= j < k ==> #[trigger] component(a@, j) == component(b@, j)) by {
                if k > i {
                    assert(component(a@, i as int) != component(b@, i as int));
                }
            }
            return false;
        }
        i += 1;
    }
    assert forall|k: int| 0 <= k implies !(#[trigger] component(a@, k) > component(b@, k)) by {
        if k < most {
            assert(component(a@, k) == component(b@, k));
        }
    }
    false
}

/// `tag` without the `v`s, and then the `V`s, at its front.
pub open spec fn bare_version(tag: Seq<char>) -> Seq<char>
    decreases tag.len(),
{
    if tag.len() > 0 && tag[0] == 'v' {
        bare_version(tag.skip(1))
    } else {
        without_front(tag, 'V')
    }
}

/// `s` without the run of `c` at its front.
pub open spec fn without_front(s: Seq<char>, c: char) -> Seq<char>
    decreases s.len(),
{
    if s.len() > 0 && s[0] == c {
        without_front(s.skip(1), c)
    } else {
        s
    }
}

/// What an update check found, from the tag and the page of the latest
/// release and the version that runs. A release without a tag counts as
/// version `0`, one without a page has an empty address.
pub fn update_info(tag_name: Option<&str>, html_url: Option<&str>, current: &str) -> (info:
    UpdateInfo)
    ensures
        info.version@ == bare_version(
            match tag_name {
                Some(t) => t@,
                None => "0"@,
            },
        ),
        info.has_update == is_newer(components(info.version@), components(current@)),
        info.url@ == match html_url {
            Some(u) => u@,
            None => Seq::<char>::empty(),
        },
{
    let tag = chars_of(
        match tag_name {
            Some(t) => t,
            None => "0",
        },
    );
    let n = tag.len();
    let mut i: usize = 0;
    assert(tag@.skip(0) == tag@);
    while i < n && tag[i] == 'v'
        invariant
            i <= n == tag.len(),
            bare_version(tag@) == bare_version(tag@.skip(i as int)),
        decreases n - i,
    {
        assert(tag@.skip(i as int).skip(1) == tag@.skip(i + 1));
        i += 1;
    }
    let ghost rest = tag@.skip(i as int);
    let mut k: usize = i;
    while k < n && tag[k] == 'V'
        invariant
            i <= k <= n == tag.len(),
            without_front(tag@.skip(i as int), 'V') == without_front(tag@.skip(k as int), 'V'),
        decreases n - k,
    {
        assert(tag@.skip(k as int).skip(1) == tag@.skip(k + 1));
        k += 1;
    }
    let version = string_of(&slice_of(&tag, k, n));
    assert(tag@.subrange(k as int, n as int) == tag@.skip(k as int));
    let has_update = version_gt(version.as_str(), current);
    let url: String = match html_url {
        Some(u) => u.to_owned(),
        None => String::new(),
    };
    UpdateInfo { has_update, version, url }
}

} // verus!
