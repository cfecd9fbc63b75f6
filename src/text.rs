use vstd::prelude::*;

verus! {

/// Whether `s` ends with `suffix`.
pub open spec fn ends_with(s: Seq<char>, suffix: Seq<char>) -> bool {
    suffix.len() <= s.len() && s.subrange(s.len() - suffix.len(), s.len() as int) == suffix
}

/// Whether `needle` occurs in `s` starting at index `at`.
pub open spec fn occurs_at(s: Seq<char>, needle: Seq<char>, at: int) -> bool {
    0 <= at && at + needle.len() <= s.len() && s.subrange(at, at + needle.len()) == needle
}

/// Whether `needle` occurs anywhere in `s`.
pub open spec fn contains(s: Seq<char>, needle: Seq<char>) -> bool {
    exists|at: int| occurs_at(s, needle, at)
}

/// Whether `a[a_lo..a_lo + n]` and `b[b_lo..b_lo + n]` hold the same characters.
fn same_chars(a: &str, a_lo: usize, b: &str, b_lo: usize, n: usize) -> (r: bool)
    requires
        a_lo + n <= a@.len(),
        b_lo + n <= b@.len(),
        a_lo + n <= usize::MAX,
        b_lo + n <= usize::MAX,
    ensures
        r == (a@.subrange(a_lo as int, a_lo + n) == b@.subrange(b_lo as int, b_lo + n)),
{
    let mut i: usize = 0;
    while i < n
        invariant
            i <= n,
            a_lo + n <= a@.len(),
            b_lo + n <= b@.len(),
            a_lo + n <= usize::MAX,
            b_lo + n <= usize::MAX,
            a@.subrange(a_lo as int, a_lo + i) == b@.subrange(b_lo as int, b_lo + i),
        decreases n - i,
    {
        if a.get_char(a_lo + i) != b.get_char(b_lo + i) {
            assert(a@.subrange(a_lo as int, a_lo + n)[i as int] != b@.subrange(
                b_lo as int,
                b_lo + n,
            )[i as int]);
            return false;
        }
        assert(a@.subrange(a_lo as int, a_lo + i + 1) =~= a@.subrange(a_lo as int, a_lo + i).push(
            a@[a_lo + i],
        ));
        assert(b@.subrange(b_lo as int, b_lo + i + 1) =~= b@.subrange(b_lo as int, b_lo + i).push(
            b@[b_lo + i],
        ));
        i += 1;
    }
    true
}

/// Whether `a` and `b` hold the same characters.
pub fn str_eq(a: &str, b: &str) -> (r: bool)
    ensures
        r == (a@ == b@),
{
    let n = a.unicode_len();
    if n != b.unicode_len() {
        return false;
    }
    let r = same_chars(a, 0, b, 0, n);
    assert(a@.subrange(0, n as int) =~= a@);
    assert(b@.subrange(0, n as int) =~= b@);
    r
}

/// Whether `s` ends with `suffix`.
pub fn str_ends_with(s: &str, suffix: &str) -> (r: bool)
    ensures
        r == ends_with(s@, suffix@),
{
    let n = s.unicode_len();
    let k = suffix.unicode_len();
    if k > n {
        return false;
    }
    let r = same_chars(s, n - k, suffix, 0, k);
    assert(suffix@.subrange(0, k as int) =~= suffix@);
    r
}

/// Whether `needle` occurs in `s`.
pub fn str_contains(s: &str, needle: &str) -> (r: bool)
    ensures
        r == contains(s@, needle@),
{
    let n = s.unicode_len();
    let k = needle.unicode_len();
    assert(needle@.subrange(0, k as int) =~= needle@);
    if k > n {
        assert forall|at: int| !occurs_at(s@, needle@, at) by {}
        return false;
    }
    if k == 0 {
        assert(s@.subrange(0, 0) =~= needle@);
        assert(occurs_at(s@, needle@, 0));
        return true;
    }
    let mut at: usize = 0;
    while at <= n - k
        invariant
            1 <= k <= n,
            n == s@.len(),
            k == needle@.len(),
            needle@.subrange(0, k as int) == needle@,
            forall|j: int| 0 <= j < at ==> !occurs_at(s@, needle@, j),
        decreases n - k + 1 - at,
    {
        if same_chars(s, at, needle, 0, k) {
            assert(occurs_at(s@, needle@, at as int));
            return true;
        }
        at += 1;
    }
    assert forall|j: int| !occurs_at(s@, needle@, j) by {
        if 0 <= j < at {
        }
    }
    false
}

/// Whether `c` is an ASCII decimal digit.
pub open spec fn is_digit(c: char) -> bool {
    '0' <= c && c <= '9'
}

/// The number that the decimal digits `s` spell.
pub open spec fn digits_value(s: Seq<char>) -> int
    decreases s.len(),
{
    if s.len() == 0 {
        0
    } else {
        digits_value(s.drop_last()) * 10 + (s.last() as int - '0' as int)
    }
}

/// Whether every character of `s` is a decimal digit.
pub open spec fn all_digits(s: Seq<char>) -> bool {
    forall|i: int| 0 <= i < s.len() ==> is_digit(#[trigger] s[i])
}

/// `s` without a leading `+`.
pub open spec fn unsigned_part(s: Seq<char>) -> Seq<char> {
    if s.len() > 0 && s[0] == '+' {
        s.skip(1)
    } else {
        s
    }
}

/// What reading `s` as an unsigned 64-bit decimal gives: an optional `+`,
/// then one or more digits whose value fits.
pub open spec fn parse_u64(s: Seq<char>) -> Option<u64> {
    let body = unsigned_part(s);
    if body.len() > 0 && all_digits(body) && digits_value(body) <= u64::MAX {
        Some(digits_value(body) as u64)
    } else {
        None
    }
}

proof fn lemma_digits_grow(s: Seq<char>, k: int)
    requires
        0 <= k <= s.len(),
        forall|i: int| 0 <= i < s.len() ==> is_digit(#[trigger] s[i]),
    ensures
        digits_value(s) >= digits_value(s.take(k)) >= 0,
    decreases s.len(),
{
    if k == s.len() {
        assert(s.take(k) =~= s);
        if s.len() > 0 {
            lemma_digits_grow(s.drop_last(), k - 1);
            assert(s.drop_last().take(k - 1) =~= s.drop_last());
        }
    } else {
        lemma_digits_grow(s.drop_last(), k);
        assert(s.drop_last().take(k) =~= s.take(k));
        let _ = s.last();
        assert(is_digit(s[s.len() - 1]));
    }
}

/// Reads `s[lo..hi]` as an unsigned 64-bit decimal (see `parse_u64`).
pub fn parse_u64_range(s: &str, lo: usize, hi: usize) -> (r: Option<u64>)
    requires
        lo <= hi <= s@.len(),
    ensures
        r == parse_u64(s@.subrange(lo as int, hi as int)),
{
    let ghost t = s@.subrange(lo as int, hi as int);
    let mut start = lo;
    if lo < hi && s.get_char(lo) == '+' {
        start = lo + 1;
    }
    let ghost body = s@.subrange(start as int, hi as int);
    assert(body =~= unsigned_part(t));
    if start == hi {
        return None;
    }
    let mut acc: u64 = 0;
    let mut i = start;
    while i < hi
        invariant
            lo <= start <= i <= hi <= s@.len(),
            start < hi,
            body == s@.subrange(start as int, hi as int),
            t == s@.subrange(lo as int, hi as int),
            body == unsigned_part(t),
            forall|j: int| start <= j < i ==> is_digit(#[trigger] s@[j]),
            acc as int == digits_value(s@.subrange(start as int, i as int)),
        decreases hi - i,
    {
        let c = s.get_char(i);
        if !('0' <= c && c <= '9') {
            assert(body[i - start] == s@[i as int]);
            assert(!is_digit(body[i - start]));
            return None;
        }
        let d = (c as u32 - '0' as u32) as u64;
        let ghost next = s@.subrange(start as int, i + 1);
        assert(next.drop_last() =~= s@.subrange(start as int, i as int));
        if acc > (u64::MAX - d) / 10 {
            proof {
                assert forall|j: int| 0 <= j < next.len() implies is_digit(#[trigger] next[j]) by {
                    assert(next[j] == s@[start + j]);
                }
                let a = acc as int;
                let dd = d as int;
                assert(a * 10 + dd > u64::MAX) by (nonlinear_arith)
                    requires
                        a > (u64::MAX - dd) / 10,
                        0 <= dd <= 9,
                ;
                assert(digits_value(next) > u64::MAX);
                if all_digits(body) {
                    lemma_digits_grow(body, next.len() as int);
                    assert(body.take(next.len() as int) =~= next);
                }
            }
            return None;
        }
        acc = acc * 10 + d;
        i += 1;
    }
    assert(s@.subrange(start as int, i as int) =~= body);
    Some(acc)
}

/// The index of the first `:` in `s` at or after `i`, or `s.len()`.
pub open spec fn next_colon(s: Seq<char>, i: int) -> int
    decreases s.len() - i,
{
    if i < 0 || i >= s.len() {
        s.len() as int
    } else if s[i] == ':' {
        i
    } else {
        next_colon(s, i + 1)
    }
}

/// The index of the first `:` in `s[from..]`, or its length.
pub fn find_colon(s: &str, from: usize) -> (r: usize)
    requires
        from <= s@.len(),
    ensures
        r == next_colon(s@, from as int),
        from <= r <= s@.len(),
{
    let n = s.unicode_len();
    let mut i = from;
    while i < n
        invariant
            from <= i <= n,
            n == s@.len(),
            next_colon(s@, from as int) == next_colon(s@, i as int),
        decreases n - i,
    {
        if s.get_char(i) == ':' {
            return i;
        }
        i += 1;
    }
    i
}

} // verus!
