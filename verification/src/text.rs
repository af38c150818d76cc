//! Character-level string operations with exact specifications.

use vstd::prelude::*;

verus! {

/// `p` occurs in `s` at position `i`.
pub open spec fn occurs_at(s: Seq<char>, p: Seq<char>, i: int) -> bool {
    0 <= i && i + p.len() <= s.len() && s.subrange(i, i + p.len()) == p
}

/// `s` contains `p` as a contiguous piece.
pub open spec fn contains_seq(s: Seq<char>, p: Seq<char>) -> bool {
    exists|i: int| occurs_at(s, p, i)
}

/// `s` with every leading repetition of the non-empty pattern `p` removed.
pub open spec fn strip_prefix_all(s: Seq<char>, p: Seq<char>) -> Seq<char>
    decreases s.len(),
{
    if p.len() > 0 && occurs_at(s, p, 0) {
        strip_prefix_all(s.subrange(p.len() as int, s.len() as int), p)
    } else {
        s
    }
}

/// `s` with every trailing occurrence of the character `c` removed.
pub open spec fn strip_suffix_char_all(s: Seq<char>, c: char) -> Seq<char>
    decreases s.len(),
{
    if s.len() > 0 && s.last() == c {
        strip_suffix_char_all(s.drop_last(), c)
    } else {
        s
    }
}

/// The text `a` followed by `b`.
pub fn concat2(a: &str, b: &str) -> (res: String)
    ensures
        res@ == a@ + b@,
{
    let mut res = a.to_owned();
    res.append(b);
    res
}

/// The text `a`, then `b`, then `c`.
pub fn concat3(a: &str, b: &str, c: &str) -> (res: String)
    ensures
        res@ == a@ + b@ + c@,
{
    let mut res = a.to_owned();
    res.append(b);
    res.append(c);
    res
}

/// Whether `a` and `b` hold the same characters.
pub fn str_equal(a: &str, b: &str) -> (res: bool)
    ensures
        res == (a@ == b@),
{
    if a.unicode_len() != b.unicode_len() {
        return false;
    }
    let res = occurs_at_exec(a, b, 0);
    assert(a@.subrange(0, a@.len() as int) =~= a@);
    res
}

/// Whether `p` occurs in `s` at character position `i`.
pub fn occurs_at_exec(s: &str, p: &str, i: usize) -> (res: bool)
    ensures
        res == occurs_at(s@, p@, i as int),
{
    let n = s.unicode_len();
    let m = p.unicode_len();
    if i > n || m > n - i {
        return false;
    }
    let mut k: usize = 0;
    while k < m
        invariant
            n == s@.len(),
            m == p@.len(),
            i + m <= n,
            k <= m,
            forall|j: int| 0 <= j < k ==> s@[i + j] == p@[j],
        decreases m - k,
    {
        if s.get_char(i + k) != p.get_char(k) {
            assert(s@.subrange(i as int, i + m)[k as int] != p@[k as int]);
            return false;
        }
        k = k + 1;
    }
    assert(s@.subrange(i as int, i + m) =~= p@);
    true
}

/// Whether `p` occurs anywhere in `s` (as `str::contains` with a string pattern).
pub fn contains_str(s: &str, p: &str) -> (res: bool)
    ensures
        res == contains_seq(s@, p@),
{
    let n = s.unicode_len();
    let m = p.unicode_len();
    if m > n {
        assert forall|i: int| !occurs_at(s@, p@, i) by {}
        return false;
    }
    if m == 0 {
        assert(s@.subrange(0, 0) =~= p@);
        assert(occurs_at(s@, p@, 0));
        return true;
    }
    let mut i: usize = 0;
    while i <= n - m
        invariant
            n == s@.len(),
            m == p@.len(),
            0 < m <= n,
            i <= n - m + 1,
            forall|j: int| 0 <= j < i ==> !occurs_at(s@, p@, j),
        decreases n - m + 1 - i,
    {
        if occurs_at_exec(s, p, i) {
            return true;
        }
        i = i + 1;
    }
    assert forall|j: int| !occurs_at(s@, p@, j) by {
        if 0 <= j < i {
        }
    }
    false
}

/// `s` with every leading repetition of `p` removed (as `str::trim_start_matches`
/// with a string pattern).
pub fn strip_prefix_all_exec(s: &str, p: &str) -> (res: String)
    ensures
        res@ == strip_prefix_all(s@, p@),
{
    let n = s.unicode_len();
    let m = p.unicode_len();
    if m == 0 {
        return s.to_owned();
    }
    let mut i: usize = 0;
    assert(s@.subrange(0, n as int) =~= s@);
    while occurs_at_exec(s, p, i)
        invariant
            n == s@.len(),
            m == p@.len(),
            m > 0,
            i <= n,
            strip_prefix_all(s@, p@) == strip_prefix_all(s@.subrange(i as int, n as int), p@),
        decreases n - i,
    {
        let ghost rest = s@.subrange(i as int, n as int);
        assert(rest.subrange(0, m as int) =~= s@.subrange(i as int, i + m));
        assert(rest.subrange(m as int, rest.len() as int) =~= s@.subrange(i + m, n as int));
        i = i + m;
    }
    let ghost rest = s@.subrange(i as int, n as int);
    assert(!occurs_at(rest, p@, 0)) by {
        if occurs_at(rest, p@, 0) {
            assert(rest.subrange(0, m as int) =~= s@.subrange(i as int, i + m));
        }
    }
    s.substring_char(i, n).to_owned()
}

/// `s` with every trailing `c` removed (as `str::trim_end_matches` with a
/// character pattern).
pub fn strip_suffix_char_all_exec(s: &str, c: char) -> (res: String)
    ensures
        res@ == strip_suffix_char_all(s@, c),
{
    let n = s.unicode_len();
    let mut j: usize = n;
    assert(s@.subrange(0, n as int) =~= s@);
    while j > 0 && s.get_char(j - 1) == c
        invariant
            n == s@.len(),
            j <= n,
            strip_suffix_char_all(s@, c) == strip_suffix_char_all(s@.subrange(0, j as int), c),
        decreases j,
    {
        assert(s@.subrange(0, j as int).drop_last() =~= s@.subrange(0, j - 1));
        j = j - 1;
    }
    s.substring_char(0, j).to_owned()
}

/// Removing every trailing `c` leaves a prefix of `s` that does not end with
/// `c`, and everything removed is `c`.
pub proof fn law_strip_suffix_char_all(s: Seq<char>, c: char)
    ensures
        strip_suffix_char_all(s, c).len() <= s.len(),
        s.subrange(0, strip_suffix_char_all(s, c).len() as int) == strip_suffix_char_all(s, c),
        strip_suffix_char_all(s, c).len() == 0 || strip_suffix_char_all(s, c).last() != c,
        forall|i: int| strip_suffix_char_all(s, c).len() <= i < s.len() ==> #[trigger] s[i] == c,
    decreases s.len(),
{
    if s.len() > 0 && s.last() == c {
        law_strip_suffix_char_all(s.drop_last(), c);
        let r = strip_suffix_char_all(s, c);
        assert(s.subrange(0, r.len() as int) =~= s.drop_last().subrange(0, r.len() as int));
        assert forall|i: int| r.len() <= i < s.len() implies #[trigger] s[i] == c by {
            if i < s.len() - 1 {
                assert(s[i] == s.drop_last()[i]);
            }
        }
    } else {
        assert(s.subrange(0, s.len() as int) =~= s);
    }
}

/// Removing every leading repetition of a non-empty `p` leaves a suffix of
/// `s` that does not start with `p`; what was removed is a whole number of
/// copies of `p`.
pub proof fn law_strip_prefix_all(s: Seq<char>, p: Seq<char>)
    requires
        p.len() > 0,
    ensures
        strip_prefix_all(s, p).len() <= s.len(),
        s.subrange(s.len() - strip_prefix_all(s, p).len(), s.len() as int) == strip_prefix_all(s, p),
        !occurs_at(strip_prefix_all(s, p), p, 0),
        (s.len() - strip_prefix_all(s, p).len()) % (p.len() as int) == 0,
    decreases s.len(),
{
    if occurs_at(s, p, 0) {
        let rest = s.subrange(p.len() as int, s.len() as int);
        law_strip_prefix_all(rest, p);
        let r = strip_prefix_all(s, p);
        assert(s.subrange(s.len() - r.len(), s.len() as int) =~= rest.subrange(
            rest.len() - r.len(),
            rest.len() as int,
        ));
        let x: int = rest.len() - r.len();
        let m: int = p.len() as int;
        assert((x + m) % m == 0) by (nonlinear_arith)
            requires
                x % m == 0,
                m > 0,
        ;
        assert(s.len() - r.len() == x + m);
    } else {
        assert(s.subrange(0, s.len() as int) =~= s);
        let m: int = p.len() as int;
        assert(0int % m == 0) by (nonlinear_arith)
            requires
                m > 0,
        ;
    }
}

} // verus!
