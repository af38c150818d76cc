//! Decimal rendering of unsigned integers.

use vstd::prelude::*;

verus! {

/// The character of the decimal digit `d` (for `d < 10`).
pub open spec fn digit_char(d: nat) -> char {
    if d == 0 { '0' }
    else if d == 1 { '1' }
    else if d == 2 { '2' }
    else if d == 3 { '3' }
    else if d == 4 { '4' }
    else if d == 5 { '5' }
    else if d == 6 { '6' }
    else if d == 7 { '7' }
    else if d == 8 { '8' }
    else { '9' }
}

/// The decimal digits of `n`, most significant first, without sign or
/// leading zeros.
pub open spec fn decimal(n: nat) -> Seq<char>
    decreases n,
{
    if n < 10 {
        seq![digit_char(n)]
    } else {
        decimal(n / 10) + seq![digit_char(n % 10)]
    }
}

/// The decimal digits of `n`, or nothing for `0`.
pub open spec fn digits_or_empty(n: nat) -> Seq<char> {
    if n == 0 { Seq::empty() } else { decimal(n) }
}

/// The characters of the digits `ds`, which are stored least significant first.
pub open spec fn digits_text(ds: Seq<u32>) -> Seq<char> {
    Seq::new(ds.len(), |k: int| digit_char(ds[ds.len() - 1 - k] as nat))
}

/// Splitting off the last digit of a positive number.
proof fn lemma_digits_step(m: nat)
    requires
        m > 0,
    ensures
        digits_or_empty(m) == digits_or_empty(m / 10) + seq![digit_char(m % 10)],
{
    if m < 10 {
        assert(digits_or_empty(m / 10) + seq![digit_char(m % 10)] =~= seq![digit_char(m)]);
    }
}

/// The one-character text of the digit `d`.
fn digit_str(d: u32) -> (res: &'static str)
    requires
        d < 10,
    ensures
        res@ == seq![digit_char(d as nat)],
{
    proof {
        reveal_strlit("0");
        reveal_strlit("1");
        reveal_strlit("2");
        reveal_strlit("3");
        reveal_strlit("4");
        reveal_strlit("5");
        reveal_strlit("6");
        reveal_strlit("7");
        reveal_strlit("8");
        reveal_strlit("9");
    }
    if d == 0 { "0" }
    else if d == 1 { "1" }
    else if d == 2 { "2" }
    else if d == 3 { "3" }
    else if d == 4 { "4" }
    else if d == 5 { "5" }
    else if d == 6 { "6" }
    else if d == 7 { "7" }
    else if d == 8 { "8" }
    else { "9" }
}

/// The decimal digits of `n`, most significant first, with no sign and no
/// leading zeros.
pub fn decimal_string(n: u32) -> (res: String)
    ensures
        res@ == decimal(n as nat),
{
    if n == 0 {
        let res = digit_str(0).to_owned();
        return res;
    }
    let mut m: u32 = n;
    let mut ds: Vec<u32> = Vec::new();
    assert(digits_text(ds@) =~= Seq::<char>::empty());
    while m > 0
        invariant
            decimal(n as nat) == digits_or_empty(m as nat) + digits_text(ds@),
            forall|k: int| 0 <= k < ds@.len() ==> ds@[k] < 10,
            n > 0,
        decreases m,
    {
        proof {
            lemma_digits_step(m as nat);
        }
        let d = m % 10;
        let ghost old_ds = ds@;
        ds.push(d);
        assert(digits_text(ds@) =~= seq![digit_char(d as nat)] + digits_text(old_ds));
        m = m / 10;
    }
    assert(digits_or_empty(0) + digits_text(ds@) =~= digits_text(ds@));
    let len = ds.len();
    let mut res = String::new();
    let mut j: usize = len;
    while j > 0
        invariant
            len == ds@.len(),
            j <= len,
            forall|k: int| 0 <= k < ds@.len() ==> ds@[k] < 10,
            res@ == digits_text(ds@).subrange(0, (len - j) as int),
        decreases j,
    {
        let ghost before = res@;
        res.append(digit_str(ds[j - 1]));
        assert(res@ =~= digits_text(ds@).subrange(0, (len - j + 1) as int));
        j = j - 1;
    }
    assert(digits_text(ds@).subrange(0, len as int) =~= digits_text(ds@));
    res
}

/// The text `prefix` followed by the decimal digits of `n`.
pub fn prefixed_decimal(prefix: &str, n: u32) -> (res: String)
    ensures
        res@ == prefix@ + decimal(n as nat),
{
    let digits = decimal_string(n);
    let mut res = prefix.to_owned();
    res.append(digits.as_str());
    res
}

/// A single digit is written as itself, and appending a digit `d` to a
/// positive number `n` (giving `10 n + d`) appends its character to the
/// number's digits; distinct digits have distinct characters.
pub proof fn law_decimal(n: nat, d: nat, e: nat)
    requires
        d < 10,
        e < 10,
    ensures
        decimal(d) == seq![digit_char(d)],
        n > 0 ==> decimal(10 * n + d) == decimal(n) + seq![digit_char(d)],
        d != e ==> digit_char(d) != digit_char(e),
{
    if n > 0 {
        let m = 10 * n + d;
        assert(m / 10 == n && m % 10 == d) by (nonlinear_arith)
            requires
                m == 10 * n + d,
                d < 10,
        ;
    }
}

} // verus!
