//! Decimal notation and the search for one text inside another, over
//! sequences of characters.

use vstd::prelude::*;
use vstd::string::*;

verus! {

/// The character that writes the digit `d`.
pub open spec fn digit_char(d: int) -> char {
    if d == 0 {
        '0'
    } else if d == 1 {
        '1'
    } else if d == 2 {
        '2'
    } else if d == 3 {
        '3'
    } else if d == 4 {
        '4'
    } else if d == 5 {
        '5'
    } else if d == 6 {
        '6'
    } else if d == 7 {
        '7'
    } else if d == 8 {
        '8'
    } else {
        '9'
    }
}

/// Decimal notation of a natural number, without leading zeros.
pub open spec fn decimal(n: nat) -> Seq<char>
    decreases n,
{
    if n < 10 {
        seq![digit_char(n as int)]
    } else {
        decimal(n / 10) + seq![digit_char((n % 10) as int)]
    }
}

/// The distance of `n` from zero.
pub open spec fn magnitude(n: int) -> nat {
    if n < 0 {
        (-n) as nat
    } else {
        n as nat
    }
}

/// The sign that precedes a number's digits: a minus for a negative number,
/// nothing otherwise.
pub open spec fn sign_text(n: int) -> Seq<char> {
    if n < 0 {
        seq!['-']
    } else {
        Seq::empty()
    }
}

/// Decimal notation of an integer: the sign, then the digits.
pub open spec fn signed_decimal(n: int) -> Seq<char> {
    sign_text(n) + decimal(magnitude(n))
}

/// `k` zeros in a row.
pub open spec fn zeros(k: nat) -> Seq<char> {
    Seq::new(k, |i: int| '0')
}

/// The number of zeros that bring `used` characters up to `width`.
pub open spec fn padding(used: nat, width: nat) -> nat {
    if used < width {
        (width - used) as nat
    } else {
        0
    }
}

/// Decimal notation filled up with zeros to at least `width` characters. The
/// zeros stand between the sign and the digits, and the sign counts towards
/// the width.
pub open spec fn padded_decimal(n: int, width: nat) -> Seq<char> {
    sign_text(n) + zeros(padding(sign_text(n).len() + decimal(magnitude(n)).len(), width))
        + decimal(magnitude(n))
}

/// Whether `needle` occurs in `hay` as a run of consecutive characters.
pub open spec fn occurs_in(needle: Seq<char>, hay: Seq<char>) -> bool {
    exists|i: int|
        0 <= i && i + needle.len() <= hay.len() && #[trigger] hay.subrange(
            i,
            i + needle.len(),
        ) == needle
}

/// A text occurs in whatever is built by writing something before it and
/// something after it.
pub proof fn lemma_occurs_between(before: Seq<char>, needle: Seq<char>, after: Seq<char>)
    ensures
        occurs_in(needle, before + needle + after),
{
    let hay = before + needle + after;
    let i = before.len() as int;
    assert(hay.subrange(i, i + needle.len()) =~= needle);
}

/// A text that occurs in `inner` occurs in every text that holds `inner`.
pub proof fn lemma_occurs_widen(
    needle: Seq<char>,
    before: Seq<char>,
    inner: Seq<char>,
    after: Seq<char>,
)
    requires
        occurs_in(needle, inner),
    ensures
        occurs_in(needle, before + inner + after),
{
    let i = choose|i: int|
        0 <= i && i + needle.len() <= inner.len() && #[trigger] inner.subrange(
            i,
            i + needle.len(),
        ) == needle;
    let hay = before + inner + after;
    let j = before.len() + i;
    assert(hay.subrange(j, j + needle.len()) =~= inner.subrange(i, i + needle.len()));
}

/// Decimal notation always has at least one digit.
pub proof fn lemma_decimal_nonempty(n: nat)
    ensures
        decimal(n).len() >= 1,
    decreases n,
{
    if n >= 10 {
        lemma_decimal_nonempty(n / 10);
    }
}

/// The one-character text of a digit.
fn digit_str(d: u64) -> (s: &'static str)
    requires
        d < 10,
    ensures
        s@ == seq![digit_char(d as int)],
{
    proof {
        reveal_strlit("0");
        reveal_strlit("1");
        reveal_strlit("2");
        reveal_strlit("3");
        reveal_strlit("4");
        reveal_strlit("5");
        reveal_strlit("6");
        reveal_strlit("7");
        reveal_strlit("8");
        reveal_strlit("9");
    }
    let s = if d == 0 {
        "0"
    } else if d == 1 {
        "1"
    } else if d == 2 {
        "2"
    } else if d == 3 {
        "3"
    } else if d == 4 {
        "4"
    } else if d == 5 {
        "5"
    } else if d == 6 {
        "6"
    } else if d == 7 {
        "7"
    } else if d == 8 {
        "8"
    } else {
        "9"
    };
    assert(s@ =~= seq![digit_char(d as int)]);
    s
}

/// Appends the decimal notation of `n` to `out`.
pub fn push_decimal(out: &mut String, n: u64)
    ensures
        final(out)@ == old(out)@ + decimal(n as nat),
    decreases n,
{
    if n >= 10 {
        push_decimal(out, n / 10);
    }
    out.append(digit_str(n % 10));
    assert(final(out)@ =~= old(out)@ + decimal(n as nat));
}

/// Ten to the power `k`.
pub open spec fn pow10(k: nat) -> nat
    decreases k,
{
    if k == 0 {
        1
    } else {
        10 * pow10((k - 1) as nat)
    }
}

/// Each further power is ten times the one before.
proof fn lemma_pow10_step(k: nat)
    ensures
        pow10(k + 1) == 10 * pow10(k),
{
}

/// Ten to the power 20 is beyond every `u64`.
proof fn lemma_pow10_twenty()
    ensures
        pow10(20) > u64::MAX,
{
    reveal_with_fuel(pow10, 21);
}

/// The number of digits in the decimal notation of `n`.
pub fn decimal_len(n: u64) -> (len: usize)
    ensures
        len == decimal(n as nat).len(),
        1 <= len <= 20,
{
    let mut len: usize = 1;
    let mut rest: u64 = n;
    assert(pow10(0) == 1);
    assert(rest as nat * pow10(0) <= n) by (nonlinear_arith)
        requires
            pow10(0) == 1,
            rest == n,
    ;
    while rest >= 10
        invariant
            1 <= len,
            len + decimal(rest as nat).len() == decimal(n as nat).len() + 1,
            rest as nat * pow10((len - 1) as nat) <= n,
            len <= 20,
        decreases rest,
    {
        proof {
            lemma_pow10_step((len - 1) as nat);
            assert((rest / 10) as nat * pow10(len as nat) <= n) by (nonlinear_arith)
                requires
                    rest as nat * pow10((len - 1) as nat) <= n,
                    pow10(len as nat) == 10 * pow10((len - 1) as nat),
                    rest >= 0,
                    (rest / 10) * 10 <= rest,
            ;
            if len == 20 {
                lemma_pow10_twenty();
                assert(false) by (nonlinear_arith)
                    requires
                        (rest / 10) as nat * pow10(20) <= n,
                        rest / 10 >= 1,
                        pow10(20) > u64::MAX,
                        n <= u64::MAX,
                ;
            }
        }
        rest = rest / 10;
        len = len + 1;
    }
    len
}

/// The distance of `n` from zero, as a machine integer.
pub fn magnitude_of(n: i64) -> (m: u64)
    ensures
        m == magnitude(n as int),
{
    if n < 0 {
        let up: i64 = n + 1;
        let flipped: i64 = -up;
        (flipped as u64) + 1
    } else {
        n as u64
    }
}

/// Appends the decimal notation of `n`, with its sign, to `out`.
pub fn push_signed_decimal(out: &mut String, n: i64)
    ensures
        final(out)@ == old(out)@ + signed_decimal(n as int),
{
    if n < 0 {
        proof {
            reveal_strlit("-");
        }
        out.append("-");
    }
    push_decimal(out, magnitude_of(n));
    assert(final(out)@ =~= old(out)@ + signed_decimal(n as int));
}

/// Appends the decimal notation of `n`, filled up with zeros to at least
/// `width` characters, to `out`.
pub fn push_padded_decimal(out: &mut String, n: i64, width: usize)
    ensures
        final(out)@ == old(out)@ + padded_decimal(n as int, width as nat),
{
    let m = magnitude_of(n);
    let mut used: usize = decimal_len(m);
    if n < 0 {
        proof {
            reveal_strlit("-");
        }
        out.append("-");
        used = used + 1;
    }
    let ghost start = out@;
    let ghost target = padding(used as nat, width as nat);
    let mut written: usize = 0;
    while used < width && written < width - used
        invariant
            used <= 21,
            written <= target,
            target == padding(used as nat, width as nat),
            out@ == start + zeros(written as nat),
        decreases target - written,
    {
        proof {
            reveal_strlit("0");
        }
        out.append("0");
        written = written + 1;
        assert(out@ =~= start + zeros(written as nat));
    }
    push_decimal(out, m);
    assert(final(out)@ =~= old(out)@ + padded_decimal(n as int, width as nat));
}

} // verus!
