//! Decimal text of unsigned integers and of fixed-point quantities.

use vstd::prelude::*;
use vstd::string::StrSliceExecFns;
use vstd::string::StringExecFns;

verus! {

/// The character of a decimal digit.
pub open spec fn digit_char(d: nat) -> char {
    if d == 0 {
        '0'
    } else if d == 1 {
        '1'
    } else if d == 2 {
        '2'
    } else if d == 3 {
        '3'
    } else if d == 4 {
        '4'
    } else if d == 5 {
        '5'
    } else if d == 6 {
        '6'
    } else if d == 7 {
        '7'
    } else if d == 8 {
        '8'
    } else {
        '9'
    }
}

/// The decimal digits of `n`, most significant first, without leading zeros.
pub open spec fn digits(n: nat) -> Seq<char>
    decreases n,
{
    if n < 10 {
        seq![digit_char(n)]
    } else {
        digits(n / 10) + seq![digit_char(n % 10)]
    }
}

/// `k` spaces.
pub open spec fn spaces(k: nat) -> Seq<char> {
    Seq::new(k, |i: int| ' ')
}

/// `s` padded on the right with spaces to at least `width` characters.
pub open spec fn pad_right(s: Seq<char>, width: nat) -> Seq<char> {
    if s.len() < width {
        s + spaces((width - s.len()) as nat)
    } else {
        s
    }
}

/// `num / den` rounded to the nearest integer, ties to the even one.
pub open spec fn round_half_even(num: nat, den: nat) -> nat
    recommends
        den > 0,
{
    let q = num / den;
    let r = num % den;
    if 2 * r > den || (2 * r == den && q % 2 == 1) {
        q + 1
    } else {
        q
    }
}

/// A quantity held in thousandths, written with three decimals (`1.250`).
pub open spec fn thousandths_text(v: nat) -> Seq<char> {
    let f = v % 1000;
    digits(v / 1000) + seq!['.', digit_char(f / 100), digit_char((f / 10) % 10), digit_char(f % 10)]
}

/// A quantity held in hundredths, written with two decimals (`2.05`).
pub open spec fn hundredths_text(v: nat) -> Seq<char> {
    let f = v % 100;
    digits(v / 100) + seq!['.', digit_char(f / 10), digit_char(f % 10)]
}

/// The decimal text of a signed integer.
pub open spec fn signed_text(v: int) -> Seq<char> {
    if v < 0 {
        seq!['-'] + digits((-v) as nat)
    } else {
        digits(v as nat)
    }
}

/// The one-character string of a decimal digit.
fn digit_str(d: u128) -> (r: &'static str)
    requires
        d < 10,
    ensures
        r@ == seq![digit_char(d as nat)],
{
    if d == 0 {
        proof { reveal_strlit("0"); }
        "0"
    } else if d == 1 {
        proof { reveal_strlit("1"); }
        "1"
    } else if d == 2 {
        proof { reveal_strlit("2"); }
        "2"
    } else if d == 3 {
        proof { reveal_strlit("3"); }
        "3"
    } else if d == 4 {
        proof { reveal_strlit("4"); }
        "4"
    } else if d == 5 {
        proof { reveal_strlit("5"); }
        "5"
    } else if d == 6 {
        proof { reveal_strlit("6"); }
        "6"
    } else if d == 7 {
        proof { reveal_strlit("7"); }
        "7"
    } else if d == 8 {
        proof { reveal_strlit("8"); }
        "8"
    } else {
        proof { reveal_strlit("9"); }
        "9"
    }
}

/// Appends the decimal digits of `n` to `out`.
pub fn push_decimal(out: &mut String, n: u128)
    ensures
        final(out)@ == old(out)@ + digits(n as nat),
    decreases n,
{
    if n >= 10 {
        push_decimal(out, n / 10);
    }
    out.append(digit_str(n % 10));
    assert(final(out)@ =~= old(out)@ + digits(n as nat));
}

/// Appends the decimal text of the signed integer `v`.
pub fn push_signed(out: &mut String, v: i32)
    ensures
        final(out)@ == old(out)@ + signed_text(v as int),
{
    if v < 0 {
        proof { reveal_strlit("-"); }
        out.append("-");
        let m = -(v as i64);
        push_decimal(out, m as u128);
        assert(final(out)@ =~= old(out)@ + signed_text(v as int));
    } else {
        push_decimal(out, v as u128);
    }
}

/// Appends spaces to `s` until it holds at least `width` characters.
pub fn pad_right_to(s: String, width: usize) -> (r: String)
    ensures
        r@ == pad_right(s@, width as nat),
{
    let mut r = s;
    let mut n = r.as_str().unicode_len();
    let ghost s0 = r@;
    while n < width
        invariant
            n == r@.len(),
            s0.len() <= n,
            s0.len() < width ==> n <= width,
            s0.len() >= width ==> n == s0.len(),
            r@ =~= s0 + spaces((n - s0.len()) as nat),
        decreases width - n,
    {
        let ghost k = (n - s0.len()) as nat;
        proof { reveal_strlit(" "); }
        r.append(" ");
        n = n + 1;
        assert(spaces(k + 1) =~= spaces(k) + seq![' ']);
        assert(r@ =~= s0 + spaces((n - s0.len()) as nat));
    }
    proof {
        if s0.len() >= width {
            assert(spaces(0) =~= Seq::<char>::empty());
            assert(r@ =~= s0);
        }
    }
    assert(r@ =~= pad_right(s0, width as nat));
    r
}

/// `num / den` rounded to the nearest integer, ties to the even one.
pub fn rounded_quotient(num: u128, den: u128) -> (r: u128)
    requires
        den > 0,
    ensures
        r == round_half_even(num as nat, den as nat),
{
    let q = num / den;
    let r = num % den;
    assert(q * den <= num) by (nonlinear_arith)
        requires q == num / den, den > 0;
    if r > den - r || (r == den - r && q % 2 == 1) {
        assert(q < u128::MAX) by (nonlinear_arith)
            requires q * den <= num, den >= 2, num <= u128::MAX;
        q + 1
    } else {
        q
    }
}

/// Appends a quantity held in thousandths, with three decimals.
pub fn push_thousandths(out: &mut String, v: u128)
    ensures
        final(out)@ == old(out)@ + thousandths_text(v as nat),
{
    push_decimal(out, v / 1000);
    let f = v % 1000;
    proof { reveal_strlit("."); }
    out.append(".");
    out.append(digit_str(f / 100));
    out.append(digit_str((f / 10) % 10));
    out.append(digit_str(f % 10));
    assert(final(out)@ =~= old(out)@ + thousandths_text(v as nat));
}

/// Appends a quantity held in hundredths, with two decimals.
pub fn push_hundredths(out: &mut String, v: u128)
    ensures
        final(out)@ == old(out)@ + hundredths_text(v as nat),
{
    push_decimal(out, v / 100);
    let f = v % 100;
    proof { reveal_strlit("."); }
    out.append(".");
    out.append(digit_str(f / 10));
    out.append(digit_str(f % 10));
    assert(final(out)@ =~= old(out)@ + hundredths_text(v as nat));
}

} // verus!
