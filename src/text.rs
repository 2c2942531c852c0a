//! Plain-text rendering used in logs, status snapshots and argument lists.

use vstd::arithmetic::power2::pow2;
use vstd::bits::{lemma_u64_pow2_no_overflow, lemma_u64_shl_is_mul};
use vstd::prelude::*;
use vstd::string::*;

verus! {

/// The character of a decimal digit.
pub open spec fn digit_char(d: nat) -> char {
    if d == 0 {
        '0'
    } else if d == 1 {
        '1'
    } else if d == 2 {
        '2'
    } else if d == 3 {
        '3'
    } else if d == 4 {
        '4'
    } else if d == 5 {
        '5'
    } else if d == 6 {
        '6'
    } else if d == 7 {
        '7'
    } else if d == 8 {
        '8'
    } else {
        '9'
    }
}

/// The decimal notation of `n`, without leading zeros.
pub open spec fn decimal(n: nat) -> Seq<char>
    decreases n,
{
    if n < 10 {
        seq![digit_char(n)]
    } else {
        decimal(n / 10).push(digit_char(n % 10))
    }
}

/// The three-digit, zero-padded notation of `n < 1000`.
pub open spec fn padded3(n: nat) -> Seq<char> {
    seq![digit_char(n / 100), digit_char((n / 10) % 10), digit_char(n % 10)]
}

/// The one-character string of the digit `d`.
fn digit_str(d: u64) -> (r: &'static str)
    requires
        d < 10,
    ensures
        r@ == seq![digit_char(d as nat)],
{
    proof {
        reveal_strlit("0");
        reveal_strlit("1");
        reveal_strlit("2");
        reveal_strlit("3");
        reveal_strlit("4");
        reveal_strlit("5");
        reveal_strlit("6");
        reveal_strlit("7");
        reveal_strlit("8");
        reveal_strlit("9");
    }
    match d {
        0 => "0",
        1 => "1",
        2 => "2",
        3 => "3",
        4 => "4",
        5 => "5",
        6 => "6",
        7 => "7",
        8 => "8",
        _ => "9",
    }
}

/// Appends the decimal notation of `n` to `s`.
pub fn push_decimal(s: &mut String, n: u64)
    ensures
        final(s)@ == old(s)@ + decimal(n as nat),
    decreases n,
{
    if n >= 10 {
        push_decimal(s, n / 10);
    }
    s.append(digit_str(n % 10));
    proof {
        if n >= 10 {
            assert(old(s)@ + decimal(n as nat) =~= (old(s)@ + decimal((n / 10) as nat)) + seq![
                digit_char((n % 10) as nat),
            ]);
        } else {
            assert(n % 10 == n);
        }
    }
}

/// The decimal notation of `n`.
pub fn decimal_string(n: u64) -> (r: String)
    ensures
        r@ == decimal(n as nat),
{
    let mut s = String::new();
    push_decimal(&mut s, n);
    assert(s@ =~= decimal(n as nat));
    s
}

/// Appends the three-digit, zero-padded notation of `n` to `s`.
pub fn push_padded3(s: &mut String, n: u64)
    requires
        n < 1000,
    ensures
        final(s)@ == old(s)@ + padded3(n as nat),
{
    s.append(digit_str(n / 100));
    s.append(digit_str((n / 10) % 10));
    s.append(digit_str(n % 10));
    assert(s@ =~= old(s)@ + padded3(n as nat));
}

/// `text` cut to its first `max` characters with `...` appended when it is
/// longer than `max`, and unchanged otherwise.
pub open spec fn truncated(text: Seq<char>, max: nat) -> Seq<char> {
    if text.len() > max {
        text.subrange(0, max as int) + seq!['.', '.', '.']
    } else {
        text
    }
}

/// Truncates `text` to `max_len` characters, marking a cut with `...`.
pub fn truncate_text(text: &str, max_len: usize) -> (r: String)
    ensures
        r@ == truncated(text@, max_len as nat),
{
    if text.unicode_len() > max_len {
        let mut s = String::from_str(text.substring_char(0, max_len));
        proof {
            reveal_strlit("...");
        }
        s.append("...");
        s
    } else {
        String::from_str(text)
    }
}

/// `10^e`.
pub open spec fn pow10(e: nat) -> nat
    decreases e,
{
    if e == 0 {
        1
    } else {
        10 * pow10((e - 1) as nat)
    }
}

/// The decimal exponent of `n`: its number of digits minus one.
pub open spec fn exponent(n: nat) -> nat
    decreases n,
{
    if n < 10 {
        0
    } else {
        1 + exponent(n / 10)
    }
}

/// The digits of a nonzero fraction `f / 1000`, trailing zeros dropped.
pub open spec fn fraction_digits(f: nat) -> Seq<char> {
    if f % 100 == 0 {
        seq![digit_char(f / 100)]
    } else if f % 10 == 0 {
        seq![digit_char(f / 100), digit_char((f / 10) % 10)]
    } else {
        padded3(f)
    }
}

/// A mantissa given in thousandths, with `d` as the decimal mark and no
/// trailing zeros.
pub open spec fn mantissa_text(milli: nat) -> Seq<char> {
    if milli % 1000 == 0 {
        decimal(milli / 1000)
    } else {
        decimal(milli / 1000) + seq!['d'] + fraction_digits(milli % 1000)
    }
}

/// `a / b` rounded to the nearest integer, a tie going to the even one.
pub open spec fn round_half_even(a: nat, b: nat) -> nat {
    let q = a / b;
    let r = a % b;
    if 2 * r > b || (2 * r == b && q % 2 == 1) {
        q + 1
    } else {
        q
    }
}

/// For `p <= n < 10 * p`, the `k` with `2^k * p <= n < 2^(k+1) * p`.
pub open spec fn binade(n: nat, p: nat) -> nat {
    if n >= 8 * p {
        3
    } else if n >= 4 * p {
        2
    } else if n >= 2 * p {
        1
    } else {
        0
    }
}

/// A binary64 number in the binade of `n / 10^exponent(n)` is a multiple
/// of `2^-significand_scale(n)`: it has 53 significant bits.
pub open spec fn significand_scale(n: nat) -> nat {
    (52 - binade(n, pow10(exponent(n)))) as nat
}

/// The binary64 number nearest `n / 10^exponent(n)` (ties to even), in
/// units of `2^-significand_scale(n)`.
pub open spec fn nearest_double_units(n: nat) -> nat {
    round_half_even(n * pow2(significand_scale(n)), pow10(exponent(n)))
}

/// Thousandths of the mantissa of `n`, rounded as floating point does it:
/// `n / 10^exponent(n)` is first rounded to the nearest binary64 number,
/// whose exact binary value is then rounded to three decimals, ties to
/// even. So `12_345` has the mantissa `1.234` (the double nearest 1.2345
/// lies below it) and `10_625` has `1.062` (1.0625 is a double, an exact
/// tie). A mantissa that rounds up to 10 stays 10 (`99_996` gives `10e4`).
pub open spec fn mantissa_milli(n: nat) -> nat {
    round_half_even(nearest_double_units(n) * 1000, pow2(significand_scale(n)))
}

/// Scientific notation of `n` as used in file names: `1d407e7`.
pub open spec fn scientific(n: nat) -> Seq<char> {
    mantissa_text(mantissa_milli(n)) + seq!['e'] + decimal(exponent(n))
}

/// `a / b` rounded to the nearest integer, a tie going to the even one.
fn round_half_even_u128(a: u128, b: u128) -> (r: u128)
    requires
        b > 0,
    ensures
        r == round_half_even(a as nat, b as nat),
        r <= a / b + 1,
{
    let q = a / b;
    let rem = a % b;
    if rem > b - rem || (rem == b - rem && q % 2 == 1) {
        // A remainder to round up means b >= 2, so q is at most a / 2.
        assert(q < u128::MAX) by (nonlinear_arith)
            requires
                b >= 2,
                q == a / b,
        ;
        q + 1
    } else {
        q
    }
}

/// Appends the digits of a nonzero fraction `f / 1000`, trailing zeros dropped.
fn push_fraction(s: &mut String, f: u64)
    requires
        0 < f < 1000,
    ensures
        final(s)@ == old(s)@ + fraction_digits(f as nat),
{
    if f % 100 == 0 {
        s.append(digit_str(f / 100));
    } else if f % 10 == 0 {
        s.append(digit_str(f / 100));
        s.append(digit_str((f / 10) % 10));
    } else {
        push_padded3(s, f);
    }
    assert(s@ =~= old(s)@ + fraction_digits(f as nat));
}

/// Writes `num` in scientific notation with at most three decimals, `d` as
/// the decimal mark, e.g. `10_000_000` as `1e7` and `14_074_000` as `1d407e7`.
/// The mantissa is rounded as a binary64 division followed by three-decimal
/// formatting would round it (see `mantissa_milli`), computed exactly in integers.
pub fn to_scientific(num: u32) -> (r: String)
    ensures
        r@ == scientific(num as nat),
{
    let n: u64 = num as u64;
    let mut q: u64 = n;
    let mut p: u64 = 1;
    let mut e: u64 = 0;
    while q >= 10
        invariant
            exponent(n as nat) == e + exponent(q as nat),
            p == pow10(e as nat),
            1 <= p,
            e <= p,
            q * p <= n,
            n < (q + 1) * p,
            n <= u32::MAX,
            p <= 0x1_0000_0000,
        decreases q,
    {
        assert(p * 10 <= q * p) by (nonlinear_arith)
            requires
                q >= 10,
                p >= 1,
        ;
        assert((q / 10) * (p * 10) <= q * p) by (nonlinear_arith)
            requires
                q >= 10,
                p >= 1,
        ;
        assert((q + 1) * p <= (q / 10 + 1) * (p * 10)) by (nonlinear_arith)
            requires
                p >= 1,
        ;
        q = q / 10;
        p = p * 10;
        e = e + 1;
    }
    assert(n < 10 * p) by (nonlinear_arith)
        requires
            n < (q + 1) * p,
            q < 10,
            p >= 1,
    ;
    let k: u64 = if n >= 8 * p {
        3
    } else if n >= 4 * p {
        2
    } else if n >= 2 * p {
        1
    } else {
        0
    };
    let shift: u64 = 52 - k;
    proof {
        lemma_u64_pow2_no_overflow(shift as nat);
        lemma_u64_shl_is_mul(1, shift);
    }
    let t: u64 = 1u64 << shift;
    let wide_n: u128 = n as u128;
    let wide_t: u128 = t as u128;
    let wide_p: u128 = p as u128;
    assert(wide_n * wide_t < 10 * wide_p * wide_t) by (nonlinear_arith)
        requires
            wide_n < 10 * wide_p,
            wide_t >= 1,
    ;
    assert(wide_n * wide_t <= 0xffff_ffff * 0xffff_ffff_ffff_ffff) by (nonlinear_arith)
        requires
            wide_n <= 0xffff_ffff,
            wide_t <= 0xffff_ffff_ffff_ffff,
    ;
    assert(((wide_n * wide_t) as int / (wide_p as int)) < 10 * wide_t) by (nonlinear_arith)
        requires
            wide_n * wide_t < 10 * wide_p * wide_t,
            wide_p >= 1,
    ;
    let units: u128 = round_half_even_u128(wide_n * wide_t, wide_p);
    assert(((units * 1000) as int / (wide_t as int)) <= 10000) by (nonlinear_arith)
        requires
            units <= 10 * wide_t,
            wide_t >= 1,
    ;
    let milli_wide: u128 = round_half_even_u128(units * 1000, wide_t);
    let milli: u64 = milli_wide as u64;
    let mut s = decimal_string(milli / 1000);
    proof {
        reveal_strlit("d");
        reveal_strlit("e");
    }
    if milli % 1000 != 0 {
        s.append("d");
        push_fraction(&mut s, milli % 1000);
    }
    s.append("e");
    push_decimal(&mut s, e);
    assert(s@ =~= scientific(num as nat));
    s
}

} // verus!
