//! Decimal rendering of natural numbers, and the half-to-even rounding that
//! fixed-precision rendering uses.
use vstd::prelude::*;
use vstd::arithmetic::div_mod::lemma_fundamental_div_mod;

verus! {

/// The ASCII character of a decimal digit `d` (`0 <= d < 10`).
pub open spec fn digit_char(d: nat) -> char {
    if d == 0 {
        '0'
    } else if d == 1 {
        '1'
    } else if d == 2 {
        '2'
    } else if d == 3 {
        '3'
    } else if d == 4 {
        '4'
    } else if d == 5 {
        '5'
    } else if d == 6 {
        '6'
    } else if d == 7 {
        '7'
    } else if d == 8 {
        '8'
    } else {
        '9'
    }
}

/// The shortest decimal text of `n`: its digits, most significant first,
/// with no leading zero (and `"0"` for zero).
pub open spec fn decimal_text(n: nat) -> Seq<char>
    decreases n,
{
    if n < 10 {
        seq![digit_char(n)]
    } else {
        decimal_text(n / 10).push(digit_char(n % 10))
    }
}

/// `n / d` rounded to the nearest natural number, a tie going to the even one.
pub open spec fn round_half_even(n: nat, d: nat) -> nat
    recommends
        d > 0,
{
    let q = n / d;
    let r = n % d;
    if 2 * r > d {
        q + 1
    } else if 2 * r == d && q % 2 == 1 {
        q + 1
    } else {
        q
    }
}

/// The text of the scaled value `q / 10^places` with exactly `places`
/// digits after the point (`places` at most 2), as `{:.places}` writes it.
pub open spec fn fixed_point_text(q: nat, places: nat) -> Seq<char> {
    if places == 0 {
        decimal_text(q)
    } else if places == 1 {
        decimal_text(q / 10) + seq!['.', digit_char(q % 10)]
    } else {
        decimal_text(q / 100) + seq!['.', digit_char((q / 10) % 10), digit_char(q % 10)]
    }
}

/// Appends the character of the digit `d` to `s`.
pub fn push_digit(s: &mut String, d: u128)
    requires
        d < 10,
    ensures
        final(s)@ == old(s)@.push(digit_char(d as nat)),
{
    proof {
        reveal_strlit("0");
        reveal_strlit("1");
        reveal_strlit("2");
        reveal_strlit("3");
        reveal_strlit("4");
        reveal_strlit("5");
        reveal_strlit("6");
        reveal_strlit("7");
        reveal_strlit("8");
        reveal_strlit("9");
    }
    if d == 0 {
        s.append("0");
    } else if d == 1 {
        s.append("1");
    } else if d == 2 {
        s.append("2");
    } else if d == 3 {
        s.append("3");
    } else if d == 4 {
        s.append("4");
    } else if d == 5 {
        s.append("5");
    } else if d == 6 {
        s.append("6");
    } else if d == 7 {
        s.append("7");
    } else if d == 8 {
        s.append("8");
    } else {
        s.append("9");
    }
}

/// Appends the decimal text of `n` to `s`.
pub fn push_decimal(s: &mut String, n: u128)
    ensures
        final(s)@ == old(s)@ + decimal_text(n as nat),
    decreases n,
{
    if n >= 10 {
        push_decimal(s, n / 10);
        push_digit(s, n % 10);
    } else {
        push_digit(s, n);
    }
}

/// Rounding half to even lands within half a step of the exact quotient:
/// `round_half_even(n, d) * d` differs from `n` by at most `d / 2`, and an
/// exact tie goes to the even quotient.
pub proof fn lemma_round_half_even_nearest(n: nat, d: nat)
    requires
        d > 0,
    ensures
        -(d as int) <= 2 * (round_half_even(n, d) * d - n) <= d,
        (2 * (round_half_even(n, d) * d - n) == d || 2 * (n - round_half_even(n, d) * d) == d)
            ==> round_half_even(n, d) % 2 == 0,
{
    let q = n / d;
    let r = n % d;
    lemma_fundamental_div_mod(n as int, d as int);
    assert(n == q * d + r) by (nonlinear_arith)
        requires
            n == d * q + r,
    ;
    assert((q + 1) * d == q * d + d) by (nonlinear_arith);
}

/// The exact quotient `n / d`, rounded half to even.
pub fn round_half_even_exec(n: u128, d: u128) -> (res: u128)
    requires
        d > 0,
    ensures
        res == round_half_even(n as nat, d as nat),
{
    let q = n / d;
    let r = n % d;
    if r > d - r || (r == d - r && q % 2 == 1) {
        assert(q < u128::MAX) by (nonlinear_arith)
            requires
                q == n / d,
                d >= 2,
        ;
        q + 1
    } else {
        q
    }
}

/// Appends `fixed_point_text(q, places)` to `s`.
pub fn push_fixed_point(s: &mut String, q: u128, places: u8)
    requires
        places <= 2,
    ensures
        final(s)@ == old(s)@ + fixed_point_text(q as nat, places as nat),
{
    proof {
        reveal_strlit(".");
    }
    if places == 0 {
        push_decimal(s, q);
    } else if places == 1 {
        push_decimal(s, q / 10);
        s.append(".");
        push_digit(s, q % 10);
    } else {
        push_decimal(s, q / 100);
        s.append(".");
        push_digit(s, (q / 10) % 10);
        push_digit(s, q % 10);
    }
}

/// Ten to the power `places`, for the precisions shown (0, 1 or 2).
pub open spec fn pow10(places: nat) -> nat {
    if places == 0 {
        1
    } else if places == 1 {
        10
    } else {
        100
    }
}

/// Rounding keeps whole bounds: if `k * d <= n` then `k <= round_half_even(n, d)`,
/// and if `n < k * d` then `round_half_even(n, d) <= k`.
pub proof fn lemma_round_half_even_bounds(n: nat, d: nat, k: nat)
    requires
        d > 0,
    ensures
        k * d <= n ==> k <= round_half_even(n, d),
        n < k * d ==> round_half_even(n, d) <= k,
{
    lemma_round_half_even_nearest(n, d);
    let r = round_half_even(n, d);
    if k * d <= n {
        assert(k <= r) by (nonlinear_arith)
            requires
                k * d <= n,
                2 * (n - r * d) <= d,
                d > 0,
        ;
    }
    if n < k * d {
        assert(r <= k) by (nonlinear_arith)
            requires
                n < k * d,
                2 * (r * d - n) <= d,
                d > 0,
        ;
    }
}

} // verus!
