//! Integer division as Rust computes it on signed operands, and the facts
//! about it that the time types need.

use vstd::prelude::*;

verus! {

/// Quotient of `a / b` rounded toward zero, as Rust's `/` computes it for `b > 0`.
pub open spec fn tdiv(a: int, b: int) -> int {
    if a >= 0 {
        a / b
    } else {
        -((-a) / b)
    }
}

/// Remainder that goes with [`tdiv`]; it has the sign of `a`, as Rust's `%`.
pub open spec fn trem(a: int, b: int) -> int {
    a - b * tdiv(a, b)
}

/// Number of nanoseconds in a second.
pub open spec fn nanos_per_second() -> int {
    1_000_000_000
}

/// The quotient and remainder toward zero are the only pair with the
/// remainder's magnitude below the divisor and the signs in agreement.
pub proof fn lemma_tdiv_unique(t: int, x: int, y: int)
    requires
        t == x * 1_000_000_000 + y,
        -1_000_000_000 < y < 1_000_000_000,
        x > 0 ==> y >= 0,
        x < 0 ==> y <= 0,
    ensures
        tdiv(t, 1_000_000_000) == x,
        trem(t, 1_000_000_000) == y,
{
    if t >= 0 {
        assert(x >= 0) by (nonlinear_arith)
            requires
                t == x * 1_000_000_000 + y,
                -1_000_000_000 < y < 1_000_000_000,
                x < 0 ==> y <= 0,
                t >= 0,
        ;
        assert(y >= 0);
        vstd::arithmetic::div_mod::lemma_fundamental_div_mod_converse(t, 1_000_000_000, x, y);
    } else {
        assert(x <= 0) by (nonlinear_arith)
            requires
                t == x * 1_000_000_000 + y,
                -1_000_000_000 < y < 1_000_000_000,
                x > 0 ==> y >= 0,
                t < 0,
        ;
        assert(y <= 0);
        assert(-t == (-x) * 1_000_000_000 + (-y)) by (nonlinear_arith)
            requires
                t == x * 1_000_000_000 + y,
        ;
        vstd::arithmetic::div_mod::lemma_fundamental_div_mod_converse(-t, 1_000_000_000, -x, -y);
    }
}

/// Euclidean quotient and remainder by `10^9` are the only pair with the
/// remainder in `[0, 10^9)`.
pub proof fn lemma_ediv_unique(t: int, x: int, y: int)
    requires
        t == x * 1_000_000_000 + y,
        0 <= y < 1_000_000_000,
    ensures
        t / 1_000_000_000 == x,
        t % 1_000_000_000 == y,
{
    vstd::arithmetic::div_mod::lemma_fundamental_div_mod_converse(t, 1_000_000_000, x, y);
}

/// The quotient toward zero and its remainder rebuild the dividend; the
/// remainder is smaller than the divisor and has the dividend's sign.
pub proof fn lemma_tdiv_props(t: int)
    ensures
        t == tdiv(t, 1_000_000_000) * 1_000_000_000 + trem(t, 1_000_000_000),
        -1_000_000_000 < trem(t, 1_000_000_000) < 1_000_000_000,
        t >= 0 ==> trem(t, 1_000_000_000) >= 0 && tdiv(t, 1_000_000_000) >= 0,
        t <= 0 ==> trem(t, 1_000_000_000) <= 0 && tdiv(t, 1_000_000_000) <= 0,
{
    let a = if t >= 0 { t } else { -t };
    vstd::arithmetic::div_mod::lemma_fundamental_div_mod(a, 1_000_000_000);
    vstd::arithmetic::div_mod::lemma_mod_bound(a, 1_000_000_000);
    assert(a / 1_000_000_000 >= 0) by (nonlinear_arith) requires a >= 0;
}

/// The Euclidean quotient and remainder by `10^9` rebuild the dividend, and
/// the remainder lies in `[0, 10^9)`.
pub proof fn lemma_ediv_props(t: int)
    ensures
        t == (t / 1_000_000_000) * 1_000_000_000 + t % 1_000_000_000,
        0 <= t % 1_000_000_000 < 1_000_000_000,
{
    vstd::arithmetic::div_mod::lemma_fundamental_div_mod(t, 1_000_000_000);
    vstd::arithmetic::div_mod::lemma_mod_bound(t, 1_000_000_000);
}

/// What Rust's `/` and `%` by `10^9` give on an `i32`.
pub proof fn lemma_i32_split(n: int)
    ensures
        n == tdiv(n, 1_000_000_000) * 1_000_000_000 + trem(n, 1_000_000_000),
        -1_000_000_000 < trem(n, 1_000_000_000) < 1_000_000_000,
        n >= 0 ==> trem(n, 1_000_000_000) >= 0 && tdiv(n, 1_000_000_000) >= 0,
        n <= 0 ==> trem(n, 1_000_000_000) <= 0 && tdiv(n, 1_000_000_000) <= 0,
        -1_000_000_000 < n < 1_000_000_000 ==> tdiv(n, 1_000_000_000) == 0,
        n >= 1_000_000_000 ==> tdiv(n, 1_000_000_000) >= 1,
        n <= -1_000_000_000 ==> tdiv(n, 1_000_000_000) <= -1,
        -3 < tdiv(n, 1_000_000_000) < 3 || n > 0x7fff_ffff || n < -0x8000_0000,
{
    if n >= 0 {
        vstd::arithmetic::div_mod::lemma_fundamental_div_mod(n, 1_000_000_000);
        vstd::arithmetic::div_mod::lemma_mod_bound(n, 1_000_000_000);
        assert(n / 1_000_000_000 >= 0) by (nonlinear_arith) requires n >= 0;
        if n >= 1_000_000_000 {
            vstd::arithmetic::div_mod::lemma_div_is_ordered(1_000_000_000, n, 1_000_000_000);
        }
        if n < 1_000_000_000 {
            vstd::arithmetic::div_mod::lemma_basic_div(n, 1_000_000_000);
        }
        if n <= 0x7fff_ffff {
            vstd::arithmetic::div_mod::lemma_div_is_ordered(n, 0x7fff_ffff, 1_000_000_000);
        }
    } else {
        vstd::arithmetic::div_mod::lemma_fundamental_div_mod(-n, 1_000_000_000);
        vstd::arithmetic::div_mod::lemma_mod_bound(-n, 1_000_000_000);
        assert((-n) / 1_000_000_000 >= 0) by (nonlinear_arith) requires -n >= 0;
        if -n >= 1_000_000_000 {
            vstd::arithmetic::div_mod::lemma_div_is_ordered(1_000_000_000, -n, 1_000_000_000);
        }
        if -n < 1_000_000_000 {
            vstd::arithmetic::div_mod::lemma_basic_div(-n, 1_000_000_000);
        }
        if -n <= 0x8000_0000 {
            vstd::arithmetic::div_mod::lemma_div_is_ordered(-n, 0x8000_0000, 1_000_000_000);
        }
    }
}

} // verus!
