//! Arithmetic in double precision, on integers.
//!
//! A positive double is a ratio whose numerator has 53 binary digits, times or over a power
//! of two. [`nearest`] is the double nearest to a ratio, with ties to the even one. It holds
//! for ratios far from the limits of the exponent.

use vstd::arithmetic::div_mod::lemma_fundamental_div_mod;
use vstd::arithmetic::div_mod::lemma_fundamental_div_mod_converse;
use vstd::arithmetic::power2::{lemma_pow2_pos, lemma_pow2_unfold, pow2};
use vstd::prelude::*;

verus! {

/// The integer nearest to `n / d`, with ties to the even one.
pub open spec fn half_even(n: nat, d: nat) -> nat {
    let q = n / d;
    let r = n % d;
    if 2 * r < d || (2 * r == d && q % 2 == 0) {
        q
    } else {
        q + 1
    }
}

/// The double nearest to `n / d`, as a numerator and a denominator, for a ratio below
/// `2^53`.
pub open spec fn grown(n: nat, d: nat) -> (nat, nat)
    decreases
            (if n < 0x10_0000_0000_0000 * d {
                0x10_0000_0000_0000 * d - n
            } else {
                0
            }),
{
    if 0 < n && n < 0x10_0000_0000_0000 * d {
        let r = grown(2 * n, d);
        (r.0, 2 * r.1)
    } else {
        (half_even(n, d), 1)
    }
}

/// The double nearest to `n / d`, as a numerator and a denominator.
pub open spec fn nearest(n: nat, d: nat) -> (nat, nat)
    decreases
            (if n >= 0x20_0000_0000_0000 * d {
                n - 0x20_0000_0000_0000 * d + 1
            } else {
                0
            }),
{
    if 0 < d && n >= 0x20_0000_0000_0000 * d {
        let r = nearest(n, 2 * d);
        (2 * r.0, r.1)
    } else {
        grown(n, d)
    }
}

/// A common factor does not matter to rounding.
proof fn lemma_half_even_scaled(n: nat, d: nat, c: nat)
    requires
        d > 0,
        c > 0,
    ensures
        half_even(n * c, d * c) == half_even(n, d),
{
    let q = n / d;
    let r = n % d;
    lemma_fundamental_div_mod(n as int, d as int);
    assert(n * c == q * (d * c) + r * c) by (nonlinear_arith)
        requires
            n == d * q + r,
    ;
    assert(0 <= r * c < d * c) by (nonlinear_arith)
        requires
            0 <= r < d,
            c > 0,
    ;
    lemma_fundamental_div_mod_converse((n * c) as int, (d * c) as int, q as int, (r * c) as int);
    assert(2 * (r * c) < d * c <==> 2 * r < d) by (nonlinear_arith)
        requires
            c > 0,
    ;
    assert(2 * (r * c) == d * c <==> 2 * r == d) by (nonlinear_arith)
        requires
            c > 0,
    ;
}

proof fn lemma_grown_scaled(n: nat, d: nat, c: nat)
    requires
        d > 0,
        c > 0,
    ensures
        grown(n * c, d * c) == grown(n, d),
    decreases
            (if n < 0x10_0000_0000_0000 * d {
                0x10_0000_0000_0000 * d - n
            } else {
                0
            }),
{
    assert(n * c < 0x10_0000_0000_0000 * (d * c) <==> n < 0x10_0000_0000_0000 * d) by (nonlinear_arith)
        requires
            c > 0,
    ;
    assert(0 < n * c <==> 0 < n) by (nonlinear_arith)
        requires
            c > 0,
    ;
    if 0 < n && n < 0x10_0000_0000_0000 * d {
        lemma_grown_scaled(2 * n, d, c);
        assert((2 * n) * c == 2 * (n * c)) by (nonlinear_arith);
    } else {
        lemma_half_even_scaled(n, d, c);
    }
}

/// A common factor does not matter to the nearest double.
pub proof fn lemma_nearest_scaled(n: nat, d: nat, c: nat)
    requires
        d > 0,
        c > 0,
    ensures
        nearest(n * c, d * c) == nearest(n, d),
    decreases
            (if n >= 0x20_0000_0000_0000 * d {
                n - 0x20_0000_0000_0000 * d + 1
            } else {
                0
            }),
{
    assert(n * c >= 0x20_0000_0000_0000 * (d * c) <==> n >= 0x20_0000_0000_0000 * d) by (nonlinear_arith)
        requires
            c > 0,
    ;
    assert(d * c > 0) by (nonlinear_arith)
        requires
            d > 0,
            c > 0,
    ;
    if n >= 0x20_0000_0000_0000 * d {
        lemma_nearest_scaled(n, 2 * d, c);
        assert((2 * d) * c == 2 * (d * c)) by (nonlinear_arith);
    } else {
        lemma_grown_scaled(n, d, c);
    }
}

/// Twice the denominator halves the nearest double, below `2^53`.
proof fn lemma_grown_halved(n: nat, d: nat)
    requires
        d > 0,
        0 < n < 0x20_0000_0000_0000 * d,
    ensures
        grown(n, 2 * d) == (grown(n, d).0, 2 * grown(n, d).1),
{
    assert(n < 0x10_0000_0000_0000 * (2 * d));
    lemma_grown_scaled(n, d, 2);
    assert(n * 2 == 2 * n);
    assert(d * 2 == 2 * d);
}

/// A whole number of up to 53 binary digits is a double.
proof fn lemma_whole_is_double(n: nat)
    requires
        0 < n < 0x20_0000_0000_0000,
    ensures
        grown(n, 1).0 == n * grown(n, 1).1,
        grown(n, 1).1 > 0,
    decreases
            (if n < 0x10_0000_0000_0000 {
                0x10_0000_0000_0000 - n
            } else {
                0
            }),
{
    if n < 0x10_0000_0000_0000 {
        lemma_whole_is_double(2 * n);
        let r = grown(2 * n, 1);
        assert((2 * n) * r.1 == n * (2 * r.1)) by (nonlinear_arith);
        assert(grown(n, 1) == (r.0, 2 * r.1));
    } else {
        assert(half_even(n, 1) == n);
        assert(grown(n, 1) == (n, 1nat));
        assert(n * 1 == n);
    }
}

/// A double of 54 or more binary digits is a whole number.
proof fn lemma_large(n: nat, d: nat)
    requires
        d > 0,
        n >= 0x20_0000_0000_0000 * d,
    ensures
        nearest(n, d).1 == 1,
        nearest(n, d).0 >= 0x10_0000_0000_0000,
    decreases n - 0x20_0000_0000_0000 * d,
{
    let e: nat = 2 * d;
    assert(nearest(n, d) == (2 * nearest(n, e).0, nearest(n, e).1));
    if n >= 0x20_0000_0000_0000 * e {
        lemma_large(n, e);
    } else {
        assert(n >= 0x10_0000_0000_0000 * e);
        assert(grown(n, e) == (half_even(n, e), 1nat));
        assert(n / e >= 0x10_0000_0000_0000) by {
            vstd::arithmetic::div_mod::lemma_div_is_ordered((0x10_0000_0000_0000 * e) as int, n as int, e as int);
            vstd::arithmetic::div_mod::lemma_div_multiples_vanish(0x10_0000_0000_0000int, e as int);
            assert(0x10_0000_0000_0000 * e == e * 0x10_0000_0000_0000) by (nonlinear_arith);
        }
    }
}

fn round_half_even(n: u128, d: u128) -> (r: u128)
    requires
        0 < d < 0x8000_0000_0000_0000_0000_0000_0000_0000,
        n < 0x8000_0000_0000_0000_0000_0000_0000_0000,
    ensures
        r == half_even(n as nat, d as nat),
{
    let q: u128 = n / d;
    let r: u128 = n % d;
    proof {
        assert(q <= n) by (nonlinear_arith)
            requires
                q == n / d,
                d > 0,
        ;
    }
    if 2 * r < d || (2 * r == d && q % 2 == 0) {
        q
    } else {
        q + 1
    }
}

/// The whole number that a 64-bit integer becomes in double precision.
fn whole(x: u64) -> (r: u128)
    requires
        x > 0,
    ensures
        0 < r < 0x2_0000_0000_0000_0000,
        nearest(x as nat, 1).0 == r * nearest(x as nat, 1).1,
        nearest(x as nat, 1).1 > 0,
{
    if x < 0x20_0000_0000_0000 {
        proof {
            lemma_whole_is_double(x as nat);
        }
        return x as u128;
    }
    let n: u128 = x as u128;
    let mut d: u128 = 2;
    while n >= 0x20_0000_0000_0000 * d
        invariant
            n == x,
            2 <= d < 4096,
            n >= 0x10_0000_0000_0000 * d,
            nearest(x as nat, 1).0 == d * nearest(x as nat, d as nat).0,
            nearest(x as nat, 1).1 == nearest(x as nat, d as nat).1,
        decreases 4096 - d,
    {
        proof {
            let inner = nearest(x as nat, (2 * d) as nat);
            assert(nearest(x as nat, d as nat) == (2 * inner.0, inner.1));
            assert(d * (2 * inner.0) == (2 * d) * inner.0) by (nonlinear_arith);
        }
        d = 2 * d;
    }
    let m = round_half_even(n, d);
    proof {
        assert(nearest(x as nat, d as nat) == (half_even(x as nat, d as nat), 1nat));
        let q = n / d;
        lemma_fundamental_div_mod(n as int, d as int);
        assert(m * d <= n + d) by (nonlinear_arith)
            requires
                m <= q + 1,
                n >= d * q,
        ;
        assert(q >= 0x10_0000_0000_0000) by {
            lemma_quotient(n as nat, d as nat);
        }
        assert(m * d > 0) by (nonlinear_arith)
            requires
                m > 0,
                d > 0,
        ;
        assert(d * m == m * d) by (nonlinear_arith);
    }
    m * d
}

/// A number of at least `2^52` times `d` has at least `2^52` times `d` in it.
proof fn lemma_quotient(n: nat, d: nat)
    requires
        d > 0,
        n >= 0x10_0000_0000_0000 * d,
    ensures
        n / d >= 0x10_0000_0000_0000,
{
    vstd::arithmetic::div_mod::lemma_div_is_ordered((0x10_0000_0000_0000 * d) as int, n as int, d as int);
    vstd::arithmetic::div_mod::lemma_div_multiples_vanish(0x10_0000_0000_0000int, d as int);
    assert(0x10_0000_0000_0000 * d == d * 0x10_0000_0000_0000) by (nonlinear_arith);
}

/// A ratio below `2^53` rounds to at most `2^53`.
proof fn lemma_quotient_below(n: nat, d: nat)
    requires
        d > 0,
        n < 0x20_0000_0000_0000 * d,
    ensures
        half_even(n, d) <= 0x20_0000_0000_0000,
{
    lemma_fundamental_div_mod(n as int, d as int);
    let q = n / d;
    assert(q < 0x20_0000_0000_0000) by (nonlinear_arith)
        requires
            n >= d * q,
            n < 0x20_0000_0000_0000 * d,
            d > 0,
    ;
}

/// The double nearest to `a / b` below `2^53`: its numerator, and the power of two that is
/// its denominator.
fn quotient(a: u128, b: u128) -> (r: (u128, u128))
    requires
        0 < a < 0x2_0000_0000_0000_0000,
        0 < b < 0x2_0000_0000_0000_0000,
        a < 0x20_0000_0000_0000 * b,
    ensures
        0x10_0000_0000_0000 <= r.0 <= 0x20_0000_0000_0000,
        nearest(a as nat, b as nat) == (r.0 as nat, pow2(r.1 as nat)),
{
    let mut n: u128 = a;
    let mut k: u128 = 0;
    proof {
        vstd::arithmetic::power2::lemma2_to64();
    }
    while n < 0x10_0000_0000_0000 * b
        invariant
            0 < b < 0x2_0000_0000_0000_0000,
            k < n,
            n < 0x20_0000_0000_0000 * b,
            grown(a as nat, b as nat).0 == grown(n as nat, b as nat).0,
            grown(a as nat, b as nat).1 == pow2(k as nat) * grown(n as nat, b as nat).1,
        decreases 0x20_0000_0000_0000 * b - n,
    {
        proof {
            let inner = grown((2 * n) as nat, b as nat);
            assert(grown(n as nat, b as nat) == (inner.0, 2 * inner.1));
            lemma_pow2_unfold((k + 1) as nat);
            let p = pow2(k as nat);
            assert(p * (2 * inner.1) == (2 * p) * inner.1) by (nonlinear_arith);
        }
        n = 2 * n;
        k = k + 1;
    }
    let m = round_half_even(n, b);
    proof {
        lemma_quotient(n as nat, b as nat);
        lemma_quotient_below(n as nat, b as nat);
        assert(grown(n as nat, b as nat) == (half_even(n as nat, b as nat), 1nat));
        assert(pow2(k as nat) * 1 == pow2(k as nat));
    }
    (m, k)
}

/// Each doubling of the denominator doubles that of the nearest double.
proof fn lemma_grown_over_power(n: nat, s: nat, t: nat)
    requires
        s > 0,
        0 < n < 0x20_0000_0000_0000 * s,
        n >= 0x10_0000_0000_0000 * s,
    ensures
        grown(n, s * pow2(t)) == (half_even(n, s), pow2(t)),
        s * pow2(t) >= s,
    decreases t,
{
    vstd::arithmetic::power2::lemma2_to64();
    if t == 0 {
        assert(s * pow2(0) == s);
    } else {
        let less = (t - 1) as nat;
        lemma_grown_over_power(n, s, less);
        lemma_pow2_unfold(t);
        let d = s * pow2(less);
        assert(s * (2 * pow2(less)) == 2 * d) by (nonlinear_arith)
            requires
                d == s * pow2(less),
        ;
        assert(n < 0x20_0000_0000_0000 * d);
        lemma_grown_halved(n, d);
    }
}

/// `used / whole` in percent, as double precision gives it: both numbers become doubles, and
/// the quotient and its product with 100 are rounded to doubles. The last rounding is to the
/// nearest integer, with ties away from zero.
pub open spec fn percent_of(used: nat, whole: nat) -> nat {
    if used == 0 {
        0
    } else {
        let a = nearest(used, 1);
        let b = nearest(whole, 1);
        let f = nearest(a.0 * b.1, a.1 * b.0);
        let p = nearest(f.0 * 100, f.1);
        (2 * p.0 + p.1) / (2 * p.1)
    }
}

/// [`percent_of`], or the largest 32-bit integer where it is larger.
pub fn percent(used: u64, window: u64) -> (r: u32)
    requires
        window > 0,
    ensures
        r == if percent_of(used as nat, window as nat) > u32::MAX {
            u32::MAX as nat
        } else {
            percent_of(used as nat, window as nat)
        },
{
    if used == 0 {
        return 0;
    }
    let a = whole(used);
    let b = whole(window);
    let ghost x = nearest(used as nat, 1);
    let ghost y = nearest(window as nat, 1);
    let ghost f = nearest(x.0 * y.1, x.1 * y.0);
    let ghost p = nearest(f.0 * 100, f.1);
    proof {
        let c = x.1 * y.1;
        assert(x.0 * y.1 == a as nat * c) by (nonlinear_arith)
            requires
                x.0 == a * x.1,
                c == x.1 * y.1,
        ;
        assert(x.1 * y.0 == b as nat * c) by (nonlinear_arith)
            requires
                y.0 == b * y.1,
                c == x.1 * y.1,
        ;
        assert(c > 0) by (nonlinear_arith)
            requires
                x.1 > 0,
                y.1 > 0,
                c == x.1 * y.1,
        ;
        lemma_nearest_scaled(a as nat, b as nat, c);
        assert(f == nearest(a as nat, b as nat));
    }
    if a >= 0x20_0000_0000_0000 * b {
        proof {
            lemma_large(a as nat, b as nat);
            lemma_large(f.0 * 100, 1);
        }
        return u32::MAX;
    }
    let (m, k) = quotient(a, b);
    let n: u128 = m * 100;
    let e: u128 = if n < 0x800_0000_0000_0000 {
        6
    } else {
        7
    };
    let s: u128 = if n < 0x800_0000_0000_0000 {
        64
    } else {
        128
    };
    proof {
        vstd::arithmetic::power2::lemma2_to64();
        assert(s == pow2(e as nat));
        assert(0x10_0000_0000_0000 * s <= n < 0x20_0000_0000_0000 * s);
    }
    if k <= e {
        proof {
            let d = pow2(k as nat);
            lemma_pow2_pos(k as nat);
            if k < e {
                lemma_pow2_unfold(e as nat);
                if k + 1 < e {
                    vstd::arithmetic::power2::lemma_pow2_strictly_increases(
                        k as nat,
                        (e - 1) as nat,
                    );
                }
                assert(n >= 0x20_0000_0000_0000 * d);
                lemma_large(n as nat, d);
            } else {
                lemma_quotient(n as nat, s as nat);
                assert(p == (half_even(n as nat, s as nat), 1nat));
            }
            assert(p.0 >= 0x10_0000_0000_0000);
            assert(p.1 == 1);
        }
        return u32::MAX;
    }
    let t: u128 = k - e;
    let q = round_half_even(n, s);
    proof {
        vstd::arithmetic::power2::lemma_pow2_adds(e as nat, t as nat);
        lemma_grown_over_power(n as nat, s as nat, t as nat);
        lemma_quotient_below(n as nat, s as nat);
        assert(pow2(k as nat) == s * pow2(t as nat));
        assert(n < 0x20_0000_0000_0000 * pow2(k as nat));
        assert(p == (q as nat, pow2(t as nat)));
    }
    if t > 60 {
        proof {
            vstd::arithmetic::power2::lemma2_to64_rest();
            vstd::arithmetic::power2::lemma_pow2_strictly_increases(60, t as nat);
            let big = pow2(t as nat);
            let top: nat = 2 * p.0 + big;
            assert(top < 2 * big);
            assert(top / (2 * big) == 0) by (nonlinear_arith)
                requires
                    top < 2 * big,
            ;
        }
        return 0;
    }
    let mut power: u128 = 1;
    let mut i: u128 = 0;
    while i < t
        invariant
            i <= t <= 60,
            power == pow2(i as nat),
            power <= 0x1000_0000_0000_0000,
        decreases t - i,
    {
        proof {
            lemma_pow2_unfold((i + 1) as nat);
            vstd::arithmetic::power2::lemma2_to64_rest();
            if i + 1 < 60 {
                vstd::arithmetic::power2::lemma_pow2_strictly_increases((i + 1) as nat, 60);
            }
        }
        power = 2 * power;
        i = i + 1;
    }
    let r: u128 = (2 * q + power) / (2 * power);
    if r > 0xFFFF_FFFF {
        u32::MAX
    } else {
        r as u32
    }
}

} // verus!
