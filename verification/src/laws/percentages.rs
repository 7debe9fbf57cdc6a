//! How close the percentage of a window is to the true one.

use crate::double::{grown, half_even, nearest, percent_of};
use vstd::arithmetic::div_mod::{lemma_fundamental_div_mod, lemma_fundamental_div_mod_converse};
use vstd::prelude::*;

verus! {

/// Whether `q / e` is `n / d` up to one part in `m`.
pub open spec fn is_close(q: nat, e: nat, n: nat, d: nat, m: nat) -> bool {
    &&& e > 0
    &&& (q * d) * m <= (n * e) * (m + 1)
    &&& (n * e) * m <= (q * d) * m + n * e
}

/// A fraction is rounded to the nearest whole number, and from halfway to the even one.
pub proof fn law_halves_go_to_the_even(n: nat, d: nat)
    requires
        d > 0,
    ensures
        2 * (n % d) < d ==> half_even(n, d) == n / d,
        2 * (n % d) > d ==> half_even(n, d) == n / d + 1,
        2 * (n % d) == d ==> half_even(n, d) % 2 == 0 && (half_even(n, d) == n / d || half_even(n, d)
            == n / d + 1),
{
}

/// Rounding a fraction that is at least two to the fifty-second changes it by at most one part in
/// two to the fifty-third.
proof fn lemma_half_even_close(n: nat, d: nat)
    requires
        d > 0,
        n >= 0x10_0000_0000_0000 * d,
    ensures
        is_close(half_even(n, d), 1, n, d, 0x20_0000_0000_0000),
{
    let q = n / d;
    let r = n % d;
    lemma_fundamental_div_mod(n as int, d as int);
    let h = half_even(n, d);
    assert(n == d * q + r);
    assert(0 <= r < d);
    assert(2 * (h * d) <= 2 * n + d && 2 * n <= 2 * (h * d) + d) by (nonlinear_arith)
        requires
            n == d * q + r,
            0 <= r < d,
            (h == q && 2 * r <= d) || (h == q + 1 && 2 * r >= d),
    ;
    assert(n * 1 == n) by (nonlinear_arith);
    assert((h * d) * 0x20_0000_0000_0000 <= n * (0x20_0000_0000_0000 + 1)) by (nonlinear_arith)
        requires
            2 * (h * d) <= 2 * n + d,
            n >= 0x10_0000_0000_0000 * d,
    ;
    assert(n * 0x20_0000_0000_0000 <= (h * d) * 0x20_0000_0000_0000 + n) by (nonlinear_arith)
        requires
            2 * n <= 2 * (h * d) + d,
            n >= 0x10_0000_0000_0000 * d,
    ;
}

proof fn lemma_grown_close(n: nat, d: nat)
    requires
        d > 0,
    ensures
        is_close(grown(n, d).0, grown(n, d).1, n, d, 0x20_0000_0000_0000),
        n > 0 ==> grown(n, d).0 > 0,
    decreases
            (if n < 0x10_0000_0000_0000 * d {
                0x10_0000_0000_0000 * d - n
            } else {
                0
            }),
{
    if 0 < n && n < 0x10_0000_0000_0000 * d {
        lemma_grown_close(2 * n, d);
        let r = grown(2 * n, d);
        assert((2 * n) * r.1 == n * (2 * r.1)) by (nonlinear_arith);
    } else if n == 0 {
        assert(0nat / d == 0 && 0nat % d == 0) by {
            lemma_fundamental_div_mod_converse(0, d as int, 0, 0);
        }
        assert(half_even(n, d) == 0);
        assert(0 * d == 0) by (nonlinear_arith);
    } else {
        lemma_half_even_close(n, d);
        let h = half_even(n, d);
        if h == 0 {
            assert((n * 1) * 0x20_0000_0000_0000 <= (h * d) * 0x20_0000_0000_0000 + n * 1);
            assert(h * d == 0) by (nonlinear_arith)
                requires
                    h == 0,
            ;
        }
    }
}

proof fn lemma_nearest_close(n: nat, d: nat)
    requires
        d > 0,
    ensures
        is_close(nearest(n, d).0, nearest(n, d).1, n, d, 0x20_0000_0000_0000),
        n > 0 ==> nearest(n, d).0 > 0,
    decreases
            (if n >= 0x20_0000_0000_0000 * d {
                n - 0x20_0000_0000_0000 * d + 1
            } else {
                0
            }),
{
    if n >= 0x20_0000_0000_0000 * d {
        lemma_nearest_close(n, 2 * d);
        let r = nearest(n, 2 * d);
        assert(r.0 * (2 * d) == (2 * r.0) * d) by (nonlinear_arith);
    } else {
        lemma_grown_close(n, d);
    }
}

proof fn lemma_scaled(a: nat, b: nat, c: nat)
    requires
        a <= b,
    ensures
        a * c <= b * c,
{
    assert(a * c <= b * c) by (nonlinear_arith)
        requires
            a <= b,
    ;
}

proof fn lemma_unscaled(a: int, b: int, c: nat)
    requires
        a * c <= b * c,
        c > 0,
    ensures
        a <= b,
{
    assert(a <= b) by (nonlinear_arith)
        requires
            a * c <= b * c,
            c > 0,
    ;
}

/// Two steps of closeness make one.
proof fn lemma_chain(
    q: nat,
    e: nat,
    n: nat,
    d: nat,
    s: nat,
    t: nat,
    m: nat,
    k: nat,
    j: nat,
)
    requires
        is_close(q, e, n, d, m),
        is_close(n, d, s, t, k),
        m > 0,
        k > 0,
        j > 0,
        (m + 1) * (k + 1) * j <= (m * k) * (j + 1),
        ((m - 1) * (k - 1)) * j >= (m * k) * (j - 1),
    ensures
        is_close(q, e, s, t, j),
{
    let x = q * t;
    let y = s * e;
    let up = m + 1;
    let top = k + 1;
    assert(x * (m * k) <= y * (up * top)) by {
        let left = x * (m * k);
        let right = y * (up * top);
        lemma_scaled((q * d) * m, (n * e) * up, t * k);
        lemma_scaled((n * t) * k, (s * d) * top, e * up);
        assert(((q * d) * m) * (t * k) == left * d) by (nonlinear_arith)
            requires
                left == (q * t) * (m * k),
        ;
        assert(((n * e) * up) * (t * k) == ((n * t) * k) * (e * up)) by (nonlinear_arith);
        assert(((s * d) * top) * (e * up) == right * d) by (nonlinear_arith)
            requires
                right == (s * e) * (up * top),
        ;
        lemma_unscaled(left as int, right as int, d);
    }
    let down = (m - 1) as nat;
    let low = (k - 1) as nat;
    assert(y * (down * low) <= x * (m * k)) by {
        let left = y * (down * low);
        let right = x * (m * k);
        assert((n * e) * down <= (q * d) * m) by (nonlinear_arith)
            requires
                (n * e) * m <= (q * d) * m + n * e,
                down == m - 1,
        ;
        assert((s * d) * low <= (n * t) * k) by (nonlinear_arith)
            requires
                (s * d) * k <= (n * t) * k + s * d,
                low == k - 1,
        ;
        lemma_scaled((s * d) * low, (n * t) * k, e * down);
        lemma_scaled((n * e) * down, (q * d) * m, t * k);
        assert(((s * d) * low) * (e * down) == left * d) by (nonlinear_arith)
            requires
                left == (s * e) * (down * low),
        ;
        assert(((n * t) * k) * (e * down) == ((n * e) * down) * (t * k)) by (nonlinear_arith);
        assert(((q * d) * m) * (t * k) == right * d) by (nonlinear_arith)
            requires
                right == (q * t) * (m * k),
        ;
        lemma_unscaled(left as int, right as int, d);
    }
    assert(x * j <= y * (j + 1)) by (nonlinear_arith)
        requires
            x * (m * k) <= y * ((m + 1) * (k + 1)),
            (m + 1) * (k + 1) * j <= (m * k) * (j + 1),
            m > 0,
            k > 0,
            j > 0,
    {
        let mk = m * k;
        assert(mk > 0);
        assert((x * mk) * j <= (y * ((m + 1) * (k + 1))) * j);
        assert((y * ((m + 1) * (k + 1))) * j == y * ((m + 1) * (k + 1) * j));
        assert(y * ((m + 1) * (k + 1) * j) <= y * (mk * (j + 1)));
        assert((x * mk) * j == (x * j) * mk);
        assert(y * (mk * (j + 1)) == (y * (j + 1)) * mk);
        assert((x * j) * mk <= (y * (j + 1)) * mk);
    }
    assert(y * j <= x * j + y) by (nonlinear_arith)
        requires
            y * ((m - 1) * (k - 1)) <= x * (m * k),
            ((m - 1) * (k - 1)) * j >= (m * k) * (j - 1),
            m > 0,
            k > 0,
            j > 0,
    {
        let mk = m * k;
        assert(mk > 0);
        assert((y * ((m - 1) * (k - 1))) * j <= (x * mk) * j);
        assert((y * ((m - 1) * (k - 1))) * j == y * (((m - 1) * (k - 1)) * j));
        assert(y * (mk * (j - 1)) <= y * (((m - 1) * (k - 1)) * j));
        assert((x * mk) * j == (x * j) * mk);
        assert(y * (mk * (j - 1)) == (y * (j - 1)) * mk);
        assert((y * (j - 1)) * mk <= (x * j) * mk);
        assert(y * (j - 1) <= x * j);
        assert(y * (j - 1) == y * j - y);
    }
}

/// The quotient of two numbers that are each close is close.
proof fn lemma_ratio(a0: nat, a1: nat, b0: nat, b1: nat, u: nat, w: nat)
    requires
        is_close(a0, a1, u, 1, 0x20_0000_0000_0000),
        is_close(b0, b1, w, 1, 0x20_0000_0000_0000),
        b0 > 0,
        w > 0,
    ensures
        is_close(a0 * b1, a1 * b0, u, w, 0x8_0000_0000_0000),
{
    let m: nat = 0x20_0000_0000_0000;
    let x = (a0 * b1) * w;
    let y = u * (a1 * b0);
    assert(a0 * 1 == a0 && b0 * 1 == b0) by (nonlinear_arith);
    assert(x * (m - 1) <= y * (m + 1)) by (nonlinear_arith)
        requires
            x == (a0 * b1) * w,
            y == u * (a1 * b0),
            m == 0x20_0000_0000_0000,
            a0 * m <= (u * a1) * (m + 1),
            (w * b1) * m <= b0 * m + w * b1,
    {
        assert((w * b1) * (m - 1) <= b0 * m);
        assert(a0 * m * ((w * b1) * (m - 1)) <= (u * a1) * (m + 1) * (b0 * m));
        assert(a0 * m * ((w * b1) * (m - 1)) == (x * (m - 1)) * m);
        assert((u * a1) * (m + 1) * (b0 * m) == (y * (m + 1)) * m);
        assert((x * (m - 1)) * m <= (y * (m + 1)) * m);
    }
    assert(y * (m - 1) <= x * (m + 1)) by (nonlinear_arith)
        requires
            x == (a0 * b1) * w,
            y == u * (a1 * b0),
            m == 0x20_0000_0000_0000,
            (u * a1) * m <= a0 * m + u * a1,
            b0 * m <= (w * b1) * (m + 1),
    {
        assert((u * a1) * (m - 1) <= a0 * m);
        assert((u * a1) * (m - 1) * (b0 * m) <= a0 * m * ((w * b1) * (m + 1)));
        assert((u * a1) * (m - 1) * (b0 * m) == (y * (m - 1)) * m);
        assert(a0 * m * ((w * b1) * (m + 1)) == (x * (m + 1)) * m);
        assert((y * (m - 1)) * m <= (x * (m + 1)) * m);
    }
    assert(x * 0x1f_ffff_ffff_ffff <= y * 0x20_0000_0000_0001);
    assert(y * 0x1f_ffff_ffff_ffff <= x * 0x20_0000_0000_0001);
    assert(x * 0x8_0000_0000_0000 <= y * 0x8_0000_0000_0001);
    assert(y * 0x8_0000_0000_0000 <= x * 0x8_0000_0000_0000 + y);
    assert(a1 * b0 > 0) by (nonlinear_arith)
        requires
            a1 > 0,
            b0 > 0,
    ;
}

/// The percentage of a window that is used is the true one rounded to the nearest whole, where the
/// true one is taken up to one part in two to the forty-ninth.
pub proof fn law_percentage_is_rounded(used: nat, whole: nat)
    requires
        whole > 0,
    ensures
        (2 * percent_of(used, whole) - 1) * whole * 0x2_0000_0000_0000 <= 200 * used
            * 0x2_0000_0000_0001,
        200 * used * 0x1_ffff_ffff_ffff < (2 * percent_of(used, whole) + 1) * whole
            * 0x2_0000_0000_0000,
{
    let r = percent_of(used, whole);
    if used == 0 {
        assert((2 * r + 1) * whole > 0) by (nonlinear_arith)
            requires
                r == 0,
                whole > 0,
        ;
        assert((2 * r - 1) * whole <= 0) by (nonlinear_arith)
            requires
                r == 0,
                whole > 0,
        ;
    } else {
        let a = nearest(used, 1);
        let b = nearest(whole, 1);
        lemma_nearest_close(used, 1);
        lemma_nearest_close(whole, 1);
        lemma_ratio(a.0, a.1, b.0, b.1, used, whole);
        let n = a.0 * b.1;
        let d = a.1 * b.0;
        let f = nearest(n, d);
        lemma_nearest_close(n, d);
        assert((0x20_0000_0000_0000nat + 1) * (0x8_0000_0000_0000nat + 1) * 0x4_0000_0000_0000nat <= (0x20_0000_0000_0000nat * 0x8_0000_0000_0000nat) * (0x4_0000_0000_0000nat + 1))
            by (nonlinear_arith);
        assert(((0x20_0000_0000_0000nat - 1) * (0x8_0000_0000_0000nat - 1)) * 0x4_0000_0000_0000nat >= (0x20_0000_0000_0000nat * 0x8_0000_0000_0000nat) * (0x4_0000_0000_0000nat - 1))
            by (nonlinear_arith);
        lemma_chain(
            f.0,
            f.1,
            n,
            d,
            used,
            whole,
            0x20_0000_0000_0000,
            0x8_0000_0000_0000,
            0x4_0000_0000_0000,
        );
        let p = nearest(f.0 * 100, f.1);
        lemma_nearest_close(f.0 * 100, f.1);
        assert(is_close(f.0 * 100, f.1, used * 100, whole, 0x4_0000_0000_0000)) by {
            let x = f.0 * whole;
            let y = used * f.1;
            assert(x * 0x4_0000_0000_0000 <= y * 0x4_0000_0000_0001);
            assert(y * 0x4_0000_0000_0000 <= x * 0x4_0000_0000_0000 + y);
            assert((f.0 * 100) * whole == 100 * x) by (nonlinear_arith)
                requires
                    x == f.0 * whole,
            ;
            assert((used * 100) * f.1 == 100 * y) by (nonlinear_arith)
                requires
                    y == used * f.1,
            ;
        }
        assert((0x20_0000_0000_0000nat + 1) * (0x4_0000_0000_0000nat + 1) * 0x2_0000_0000_0000nat <= (0x20_0000_0000_0000nat * 0x4_0000_0000_0000nat) * (0x2_0000_0000_0000nat + 1))
            by (nonlinear_arith);
        assert(((0x20_0000_0000_0000nat - 1) * (0x4_0000_0000_0000nat - 1)) * 0x2_0000_0000_0000nat >= (0x20_0000_0000_0000nat * 0x4_0000_0000_0000nat) * (0x2_0000_0000_0000nat - 1))
            by (nonlinear_arith);
        lemma_chain(
            p.0,
            p.1,
            f.0 * 100,
            f.1,
            used * 100,
            whole,
            0x20_0000_0000_0000,
            0x4_0000_0000_0000,
            0x2_0000_0000_0000,
        );
        let half = 2 * p.1;
        let top = 2 * p.0 + p.1;
        lemma_fundamental_div_mod(top as int, half as int);
        assert(r == top / half);
        assert((2 * r - 1) * p.1 <= 2 * p.0 && 2 * p.0 < (2 * r + 1) * p.1) by (nonlinear_arith)
            requires
                top == half * r + top % half,
                0 <= top % half < half,
                half == 2 * p.1,
                top == 2 * p.0 + p.1,
        ;
        assert((2 * r - 1) * whole * 0x2_0000_0000_0000 <= 200 * used * 0x2_0000_0000_0001) by (
        nonlinear_arith)
            requires
                (2 * r - 1) * p.1 <= 2 * p.0,
                (p.0 * whole) * 0x2_0000_0000_0000 <= ((used * 100) * p.1) * (0x2_0000_0000_0000
                    + 1),
                p.1 > 0,
        {
            let left = (2 * r - 1) * whole * 0x2_0000_0000_0000;
            let right = 200 * used * 0x2_0000_0000_0001;
            assert((2 * r - 1) * p.1 * whole <= 2 * p.0 * whole);
            assert(left * p.1 == (2 * r - 1) * p.1 * whole * 0x2_0000_0000_0000);
            assert(right * p.1 == 2 * (((used * 100) * p.1) * (0x2_0000_0000_0000 + 1)));
            assert(left * p.1 <= right * p.1);
        }
        assert(200 * used * 0x1_ffff_ffff_ffff < (2 * r + 1) * whole * 0x2_0000_0000_0000) by (
        nonlinear_arith)
            requires
                2 * p.0 < (2 * r + 1) * p.1,
                ((used * 100) * p.1) * 0x2_0000_0000_0000 <= (p.0 * whole) * 0x2_0000_0000_0000
                    + (used * 100) * p.1,
                p.1 > 0,
                whole > 0,
        {
            let left = 200 * used * 0x1_ffff_ffff_ffff;
            let right = (2 * r + 1) * whole * 0x2_0000_0000_0000;
            assert(2 * p.0 * whole < (2 * r + 1) * p.1 * whole);
            assert(right * p.1 == (2 * r + 1) * p.1 * whole * 0x2_0000_0000_0000);
            assert(left * p.1 == 2 * (((used * 100) * p.1) * 0x1_ffff_ffff_ffff));
            assert(left * p.1 <= 2 * ((p.0 * whole) * 0x2_0000_0000_0000));
            assert(left * p.1 < right * p.1);
        }
    }
}

/// An empty window is at nothing, a full one at a hundred percent, and one used by half at fifty.
pub proof fn law_percentage_marks(whole: nat)
    requires
        whole > 0,
    ensures
        percent_of(0, whole) == 0,
        percent_of(whole, whole) == 100,
        percent_of(whole, 2 * whole) == 50,
{
    law_percentage_is_rounded(whole, whole);
    law_percentage_is_rounded(whole, 2 * whole);
    let r = percent_of(whole, whole);
    let h = percent_of(whole, 2 * whole);
    assert(r == 100) by (nonlinear_arith)
        requires
            whole > 0,
            (2 * r - 1) * whole * 0x2_0000_0000_0000 <= 200 * whole * 0x2_0000_0000_0001,
            200 * whole * 0x1_ffff_ffff_ffff < (2 * r + 1) * whole * 0x2_0000_0000_0000,
    {
        assert((2 * r - 1) * 0x2_0000_0000_0000 * whole <= 200 * 0x2_0000_0000_0001 * whole);
        assert((2 * r - 1) * 0x2_0000_0000_0000 <= 200 * 0x2_0000_0000_0001);
        assert(200 * 0x1_ffff_ffff_ffff * whole < (2 * r + 1) * 0x2_0000_0000_0000 * whole);
        assert(200 * 0x1_ffff_ffff_ffff < (2 * r + 1) * 0x2_0000_0000_0000);
    }
    assert(h == 50) by (nonlinear_arith)
        requires
            whole > 0,
            (2 * h - 1) * (2 * whole) * 0x2_0000_0000_0000 <= 200 * whole * 0x2_0000_0000_0001,
            200 * whole * 0x1_ffff_ffff_ffff < (2 * h + 1) * (2 * whole) * 0x2_0000_0000_0000,
    {
        assert((2 * h - 1) * 0x4_0000_0000_0000 * whole <= 200 * 0x2_0000_0000_0001 * whole);
        assert((2 * h - 1) * 0x4_0000_0000_0000 <= 200 * 0x2_0000_0000_0001);
        assert(200 * 0x1_ffff_ffff_ffff * whole < (2 * h + 1) * 0x4_0000_0000_0000 * whole);
        assert(200 * 0x1_ffff_ffff_ffff < (2 * h + 1) * 0x4_0000_0000_0000);
    }
}

} // verus!
