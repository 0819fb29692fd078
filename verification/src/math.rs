//! Integer arithmetic shared by the price and pool computations.

use vstd::prelude::*;

verus! {

/// Whether `x` is a value of `i128`.
pub open spec fn fits(x: int) -> bool {
    i128::MIN <= x <= i128::MAX
}

/// The quotient of `a` by `b`, rounded toward zero.
pub open spec fn quotient(a: int, b: int) -> int {
    if a >= 0 {
        a / b
    } else {
        -((-a) / b)
    }
}

/// A quotient is no further from zero than its dividend, and division by a
/// negative number is division by its absolute value with the sign turned.
proof fn lemma_quotient(a: int, b: int)
    requires
        b != 0,
    ensures
        a >= 0 && b > 0 ==> 0 <= a / b <= a,
        a >= 0 && b < 0 ==> a / b == -(a / (-b)),
        a > 0 && b < -1 ==> -a < a / b <= 0,
        a >= 0 && b == -1 ==> a / b == -a,
{
    if a >= 0 && b > 0 {
        assert(0 <= a / b <= a) by (nonlinear_arith)
            requires
                a >= 0,
                b > 0,
        ;
    } else if a >= 0 {
        let q = a / (-b);
        vstd::arithmetic::div_mod::lemma_fundamental_div_mod(a, -b);
        assert(a == b * (-q) + a % (-b)) by (nonlinear_arith)
            requires
                a == (-b) * q + a % (-b),
        ;
        assert(a / b == -q) by (nonlinear_arith)
            requires
                b < 0,
                a == b * (-q) + a % (-b),
                0 <= a % (-b) < -b,
        ;
        if b < -1 && a > 0 {
            assert(0 <= q < a) by (nonlinear_arith)
                requires
                    a > 0,
                    b < -1,
                    q == a / (-b),
            ;
        }
    }
}

/// Of all divisions of `i128` values by a number other than zero, only that of
/// the least value by minus one leaves the type.
pub proof fn lemma_quotient_fits(a: int, b: int)
    requires
        fits(a),
        fits(b),
        b != 0,
    ensures
        fits(quotient(a, b)) <==> !(a == i128::MIN && b == -1),
{
    if a >= 0 {
        lemma_quotient(a, b);
        lemma_quotient(a, -b);
    } else {
        lemma_quotient(-a, b);
        lemma_quotient(-a, -b);
    }
}

/// Divides, rounding toward zero. Returns `None` where there is no quotient,
/// or where it leaves the type.
pub fn checked_quotient(a: i128, b: i128) -> (q: Option<i128>)
    ensures
        q is Some <==> b != 0 && fits(quotient(a as int, b as int)),
        q matches Some(q) ==> q == quotient(a as int, b as int),
{
    proof {
        if b != 0 {
            if a >= 0 {
                lemma_quotient(a as int, b as int);
            } else {
                lemma_quotient(-a, b as int);
            }
        }
    }
    a.checked_div(b)
}

/// Whether `r` is the largest integer whose square is at most `n`, where a
/// negative `n` counts as zero.
pub open spec fn is_isqrt(n: int, r: int) -> bool {
    if n <= 0 {
        r == 0
    } else {
        0 <= r && r * r <= n < (r + 1) * (r + 1)
    }
}

/// The largest integer whose square is at most `n`, where a negative `n`
/// counts as zero.
pub open spec fn sqrt_floor(n: int) -> int {
    choose|r: int| is_isqrt(n, r)
}

/// There is only one integer square root.
pub proof fn lemma_isqrt_unique(n: int, r: int)
    requires
        is_isqrt(n, r),
    ensures
        sqrt_floor(n) == r,
{
    let s = sqrt_floor(n);
    assert(is_isqrt(n, s));
    if n > 0 {
        assert(s == r) by (nonlinear_arith)
            requires
                0 <= r,
                0 <= s,
                r * r <= n < (r + 1) * (r + 1),
                s * s <= n < (s + 1) * (s + 1),
        ;
    }
}

/// Every integer has an integer square root.
pub proof fn lemma_isqrt_exists(n: int)
    ensures
        is_isqrt(n, sqrt_floor(n)),
    decreases n,
{
    if n <= 0 {
        assert(is_isqrt(n, 0));
    } else if n == 1 {
        assert(is_isqrt(n, 1));
    } else {
        lemma_isqrt_exists(n - 1);
        let r = sqrt_floor(n - 1);
        if n < (r + 1) * (r + 1) {
            assert(is_isqrt(n, r));
        } else {
            assert(n < (r + 2) * (r + 2)) by (nonlinear_arith)
                requires
                    r >= 0,
                    n - 1 < (r + 1) * (r + 1),
            ;
            assert(is_isqrt(n, r + 1));
        }
    }
}

/// Whether `s` is a natural number whose square is at most `n`.
spec fn squares_below(s: int, n: int) -> bool {
    0 <= s && s * s <= n
}

/// No Newton step started at a positive `x` falls below the root: whatever
/// squares to at most `n` is at most the step's result.
proof fn lemma_newton_step_is_above(n: int, x: int, s: int)
    requires
        n >= 0,
        x > 0,
        squares_below(s, n),
    ensures
        s <= (x + n / x) / 2,
{
    let q = n / x;
    assert(n < x * (q + 1)) by (nonlinear_arith)
        requires
            x > 0,
            q == n / x,
    ;
    // If x + q < 2 * s then x * (q + 1) <= s * s, by comparing the product of
    // two integers with the square of half their sum.
    if x + q + 1 <= 2 * s {
        assert(x * (q + 1) <= s * s) by (nonlinear_arith)
            requires
                x + q + 1 <= 2 * s,
                x > 0,
                q >= 0,
                s >= 0,
        ;
    }
    assert(q >= 0) by (nonlinear_arith)
        requires
            n >= 0,
            x > 0,
            q == n / x,
    ;
}

/// Integer square root by Newton's method: the largest `r` with `r * r <= n`,
/// and zero where `n` is not positive.
pub fn isqrt(n: i128) -> (r: i128)
    ensures
        r == sqrt_floor(n as int),
        is_isqrt(n as int, r as int),
{
    if n <= 0 {
        proof {
            lemma_isqrt_unique(n as int, 0);
        }
        return 0;
    }
    if n == 1 {
        proof {
            lemma_isqrt_unique(1, 1);
        }
        return 1;
    }
    let mut x: i128 = n;
    let mut y: i128 = n / 2 + n % 2;
    proof {
        assert(n / n == 1) by (nonlinear_arith)
            requires
                n > 0,
        ;
        assert forall|s: int| squares_below(s, n as int) implies s <= n by {
            assert(s <= n) by (nonlinear_arith)
                requires
                    0 <= s,
                    s * s <= n,
            ;
        }
    }
    while y < x
        invariant
            2 <= n,
            1 <= x <= n,
            y == (x + n as int / x as int) / 2,
            forall|s: int| squares_below(s, n as int) ==> s <= x,
        decreases x,
    {
        proof {
            assert forall|s: int| squares_below(s, n as int) implies s <= y by {
                lemma_newton_step_is_above(n as int, x as int, s);
            }
            assert(squares_below(1, n as int));
            assert(n >= 4 ==> squares_below(2, n as int));
        }
        x = y;
        proof {
            let q = n as int / x as int;
            assert(0 <= q && x * q <= n) by (nonlinear_arith)
                requires
                    1 <= x <= n,
                    q == n as int / x as int,
            ;
            if x >= 2 && q >= 2 {
                assert(x + q <= x * q) by (nonlinear_arith)
                    requires
                        x >= 2,
                        q >= 2,
                ;
            }
        }
        y = (x + n / x) / 2;
    }
    proof {
        let q = n as int / x as int;
        // The loop stops only once x <= n / x.
        assert(x * x <= n) by (nonlinear_arith)
            requires
                x >= 1,
                n >= 0,
                q == n as int / x as int,
                x <= q,
        ;
        if (x + 1) * (x + 1) <= n {
            assert(squares_below(x + 1, n as int));
        }
        lemma_isqrt_unique(n as int, x as int);
    }
    x
}

/// Compares two fractions without leaving the type: whether `a / b` is at most
/// `c / d`. Like Euclid's algorithm it compares the integer parts, and then
/// the inverses of what is left.
pub fn fraction_at_most(a: i128, b: i128, c: i128, d: i128) -> (ok: bool)
    requires
        a >= 0,
        b > 0,
        c >= 0,
        d > 0,
    ensures
        ok == (a * d <= c * b),
{
    let (mut a1, mut b1, mut c1, mut d1): (i128, i128, i128, i128) = (a, b, c, d);
    loop
        invariant
            a1 >= 0,
            b1 > 0,
            c1 >= 0,
            d1 > 0,
            (a * d <= c * b) == (a1 * d1 <= c1 * b1),
        decreases b1 + d1,
    {
        let (q1, q2): (i128, i128) = (a1 / b1, c1 / d1);
        let (r1, r2): (i128, i128) = (a1 % b1, c1 % d1);
        proof {
            lemma_fractions(
                a1 as int,
                b1 as int,
                c1 as int,
                d1 as int,
                q1 as int,
                q2 as int,
                r1 as int,
                r2 as int,
            );
        }
        if q1 != q2 {
            return q1 < q2;
        }
        if r1 == 0 || r2 == 0 {
            return r1 == 0;
        }
        a1 = d1;
        c1 = b1;
        b1 = r2;
        d1 = r1;
    }
}

/// One round of the comparison of two fractions.
proof fn lemma_fractions(
    a: int,
    b: int,
    c: int,
    d: int,
    q1: int,
    q2: int,
    r1: int,
    r2: int,
)
    requires
        a >= 0,
        b > 0,
        c >= 0,
        d > 0,
        q1 == a / b,
        r1 == a % b,
        q2 == c / d,
        r2 == c % d,
    ensures
        0 <= r1 < b,
        0 <= r2 < d,
        q1 < q2 ==> a * d <= c * b,
        q1 > q2 ==> a * d > c * b,
        q1 == q2 ==> (a * d <= c * b <==> d * r1 <= b * r2),
        d * r1 >= 0,
        b * r2 >= 0,
        r1 == 0 <==> d * r1 == 0,
        r2 == 0 <==> b * r2 == 0,
{
    vstd::arithmetic::div_mod::lemma_fundamental_div_mod(a, b);
    vstd::arithmetic::div_mod::lemma_fundamental_div_mod(c, d);
    assert(a * d == q1 * (b * d) + d * r1) by (nonlinear_arith)
        requires
            a == b * q1 + r1,
    ;
    assert(c * b == q2 * (b * d) + b * r2) by (nonlinear_arith)
        requires
            c == d * q2 + r2,
    ;
    assert(0 <= d * r1 < b * d && 0 <= b * r2 < b * d) by (nonlinear_arith)
        requires
            0 <= r1 < b,
            0 <= r2 < d,
    ;
    assert((r1 == 0 <==> d * r1 == 0) && (r2 == 0 <==> b * r2 == 0)) by (nonlinear_arith)
        requires
            b > 0,
            d > 0,
    ;
    if q1 < q2 {
        assert((q1 + 1) * (b * d) <= q2 * (b * d)) by (nonlinear_arith)
            requires
                q1 + 1 <= q2,
                b * d > 0,
        ;
        assert((q1 + 1) * (b * d) == q1 * (b * d) + b * d) by (nonlinear_arith);
    } else if q1 > q2 {
        assert((q2 + 1) * (b * d) <= q1 * (b * d)) by (nonlinear_arith)
            requires
                q2 + 1 <= q1,
                b * d > 0,
        ;
        assert((q2 + 1) * (b * d) == q2 * (b * d) + b * d) by (nonlinear_arith);
    }
}

/// Being the largest number whose square, times `d`, is at most `value` is
/// being the integer square root of the quotient of `value` by `d`.
pub proof fn lemma_root_of_quotient(value: int, d: int, r: int)
    requires
        value >= 0,
        d > 0,
        r >= 0,
    ensures
        r * r * d <= value < (r + 1) * (r + 1) * d <==> r == sqrt_floor(quotient(value, d)),
{
    let n = value / d;
    assert(n >= 0 && n * d <= value < (n + 1) * d) by (nonlinear_arith)
        requires
            value >= 0,
            d > 0,
            n == value / d,
    ;
    assert(r * r * d <= value <==> r * r <= n) by (nonlinear_arith)
        requires
            d > 0,
            n * d <= value < (n + 1) * d,
    ;
    let next = (r + 1) * (r + 1);
    assert(value < next * d <==> n < next) by (nonlinear_arith)
        requires
            d > 0,
            n * d <= value < (n + 1) * d,
    ;
    assert(n == 0 && r * r <= n ==> r == 0) by (nonlinear_arith)
        requires
            r >= 0,
    ;
    assert(r == 0 ==> r * r == 0 && next == 1) by (nonlinear_arith)
        requires
            next == (r + 1) * (r + 1),
    ;
    if r * r <= n < next {
        lemma_isqrt_unique(n, r);
    }
    lemma_isqrt_exists(n);
}

/// Integer square root of `a * b / d`, where the product need not stay within
/// the type: the largest `r` with `r * r * d <= a * b`. It lies between `b` and
/// `a / d`.
pub fn isqrt_of_product(a: i128, b: i128, d: i128) -> (r: i128)
    requires
        b >= 0,
        d > 0,
        b * d <= a,
    ensures
        r == sqrt_floor(quotient(a * b, d as int)),
        b <= r <= a as int / d as int,
{
    let mut low: i128 = b;
    let mut high: i128 = a / d;
    proof {
        let q = high as int;
        assert(a >= 0 && a * b >= 0 && b * b * d <= a * b) by (nonlinear_arith)
            requires
                b >= 0,
                d > 0,
                b * d <= a,
        ;
        assert(q * d <= a && a < (q + 1) * d && b <= q) by (nonlinear_arith)
            requires
                d > 0,
                a >= 0,
                b * d <= a,
                q == a as int / d as int,
        ;
        assert(a * b < (q + 1) * (q + 1) * d) by (nonlinear_arith)
            requires
                0 <= a < (q + 1) * d,
                0 <= b < q + 1,
        ;
    }
    while low < high
        invariant
            0 <= b <= low <= high <= a as int / d as int,
            d > 0,
            a >= 0,
            (a as int / d as int) * d <= a,
            low * low * d <= a * b,
            a * b < (high + 1) * (high + 1) * d,
        decreases high - low,
    {
        let gap: i128 = high - low;
        let mid: i128 = low + (gap / 2 + gap % 2);
        proof {
            assert(0 < mid * d <= a) by (nonlinear_arith)
                requires
                    0 < mid <= a as int / d as int,
                    d > 0,
                    (a as int / d as int) * d <= a,
            ;
            assert((mid * d) * mid == mid * mid * d) by (nonlinear_arith);
            assert(b * a == a * b) by (nonlinear_arith);
        }
        if fraction_at_most(mid * d, a, b, mid) {
            low = mid;
        } else {
            high = mid - 1;
        }
    }
    proof {
        assert(a * b >= 0) by (nonlinear_arith)
            requires
                a >= 0,
                b >= 0,
        ;
        lemma_root_of_quotient(a * b, d as int, low as int);
    }
    low
}

} // verus!
