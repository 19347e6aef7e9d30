//! The percentage of a budget that is used.
//!
//! It is the one that double-precision arithmetic gives: both counts, their
//! quotient and its hundredfold are each rounded to a 53-bit significand, ties to
//! even, and the outcome is rounded to the nearest whole number, halves upwards. A
//! value is held as a significand `m` and an exponent `e`, standing for `m` times
//! two to the power `e`.

use vstd::prelude::*;

verus! {

/// Two to the power 52.
pub const SIGNIFICAND_MIN: u128 = 0x10_0000_0000_0000;

/// Two to the power 53.
pub const SIGNIFICAND_END: u128 = 0x20_0000_0000_0000;

/// The whole number nearest to `n / d`, the even one when two are equally near.
pub open spec fn nearest_even(n: nat, d: nat) -> nat {
    let q = n / d;
    let r = n % d;
    if 2 * r < d || (2 * r == d && q % 2 == 0) {
        q
    } else {
        q + 1
    }
}

/// `n / d` times two to the power `e`, with its significand rounded to 53 bits.
pub open spec fn rounded(n: nat, d: nat, e: int) -> (nat, int)
    decreases
            (if n < SIGNIFICAND_MIN * d {
                SIGNIFICAND_MIN * d - n
            } else if n >= SIGNIFICAND_END * d {
                n - SIGNIFICAND_END * d + 1
            } else {
                0
            }),
    when n > 0 && d > 0
{
    if n < SIGNIFICAND_MIN * d {
        rounded(2 * n, d, e - 1)
    } else if n >= SIGNIFICAND_END * d {
        rounded(n, 2 * d, e + 1)
    } else {
        (nearest_even(n, d), e)
    }
}

/// Two to the power `k`.
pub open spec fn two_to(k: nat) -> nat
    decreases k,
{
    if k == 0 {
        1
    } else {
        2 * two_to((k - 1) as nat)
    }
}

/// The whole number nearest to `m` times two to the power `e`, halves upwards.
pub open spec fn whole(m: nat, e: int) -> nat {
    if e >= 0 {
        m * two_to(e as nat)
    } else {
        (2 * m + two_to((-e) as nat)) / (2 * two_to((-e) as nat))
    }
}

/// `n`, or the greatest `u64` when that is less.
pub open spec fn capped(n: nat) -> nat {
    if n <= u64::MAX {
        n
    } else {
        u64::MAX as nat
    }
}

/// The percentage of `budget` that `used` is, as double-precision arithmetic
/// gives it; zero when either is zero, and at most the greatest `u64`.
pub open spec fn percent(used: nat, budget: nat) -> nat {
    if used == 0 || budget == 0 {
        0
    } else {
        let a = rounded(used, 1, 0);
        let b = rounded(budget, 1, 0);
        let f = rounded(a.0, b.0, a.1 - b.1);
        let p = rounded(100 * f.0, 1, f.1);
        capped(whole(p.0, p.1))
    }
}

/// See [`nearest_even`].
fn nearest_even_of(n: u128, d: u128) -> (r: u128)
    requires
        0 < d,
        n < SIGNIFICAND_END * d,
        d <= 0xffff_ffff_ffff_ffff_ffff_ffff_ffff,
    ensures
        r == nearest_even(n as nat, d as nat),
        n >= SIGNIFICAND_MIN * d ==> r >= SIGNIFICAND_MIN,
        r <= SIGNIFICAND_END,
{
    let q: u128 = n / d;
    let r: u128 = n % d;
    proof {
        let (ni, di) = (n as int, d as int);
        assert(q < SIGNIFICAND_END) by (nonlinear_arith)
            requires
                di > 0,
                q == ni / di,
                ni < SIGNIFICAND_END * di,
        ;
        assert(ni >= SIGNIFICAND_MIN * di ==> q >= SIGNIFICAND_MIN) by (nonlinear_arith)
            requires
                di > 0,
                q == ni / di,
        ;
    }
    if 2 * r < d || (2 * r == d && q % 2 == 0) {
        q
    } else {
        q + 1
    }
}

/// See [`rounded`].
fn rounded_of(n: u128, d: u128, e: i128) -> (r: (u128, i128))
    requires
        0 < n <= 0xffff_ffff_ffff_ffff,
        0 < d <= SIGNIFICAND_END,
        -0x1000_0000_0000_0000_0000_0000_0000_0000 <= e
            <= 0x1000_0000_0000_0000_0000_0000_0000_0000,
    ensures
        (r.0 as nat, r.1 as int) == rounded(n as nat, d as nat, e as int),
        SIGNIFICAND_MIN <= r.0 <= SIGNIFICAND_END,
        e - 0x1_0000_0000_0000_0000_0000_0000_0000 <= r.1
            <= e + 0x1_0000_0000_0000_0000_0000_0000_0000,
{
    let mut x: u128 = n;
    let mut y: u128 = d;
    let mut k: i128 = e;
    while x < SIGNIFICAND_MIN * y
        invariant
            0 < x,
            0 < y <= SIGNIFICAND_END,
            y == d,
            x < SIGNIFICAND_END * y || x <= 0xffff_ffff_ffff_ffff,
            k <= e,
            e - k < x,
            -0x1000_0000_0000_0000_0000_0000_0000_0000 <= e
                <= 0x1000_0000_0000_0000_0000_0000_0000_0000,
            rounded(n as nat, d as nat, e as int) == rounded(x as nat, y as nat, k as int),
        decreases
            (if x < SIGNIFICAND_MIN * y {
                SIGNIFICAND_MIN * y - x
            } else {
                0
            }),
    {
        x = 2 * x;
        k = k - 1;
    }
    let ghost k0 = k as int;
    while x >= SIGNIFICAND_END * y
        invariant
            0 < d <= y <= SIGNIFICAND_END,
            0 < x,
            x < SIGNIFICAND_END * d || x <= 0xffff_ffff_ffff_ffff,
            d <= SIGNIFICAND_END,
            x >= SIGNIFICAND_MIN * y,
            e - 0x1_0000_0000_0000_0000_0000_0000_0000 <= k0 <= e,
            k0 <= k,
            k - k0 < y,
            -0x1000_0000_0000_0000_0000_0000_0000_0000 <= e
                <= 0x1000_0000_0000_0000_0000_0000_0000_0000,
            rounded(n as nat, d as nat, e as int) == rounded(x as nat, y as nat, k as int),
        decreases
            (if x >= SIGNIFICAND_END * y {
                x - SIGNIFICAND_END * y + 1
            } else {
                0
            }),
    {
        y = 2 * y;
        k = k + 1;
    }
    (nearest_even_of(x, y), k)
}

/// `m` times two to the power `e`, or the greatest `u64` when that is less.
fn scaled_up(m: u128, e: i128) -> (r: u64)
    requires
        0 < m <= SIGNIFICAND_END,
        0 <= e,
    ensures
        r == capped(m as nat * two_to(e as nat)),
{
    let mut v: u128 = m;
    let mut left: i128 = e;
    assert(m * two_to(0) == m) by (nonlinear_arith)
        requires
            two_to(0) == 1,
    ;
    while left > 0
        invariant
            0 < v <= u64::MAX,
            0 <= left <= e,
            v * two_to(left as nat) == m * two_to(e as nat),
        decreases left,
    {
        proof {
            let rest = two_to((left - 1) as nat);
            two_to_positive((left - 1) as nat);
            assert(two_to(left as nat) == 2 * rest);
            assert((2 * v) * rest == v * (2 * rest)) by (nonlinear_arith);
            assert(2 * v > u64::MAX ==> (2 * v) * rest > u64::MAX) by (nonlinear_arith)
                requires
                    rest >= 1,
            ;
        }
        v = 2 * v;
        left = left - 1;
        if v > 0xffff_ffff_ffff_ffff {
            return 0xffff_ffff_ffff_ffff;
        }
    }
    assert(v * two_to(0) == v) by (nonlinear_arith)
        requires
            two_to(0) == 1,
    ;
    v as u64
}

proof fn two_to_positive(k: nat)
    ensures
        two_to(k) >= 1,
    decreases k,
{
    if k > 0 {
        two_to_positive((k - 1) as nat);
    }
}

proof fn two_to_sixty()
    ensures
        two_to(60) == 0x1000_0000_0000_0000,
{
    reveal_with_fuel(two_to, 16);
    assert(two_to(15) == 0x8000);
    assert(two_to(30) == 0x4000_0000);
    assert(two_to(45) == 0x2000_0000_0000);
}

proof fn two_to_grows(a: nat, b: nat)
    requires
        a <= b,
    ensures
        two_to(a) <= two_to(b),
    decreases b,
{
    if a < b {
        two_to_grows(a, (b - 1) as nat);
        two_to_positive((b - 1) as nat);
    }
}

/// See [`whole`].
fn whole_of(m: u128, e: i128) -> (r: u64)
    requires
        0 < m <= SIGNIFICAND_END,
        e > i128::MIN,
    ensures
        r == capped(whole(m as nat, e as int)),
{
    if e >= 0 {
        return scaled_up(m, e);
    }
    let k: i128 = -e;
    if k > 60 {
        proof {
            let p = two_to(k as nat) as int;
            two_to_grows(60, k as nat);
            two_to_sixty();
            assert((2 * m + p) / (2 * p) == 0) by (nonlinear_arith)
                requires
                    p >= 0x1000_0000_0000_0000,
                    0 < m <= 0x20_0000_0000_0000,
            ;
        }
        return 0;
    }
    let mut p: u128 = 1;
    let mut i: i128 = 0;
    proof {
        two_to_sixty();
    }
    while i < k
        invariant
            0 <= i <= k <= 60,
            p == two_to(i as nat),
            p <= two_to(60),
            two_to(60) == 0x1000_0000_0000_0000,
        decreases k - i,
    {
        proof {
            two_to_grows((i + 1) as nat, 60);
        }
        p = 2 * p;
        i = i + 1;
    }
    proof {
        two_to_positive(k as nat);
    }
    let w: u128 = (2 * m + p) / (2 * p);
    assert(w <= m + 1) by (nonlinear_arith)
        requires
            w == (2 * m + p) / (2 * p as int),
            p >= 1,
    ;
    w as u64
}

/// The percentage of `budget` that `used` is (see [`percent`]).
pub fn percent_of(used: u64, budget: u64) -> (r: u64)
    ensures
        r == percent(used as nat, budget as nat),
{
    if used == 0 || budget == 0 {
        return 0;
    }
    let a = rounded_of(used as u128, 1, 0);
    let b = rounded_of(budget as u128, 1, 0);
    let f = rounded_of(a.0, b.0, a.1 - b.1);
    let p = rounded_of(100 * f.0, 1, f.1);
    whole_of(p.0, p.1)
}

// ---------------------------------------------------------------------------
// Laws
// ---------------------------------------------------------------------------

/// Whether `m` is at most a half away from `n / d`.
pub open spec fn is_near(m: nat, n: nat, d: nat) -> bool {
    2 * (m * d) <= 2 * n + d && 2 * n <= 2 * (m * d) + d
}

proof fn nearest_even_is_near(n: nat, d: nat)
    requires
        d > 0,
        SIGNIFICAND_MIN * d <= n < SIGNIFICAND_END * d,
    ensures
        is_near(nearest_even(n, d), n, d),
        SIGNIFICAND_MIN <= nearest_even(n, d) <= SIGNIFICAND_END,
{
    let (ni, di) = (n as int, d as int);
    let q = ni / di;
    let r = ni % di;
    vstd::arithmetic::div_mod::lemma_fundamental_div_mod(ni, di);
    assert(0 <= r < di);
    assert(di * q == q * di && (q + 1) * di == q * di + di) by (nonlinear_arith);
    assert(SIGNIFICAND_MIN <= q < SIGNIFICAND_END) by (nonlinear_arith)
        requires
            di > 0,
            q == ni / di,
            SIGNIFICAND_MIN * di <= ni < SIGNIFICAND_END * di,
    ;
}

/// A quotient that is not too large is rounded to a significand nearby.
proof fn rounded_up(n: nat, d: nat, e: int) -> (k: nat)
    requires
        0 < n,
        0 < d,
        n < SIGNIFICAND_END * d,
    ensures
        rounded(n, d, e).1 == e - k,
        SIGNIFICAND_MIN <= rounded(n, d, e).0 <= SIGNIFICAND_END,
        is_near(rounded(n, d, e).0, n * two_to(k), d),
    decreases
            (if n < SIGNIFICAND_MIN * d {
                SIGNIFICAND_MIN * d - n
            } else {
                0
            }),
{
    if n < SIGNIFICAND_MIN * d {
        let k = rounded_up(2 * n, d, e - 1);
        assert(two_to(k + 1) == 2 * two_to(k));
        assert((2 * n) * two_to(k) == n * (2 * two_to(k))) by (nonlinear_arith);
        k + 1
    } else {
        nearest_even_is_near(n, d);
        assert(n * two_to(0) == n) by (nonlinear_arith)
            requires
                two_to(0) == 1,
        ;
        0
    }
}

/// A quotient that is not too small is rounded to a significand nearby.
proof fn rounded_down(n: nat, d: nat, e: int) -> (j: nat)
    requires
        0 < n,
        0 < d,
        n >= SIGNIFICAND_MIN * d,
    ensures
        rounded(n, d, e).1 == e + j,
        SIGNIFICAND_MIN <= rounded(n, d, e).0 <= SIGNIFICAND_END,
        is_near(rounded(n, d, e).0, n, d * two_to(j)),
    decreases
            (if n >= SIGNIFICAND_END * d {
                n - SIGNIFICAND_END * d + 1
            } else {
                0
            }),
{
    if n >= SIGNIFICAND_END * d {
        let j = rounded_down(n, 2 * d, e + 1);
        assert(two_to(j + 1) == 2 * two_to(j));
        assert((2 * d) * two_to(j) == d * (2 * two_to(j))) by (nonlinear_arith);
        j + 1
    } else {
        nearest_even_is_near(n, d);
        assert(d * two_to(0) == d) by (nonlinear_arith)
            requires
                two_to(0) == 1,
        ;
        0
    }
}

/// A count that fits a significand is rounded to itself.
proof fn rounded_exactly(n: nat) -> (s: nat)
    requires
        0 < n < SIGNIFICAND_END,
    ensures
        rounded(n, 1, 0) == (n * two_to(s), -s),
        SIGNIFICAND_MIN <= n * two_to(s) <= SIGNIFICAND_END,
{
    let s = rounded_up(n, 1, 0);
    let m = rounded(n, 1, 0).0;
    assert(m * 1 == m) by (nonlinear_arith);
    s
}

proof fn two_to_adds(a: nat, b: nat)
    ensures
        two_to(a + b) == two_to(a) * two_to(b),
    decreases a,
{
    if a == 0 {
        assert(1 * two_to(b) == two_to(b)) by (nonlinear_arith);
    } else {
        two_to_adds((a - 1) as nat, b);
        let (p, q) = (two_to((a - 1) as nat), two_to(b));
        assert((2 * p) * q == 2 * (p * q)) by (nonlinear_arith);
    }
}

/// The scale of the hundredfold is below one, and it is large against the budget.
///
/// `u` is used of the budget `g`; `mf` and `mp` are the significands of the
/// quotient and of its hundredfold; `v` is what the latter was scaled down by, and
/// `p` the scale of both together.
proof fn scale_is_large(u: int, g: int, mf: int, mp: int, v: int, p: int)
    requires
        0 < u < 0x800_0000_0000,
        0 < g,
        1 <= v,
        0x10_0000_0000_0000 <= mf,
        0x10_0000_0000_0000 <= mp <= 0x20_0000_0000_0000,
        2 * (mp * v) <= 200 * mf + v,
        200 * mf <= 2 * (mp * v) + v,
        2 * (mf * g) <= 2 * (u * p) + g,
        1 <= p,
    ensures
        (100 + v) * g < p,
        v < p,
{
    assert(v * 0x1f_ffff_ffff_ffff <= 200 * mf) by (nonlinear_arith)
        requires
            0x10_0000_0000_0000 <= mp,
            1 <= v,
            2 * (mp * v) <= 200 * mf + v,
    ;
    assert(200 * 0x10_0000_0000_0000 <= v * 0x40_0000_0000_0001) by (nonlinear_arith)
        requires
            0x10_0000_0000_0000 <= mf,
            mp <= 0x20_0000_0000_0000,
            1 <= v,
            200 * mf <= 2 * (mp * v) + v,
    ;
    assert(v >= 49);
    let c = 200 * 0x800_0000_0000;
    assert((200 * mf) * g >= (v * 0x1f_ffff_ffff_ffff) * g) by (nonlinear_arith)
        requires
            v * 0x1f_ffff_ffff_ffff <= 200 * mf,
            0 < g,
    ;
    assert((200 * mf) * g == 100 * (2 * (mf * g))) by (nonlinear_arith);
    assert(200 * (u * p) <= c * p) by (nonlinear_arith)
        requires
            0 < u < 0x800_0000_0000,
            1 <= p,
            c == 200 * 0x800_0000_0000,
    ;
    assert((v * 0x1f_ffff_ffff_ffff) * g <= c * p + 100 * g);
    if p <= (100 + v) * g {
        assert(c * p <= c * ((100 + v) * g)) by (nonlinear_arith)
            requires
                p <= (100 + v) * g,
                c == 200 * 0x800_0000_0000,
        ;
        assert(c * ((100 + v) * g) + 100 * g == (c * 100 + c * v + 100) * g) by (nonlinear_arith);
        assert(c * 100 + c * v + 100 < v * 0x1f_ffff_ffff_ffff);
        assert((c * 100 + c * v + 100) * g < (v * 0x1f_ffff_ffff_ffff) * g) by (nonlinear_arith)
            requires
                c * 100 + c * v + 100 < v * 0x1f_ffff_ffff_ffff,
                0 < g,
        ;
    }
    assert((100 + v) * g >= 100 + v) by (nonlinear_arith)
        requires
            1 <= v,
            0 < g,
    ;
}

/// The bound on a quotient from above, with what its two sides share taken out.
proof fn quotient_bound(u: int, g: int, mf: int, scale: int, y: int, p: int)
    requires
        0 < y,
        0 < u,
        scale <= y * p,
        2 * (mf * (g * y)) <= 2 * (u * scale) + g * y,
    ensures
        2 * (mf * g) <= 2 * (u * p) + g,
{
    assert(u * scale <= u * (y * p)) by (nonlinear_arith)
        requires
            0 < u,
            scale <= y * p,
    ;
    assert(2 * (mf * (g * y)) == (2 * (mf * g)) * y) by (nonlinear_arith);
    assert(2 * (u * (y * p)) + g * y == (2 * (u * p) + g) * y) by (nonlinear_arith);
    assert(2 * (mf * g) <= 2 * (u * p) + g) by (nonlinear_arith)
        requires
            0 < y,
            (2 * (mf * g)) * y <= (2 * (u * p) + g) * y,
    ;
}

/// The bound on a quotient from below, with what its two sides share taken out.
proof fn quotient_bound_below(u: int, g: int, mf: int, scale: int, y: int, p: int)
    requires
        0 < y,
        scale == y * p,
        2 * (u * scale) <= 2 * (mf * (g * y)) + g * y,
    ensures
        2 * (u * p) <= 2 * (mf * g) + g,
{
    assert(2 * (mf * (g * y)) + g * y == (2 * (mf * g) + g) * y) by (nonlinear_arith);
    assert(2 * (u * (y * p)) == (2 * (u * p)) * y) by (nonlinear_arith);
    assert(2 * (u * p) <= 2 * (mf * g) + g) by (nonlinear_arith)
        requires
            0 < y,
            (2 * (u * p)) * y <= (2 * (mf * g) + g) * y,
    ;
}

/// The error of the whole number, from the errors of the steps towards it.
proof fn steps_add_up(u: int, g: int, mf: int, mp: int, w: int, v: int, h: int)
    requires
        0 < g,
        0 < v,
        0 < h,
        2 * (mf * g) <= 2 * (u * (v * h)) + g,
        2 * (u * (v * h)) <= 2 * (mf * g) + g,
        2 * (mp * v) <= 200 * mf + v,
        200 * mf <= 2 * (mp * v) + v,
        2 * (w * h) <= 2 * mp + h,
        2 * mp <= 2 * (w * h) + h,
        (100 + v) * g < v * h,
    ensures
        2 * (w * g) <= 200 * u + g,
        200 * u <= 2 * (w * g) + g,
{
    let p = v * h;
    let d = 2 * (w * g) - 200 * u;
    assert((2 * (w * h)) * (v * g) <= (2 * mp + h) * (v * g) && (2 * mp) * (v * g) <= (2 * (w * h)
        + h) * (v * g)) by (nonlinear_arith)
        requires
            0 < g,
            0 < v,
            2 * (w * h) <= 2 * mp + h,
            2 * mp <= 2 * (w * h) + h,
    ;
    assert((2 * (w * h)) * (v * g) == 2 * (w * g) * p) by (nonlinear_arith)
        requires
            p == v * h,
    ;
    assert(h * (v * g) == g * p) by (nonlinear_arith)
        requires
            p == v * h,
    ;
    assert((2 * mp + h) * (v * g) == (2 * mp) * (v * g) + h * (v * g)) by (nonlinear_arith);
    assert((2 * (w * h) + h) * (v * g) == (2 * (w * h)) * (v * g) + h * (v * g))
        by (nonlinear_arith);
    assert((2 * mp) * (v * g) == (2 * (mp * v)) * g) by (nonlinear_arith);
    assert((2 * (mp * v)) * g <= (200 * mf + v) * g && (200 * mf) * g <= (2 * (mp * v) + v) * g)
        by (nonlinear_arith)
        requires
            0 < g,
            2 * (mp * v) <= 200 * mf + v,
            200 * mf <= 2 * (mp * v) + v,
    ;
    assert((200 * mf + v) * g == 100 * (2 * (mf * g)) + v * g) by (nonlinear_arith);
    assert((200 * mf) * g == 100 * (2 * (mf * g))) by (nonlinear_arith);
    assert((2 * (mp * v) + v) * g == (2 * (mp * v)) * g + v * g) by (nonlinear_arith);
    assert(100 * (2 * (u * p)) == 200 * u * p) by (nonlinear_arith);
    assert((100 + v) * g == 100 * g + v * g) by (nonlinear_arith);
    assert(2 * (w * g) * p <= 200 * u * p + g * p + (100 + v) * g);
    assert(200 * u * p <= 2 * (w * g) * p + g * p + (100 + v) * g);
    assert(d * p == 2 * (w * g) * p - 200 * u * p) by (nonlinear_arith)
        requires
            d == 2 * (w * g) - 200 * u,
    ;
    assert(d <= g) by (nonlinear_arith)
        requires
            d * p < g * p + p,
            0 < p,
    ;
    assert(-d <= g) by (nonlinear_arith)
        requires
            -(d * p) < g * p + p,
            0 < p,
    ;
}

/// The percentage is a whole number nearest to a hundred times the count used over
/// the budget, as long as the former is below two to the power 43 and the latter
/// below two to the power 53.
pub proof fn the_percentage_is_a_nearest_one(used: nat, budget: nat)
    requires
        used < 0x800_0000_0000,
        0 < budget < SIGNIFICAND_END,
    ensures
        is_near(percent(used, budget), 100 * used, budget),
{
    if used == 0 {
        assert(0 * budget == 0) by (nonlinear_arith);
    } else {
        let s = rounded_exactly(used);
        let t = rounded_exactly(budget);
        let a = rounded(used, 1, 0);
        let b = rounded(budget, 1, 0);
        let f = rounded(a.0, b.0, a.1 - b.1);
        let k = rounded_up(a.0, b.0, a.1 - b.1);
        let p = rounded(100 * f.0, 1, f.1);
        let j = rounded_down(100 * f.0, 1, f.1);
        let (u, g) = (used as int, budget as int);
        let (mf, mp) = (f.0 as int, p.0 as int);
        let (x, y, z, v) = (
            two_to(s) as int,
            two_to(t) as int,
            two_to(k) as int,
            two_to(j) as int,
        );
        two_to_positive(s);
        two_to_positive(t);
        two_to_positive(k);
        two_to_positive(j);
        two_to_adds(s, k);
        two_to_adds(t, j);
        assert(mp * (1 * v) == mp * v) by (nonlinear_arith);
        assert((u * x) * z == u * (x * z)) by (nonlinear_arith);
        // The quotient: `mf` is near `u * x * z / (g * y)`.
        assert(2 * (mf * (g * y)) <= 2 * ((u * x) * z) + g * y);
        assert(2 * ((u * x) * z) <= 2 * (mf * (g * y)) + g * y);
        if s + k <= t + j {
            two_to_grows(s + k, t + j);
            quotient_bound(u, g, mf, x * z, y, v);
            scale_is_large(u, g, mf, mp, v, v);
        }
        let shift = (s + k - t - j) as nat;
        let h = two_to(shift) as int;
        two_to_positive(shift);
        two_to_adds(t + j, shift);
        assert(s + k == t + j + shift);
        assert((y * v) * h == y * (v * h)) by (nonlinear_arith);
        quotient_bound(u, g, mf, x * z, y, v * h);
        quotient_bound_below(u, g, mf, x * z, y, v * h);
        assert(v * h >= 1) by (nonlinear_arith)
            requires
                v >= 1,
                h >= 1,
        ;
        scale_is_large(u, g, mf, mp, v, v * h);
        assert(p.1 == -shift);
        let w = whole(p.0, p.1) as int;
        vstd::arithmetic::div_mod::lemma_fundamental_div_mod(2 * mp + h, 2 * h);
        assert((2 * h) * w == 2 * (w * h)) by (nonlinear_arith);
        steps_add_up(u, g, mf, mp, w, v, h);
        assert(w <= 100 * u + 1) by (nonlinear_arith)
            requires
                2 * (w * g) <= 200 * u + g,
                0 < u,
                0 < g,
        ;
    }
}

/// A quotient is rounded as any fraction of the same value is.
proof fn rounded_by_value(n: nat, d: nat, e: int)
    requires
        0 < n,
        0 < d,
    ensures
        rounded(2 * n, 2 * d, e) == rounded(n, d, e),
    decreases
            (if n < SIGNIFICAND_MIN * d {
                SIGNIFICAND_MIN * d - n
            } else if n >= SIGNIFICAND_END * d {
                n - SIGNIFICAND_END * d + 1
            } else {
                0
            }),
{
    if n < SIGNIFICAND_MIN * d {
        rounded_by_value(2 * n, d, e - 1);
    } else if n >= SIGNIFICAND_END * d {
        rounded_by_value(n, 2 * d, e + 1);
    } else {
        let (ni, di) = (n as int, d as int);
        assert((2 * ni) / (2 * di) == ni / di && (2 * ni) % (2 * di) == 2 * (ni % di)) by {
            vstd::arithmetic::div_mod::lemma_fundamental_div_mod(ni, di);
            assert(2 * ni == (2 * di) * (ni / di) + 2 * (ni % di)) by (nonlinear_arith)
                requires
                    ni == di * (ni / di) + ni % di,
            ;
            vstd::arithmetic::div_mod::lemma_fundamental_div_mod_converse(
                2 * ni,
                2 * di,
                ni / di,
                2 * (ni % di),
            );
        }
    }
}

/// The exponent that is put in is added to the one that comes out.
proof fn rounded_shifts(n: nat, d: nat, e: int)
    requires
        0 < n,
        0 < d,
    ensures
        rounded(n, d, e + 1) == (rounded(n, d, e).0, rounded(n, d, e).1 + 1),
    decreases
            (if n < SIGNIFICAND_MIN * d {
                SIGNIFICAND_MIN * d - n
            } else if n >= SIGNIFICAND_END * d {
                n - SIGNIFICAND_END * d + 1
            } else {
                0
            }),
{
    if n < SIGNIFICAND_MIN * d {
        rounded_shifts(2 * n, d, e - 1);
    } else if n >= SIGNIFICAND_END * d {
        rounded_shifts(n, 2 * d, e + 1);
    }
}

/// Twice a count is rounded to twice what the count is rounded to.
proof fn rounded_doubles(n: nat)
    requires
        0 < n,
    ensures
        rounded(2 * n, 1, 0) == (rounded(n, 1, 0).0, rounded(n, 1, 0).1 + 1),
{
    rounded_shifts(n, 1, 0);
    if n >= SIGNIFICAND_MIN {
        rounded_by_value(n, 1, 1);
    }
}

/// Twice the count of twice the budget is the same percentage, whatever their size.
pub proof fn the_percentage_keeps_under_doubling(used: nat, budget: nat)
    ensures
        percent(2 * used, 2 * budget) == percent(used, budget),
{
    if used > 0 && budget > 0 {
        rounded_doubles(used);
        rounded_doubles(budget);
    }
}

} // verus!
