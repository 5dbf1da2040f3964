//! Target dimensions for LLM-bound images.
//!
//! The long edge of an image is brought down to [`UNIVERSAL_MAX_LONG_EDGE`]
//! with the aspect ratio kept. The scaling is specified exactly as IEEE 754
//! double arithmetic computes it (`1568.0 / long`, then `edge * scale`, then
//! `round()`), and carried out here with integers so that every rounding step
//! is proved to match.

use vstd::prelude::*;
use vstd::arithmetic::power2::*;

verus! {

/// Universal long-edge cap for LLM input (fits the image limits of the common vision models).
pub const UNIVERSAL_MAX_LONG_EDGE: u32 = 1568;

// ---------------------------------------------------------------------------
// Specification: IEEE 754 double rounding over exact rationals.
// ---------------------------------------------------------------------------

/// `a / b` rounded to the nearest integer, ties to the even neighbour
/// (the IEEE 754 default rounding applied to a significand).
pub open spec fn round_ties_even(a: nat, b: nat) -> nat {
    let q = a / b;
    let r = a % b;
    if 2 * r < b {
        q
    } else if 2 * r > b {
        q + 1
    } else if q % 2 == 0 {
        q
    } else {
        q + 1
    }
}

/// The first scale `k' >= k` at which `a * 2^k' / b` reaches `2^52`, i.e. the
/// binary exponent at which the quotient `a / b` has a 53-bit significand.
pub open spec fn significand_scale(a: nat, b: nat, k: nat) -> nat
    decreases 128 - k,
{
    if k >= 128 || (a * pow2(k)) / b >= pow2(52) {
        k
    } else {
        significand_scale(a, b, k + 1)
    }
}

/// The first `j' >= j` at which `p / 2^j'` fits in 53 bits: how many low
/// bits a double must drop to hold the integer `p`.
pub open spec fn excess_bits(p: nat, j: nat) -> nat
    decreases 128 - j,
{
    if j >= 128 || p / pow2(j) < pow2(53) {
        j
    } else {
        excess_bits(p, j + 1)
    }
}

/// The double nearest to `1568 / long`, as a significand `m` over `2^k`.
pub open spec fn scale_factor(long: nat) -> (nat, nat) {
    let k = significand_scale(1568, long, 0);
    (round_ties_even(1568 * pow2(k), long), k)
}

/// The double nearest to the integer `p` (rounded to 53 significant bits).
pub open spec fn nearest_double_int(p: nat) -> nat {
    let j = excess_bits(p, 0);
    round_ties_even(p, pow2(j)) * pow2(j)
}

/// `f64::round` (half away from zero) of the non-negative value `v / 2^k`.
pub open spec fn round_half_away(v: nat, k: nat) -> nat {
    (v + pow2(k) / 2) / pow2(k)
}

/// `((edge as f64) * (1568.0 / long as f64)).round()`.
pub open spec fn scaled_edge(edge: nat, long: nat) -> nat {
    let (m, k) = scale_factor(long);
    round_half_away(nearest_double_int(edge * m), k)
}

/// The larger of two edges.
pub open spec fn long_edge(w: u32, h: u32) -> u32 {
    if w >= h { w } else { h }
}

/// `n.max(1)`.
pub open spec fn at_least_one(n: nat) -> nat {
    if n == 0 { 1 } else { n }
}

/// Target dimensions: unchanged when the long edge is within the cap,
/// otherwise both edges scaled by `1568 / long` in double arithmetic,
/// rounded, and kept at least 1.
pub open spec fn spec_optimal_dimensions(w: u32, h: u32) -> (u32, u32) {
    let long = long_edge(w, h);
    if long <= UNIVERSAL_MAX_LONG_EDGE {
        (w, h)
    } else {
        (
            at_least_one(scaled_edge(w as nat, long as nat)) as u32,
            at_least_one(scaled_edge(h as nat, long as nat)) as u32,
        )
    }
}

// ---------------------------------------------------------------------------
// Arithmetic lemmas.
// ---------------------------------------------------------------------------

proof fn lemma_div_at_least(a: int, b: int, c: int)
    requires
        b > 0,
        a >= c * b,
    ensures
        a / b >= c,
{
    let q = a / b;
    let r = a % b;
    assert(a == b * q + r && 0 <= r < b) by {
        vstd::arithmetic::div_mod::lemma_fundamental_div_mod(a, b);
    }
    assert(q >= c) by (nonlinear_arith)
        requires
            a == b * q + r,
            0 <= r < b,
            a >= c * b,
            b > 0,
    ;
}

proof fn lemma_div_below(a: int, b: int, c: int)
    requires
        b > 0,
        a >= 0,
        a < c * b,
    ensures
        a / b < c,
{
    let q = a / b;
    let r = a % b;
    assert(a == b * q + r && 0 <= r < b) by {
        vstd::arithmetic::div_mod::lemma_fundamental_div_mod(a, b);
    }
    assert(q < c) by (nonlinear_arith)
        requires
            a == b * q + r,
            0 <= r < b,
            a < c * b,
            b > 0,
    ;
}

/// Rounding to nearest moves the value by at most half a unit.
proof fn lemma_round_ties_even_error(a: nat, b: nat)
    requires
        b > 0,
    ensures
        2 * round_ties_even(a, b) * b <= 2 * a + b,
        2 * a <= 2 * round_ties_even(a, b) * b + b,
        round_ties_even(a, b) <= a / b + 1,
{
    let q = a / b;
    let r = a % b;
    assert(a == b * q + r && 0 <= r < b) by {
        vstd::arithmetic::div_mod::lemma_fundamental_div_mod(a as int, b as int);
    }
    let rq = round_ties_even(a, b);
    assert(rq == q || rq == q + 1);
    assert(rq == q ==> 2 * r <= b);
    assert(rq == q + 1 ==> 2 * r >= b);
    assert(2 * rq * b <= 2 * a + b && 2 * a <= 2 * rq * b + b) by (nonlinear_arith)
        requires
            a == b * q + r,
            0 <= r < b,
            rq == q ==> 2 * r <= b,
            rq == q + 1 ==> 2 * r >= b,
            rq == q || rq == q + 1,
    ;
}

proof fn lemma_pow2_values()
    ensures
        pow2(32) == 0x1_0000_0000,
        pow2(33) == 0x2_0000_0000,
        pow2(52) == 0x10_0000_0000_0000,
        pow2(53) == 0x20_0000_0000_0000,
        pow2(84) == pow2(52) * pow2(32),
        pow2(86) == pow2(53) * pow2(33),
        pow2(84) == 0x1000_0000_0000_0000_0000_00,
        pow2(86) == 0x4000_0000_0000_0000_0000_00,
{
    lemma2_to64();
    lemma2_to64_rest();
    lemma_pow2_adds(52, 32);
    lemma_pow2_adds(53, 33);
}

/// Two edges within half a pixel of their exact proportional sizes keep
/// the aspect ratio within 5% when both edges are 100 to 10000 pixels.
proof fn lemma_aspect_from_edges(w: int, h: int, lg: int, ow: int, oh: int)
    requires
        100 <= w <= 10000,
        100 <= h <= 10000,
        lg == (if w >= h { w } else { h }),
        2 * (ow * lg - 1568 * w) <= lg,
        -2 * (ow * lg - 1568 * w) <= lg,
        2 * (oh * lg - 1568 * h) <= lg,
        -2 * (oh * lg - 1568 * h) <= lg,
    ensures
        20 * (w * oh - h * ow) < w * oh,
        -20 * (w * oh - h * ow) < w * oh,
{
    let dw = ow * lg - 1568 * w;
    let dh = oh * lg - 1568 * h;
    assert((w * oh - h * ow) * lg == w * dh - h * dw) by (nonlinear_arith)
        requires
            dw == ow * lg - 1568 * w,
            dh == oh * lg - 1568 * h,
    ;
    assert(2 * (w * dh - h * dw) <= (w + h) * lg && -2 * (w * dh - h * dw) <= (w + h) * lg)
        by (nonlinear_arith)
        requires
            2 * dw <= lg,
            -2 * dw <= lg,
            2 * dh <= lg,
            -2 * dh <= lg,
            w >= 0,
            h >= 0,
    ;
    assert(2 * (oh * lg) >= 3136 * h - lg);
    assert(20 * (w + h) * lg < 2 * w * oh * lg) by (nonlinear_arith)
        requires
            2 * (oh * lg) >= 3136 * h - lg,
            100 <= w <= 10000,
            100 <= h <= 10000,
            lg == (if w >= h { w } else { h }),
    ;
    assert(20 * (w * oh - h * ow) < w * oh && -20 * (w * oh - h * ow) < w * oh) by (nonlinear_arith)
        requires
            (w * oh - h * ow) * lg == w * dh - h * dw,
            2 * (w * dh - h * dw) <= (w + h) * lg,
            -2 * (w * dh - h * dw) <= (w + h) * lg,
            20 * (w + h) * lg < 2 * w * oh * lg,
            lg >= 100,
    ;
}

// ---------------------------------------------------------------------------
// Executable arithmetic.
// ---------------------------------------------------------------------------

fn round_ties_even_u128(a: u128, b: u128) -> (r: u128)
    requires
        0 < b <= 0x1_0000_0000_0000_0000,
        a < 0x1000_0000_0000_0000_0000_0000_0000_0000,
    ensures
        r == round_ties_even(a as nat, b as nat),
{
    let q = a / b;
    let r = a % b;
    if 2 * r < b {
        q
    } else if 2 * r > b {
        q + 1
    } else if q % 2 == 0 {
        q
    } else {
        q + 1
    }
}

/// Computes the double nearest to `1568 / long` as `(m, k, 2^k)`.
fn scale_factor_exec(long: u32) -> (res: (u128, u32, u128))
    requires
        long > UNIVERSAL_MAX_LONG_EDGE,
    ensures
        (res.0 as nat, res.1 as nat) == scale_factor(long as nat),
        res.2 == pow2(res.1 as nat),
        1 <= res.1 <= 84,
        res.0 <= pow2(53),
        res.2 <= 0x1000_0000_0000_0000_0000_00,
        1568 * pow2(res.1 as nat) >= pow2(52) * long,
{
    proof {
        lemma_pow2_values();
        lemma2_to64();
    }
    let lg: u128 = long as u128;
    let two52: u128 = 0x10_0000_0000_0000;
    let mut k: u32 = 0;
    let mut p: u128 = 1;
    while (1568u128 * p) / lg < two52
        invariant
            p == pow2(k as nat),
            k <= 84,
            p <= 0x1000_0000_0000_0000_0000_00,
            k < 84 ==> p <= 0x800_0000_0000_0000_0000_00,
            pow2(84) == 0x1000_0000_0000_0000_0000_00,
            lg == long as u128,
            long > 1568,
            two52 == pow2(52),
            pow2(84) == pow2(52) * pow2(32),
            pow2(32) == 0x1_0000_0000,
            pow2(0) == 1,
            significand_scale(1568, long as nat, 0) == significand_scale(1568, long as nat, k as nat),
            k == 0 || (1568 * pow2((k - 1) as nat)) / (long as nat) < pow2(52),
        decreases 84 - k,
    {
        proof {
            if k == 84 {
                lemma_pow2_pos(52);
                assert(1568 * pow2(84) >= pow2(52) * (long as nat)) by (nonlinear_arith)
                    requires
                        pow2(84) == pow2(52) * pow2(32),
                        pow2(32) == 0x1_0000_0000,
                        (long as nat) < 0x1_0000_0000,
                        pow2(52) > 0,
                ;
                lemma_div_at_least((1568 * pow2(84)) as int, long as int, pow2(52) as int);
            }
            lemma_pow2_unfold((k + 1) as nat);
            if k + 1 < 84 {
                if k + 1 < 83 {
                    lemma_pow2_strictly_increases((k + 1) as nat, 83);
                }
                lemma_pow2_unfold(84);
            }
        }
        p = p * 2;
        k = k + 1;
    }
    proof {
        assert(k >= 1) by {
            if k == 0 {
                lemma_div_below(1568, long as int, 1);
            }
        }
        let a = 1568 * pow2(k as nat);
        lemma_pow2_unfold(k as nat);
        // the previous scale left the quotient below 2^52, so this one is below 2^53
        let prev = 1568 * pow2((k - 1) as nat);
        if prev >= pow2(52) * (long as nat) {
            lemma_div_at_least(prev as int, long as int, pow2(52) as int);
        }
        assert(a < pow2(53) * (long as nat)) by (nonlinear_arith)
            requires
                a == 2 * prev,
                prev < pow2(52) * (long as nat),
                pow2(53) == 2 * pow2(52),
        ;
        lemma_div_below(a as int, long as int, pow2(53) as int);
        lemma_round_ties_even_error(a, long as nat);
        assert(a >= pow2(52) * long) by {
            let q = a / (long as nat);
            vstd::arithmetic::div_mod::lemma_fundamental_div_mod(a as int, long as int);
            assert(a >= q * long) by (nonlinear_arith)
                requires
                    a == long * q + a % (long as nat),
                    a % (long as nat) >= 0,
            ;
            assert(q * long >= pow2(52) * long) by (nonlinear_arith)
                requires
                    q >= pow2(52),
                    long > 0,
            ;
        }
    }
    let m = round_ties_even_u128(1568u128 * p, lg);
    (m, k, p)
}

/// The double nearest to `edge * m` (an integer below `2^86`), exactly.
fn nearest_double_int_exec(edge: u32, m: u128) -> (res: (u128, u128))
    requires
        m <= pow2(53),
    ensures
        res.0 == nearest_double_int(edge as nat * m as nat),
        2 * res.0 <= 2 * (edge as nat * m as nat) + res.1,
        2 * (edge as nat * m as nat) <= 2 * res.0 + res.1,
        res.1 <= 2 * (edge as nat) + 1,
        res.1 >= 1,
        res.0 < 0x8000_0000_0000_0000_0000_00,
{
    proof {
        lemma_pow2_values();
        lemma2_to64();
    }
    assert((edge as nat) * (m as nat) < 0x4000_0000_0000_0000_0000_00) by (nonlinear_arith)
        requires
            edge < 0x1_0000_0000,
            m <= 0x20_0000_0000_0000,
    ;
    let prod: u128 = (edge as u128) * m;
    let two53: u128 = 0x20_0000_0000_0000;
    let mut j: u32 = 0;
    let mut pj: u128 = 1;
    while prod / pj >= two53
        invariant
            pj == pow2(j as nat),
            j <= 33,
            0 < pj <= 0x2_0000_0000,
            j < 33 ==> pj <= 0x1_0000_0000,
            pow2(32) == 0x1_0000_0000,
            two53 == pow2(53),
            prod < pow2(86),
            pow2(86) == pow2(53) * pow2(33),
            pow2(33) == 0x2_0000_0000,
            pow2(0) == 1,
            excess_bits(prod as nat, 0) == excess_bits(prod as nat, j as nat),
            j == 0 || (prod as nat) / pow2((j - 1) as nat) >= pow2(53),
        decreases 33 - j,
    {
        proof {
            if j == 33 {
                lemma_div_below(prod as int, pow2(33) as int, pow2(53) as int);
            }
            lemma_pow2_unfold((j + 1) as nat);
            if j + 1 < 33 {
                if j + 1 < 32 {
                    lemma_pow2_strictly_increases((j + 1) as nat, 32);
                }
            }
        }
        pj = pj * 2;
        j = j + 1;
    }
    proof {
        lemma_round_ties_even_error(prod as nat, pj as nat);
        lemma_pow2_pos(j as nat);
        if j >= 1 {
            lemma_pow2_unfold(j as nat);
            let half = pow2((j - 1) as nat);
            // prod >= 2^53 * 2^(j-1) and prod <= edge * 2^53, so 2^(j-1) <= edge
            let pn = prod as nat;
            let q = pn / half;
            vstd::arithmetic::div_mod::lemma_fundamental_div_mod(pn as int, half as int);
            assert(half <= edge) by (nonlinear_arith)
                requires
                    pn == half * q + pn % half,
                    pn % half >= 0,
                    q >= pow2(53),
                    pn == edge * m,
                    m <= pow2(53),
                    half > 0,
                    pow2(53) > 0,
            ;
        }
    }
    let q = round_ties_even_u128(prod, pj);
    proof {
        vstd::arithmetic::div_mod::lemma_fundamental_div_mod(prod as int, pj as int);
        assert(2 * (q as nat * pj as nat) <= 2 * (prod as nat) + pj) by (nonlinear_arith)
            requires
                2 * (q as nat) * (pj as nat) <= 2 * (prod as nat) + pj,
        ;
        assert(2 * (prod as nat) <= 2 * (q as nat * pj as nat) + pj) by (nonlinear_arith)
            requires
                2 * (prod as nat) <= 2 * (q as nat) * (pj as nat) + pj,
        ;
        assert(q * pj <= prod + pj) by (nonlinear_arith)
            requires
                q <= prod / pj + 1,
                prod == pj * (prod / pj) + prod % pj,
                prod % pj >= 0,
                pj > 0,
        ;
    }
    (q * pj, pj)
}

/// `((edge as f64) * (1568.0 / long as f64)).round() as u32`, with the two
/// facts that make it a downscale: the result never exceeds the cap, and
/// never exceeds a non-zero input edge.
fn scaled_edge_exec(edge: u32, long: u32) -> (r: u32)
    requires
        long > UNIVERSAL_MAX_LONG_EDGE,
        edge <= long,
    ensures
        r == scaled_edge(edge as nat, long as nat),
        r <= UNIVERSAL_MAX_LONG_EDGE,
        edge >= 1 ==> r <= edge,
        2 * ((r as int) * (long as int)) <= 3136 * (edge as int) + long,
        3136 * (edge as int) <= 2 * ((r as int) * (long as int)) + long,
{
    let (m, k, p) = scale_factor_exec(long);
    let (numr, pj) = nearest_double_int_exec(edge, m);
    proof {
        lemma_pow2_unfold(k as nat);
        lemma_pow2_pos(k as nat);
        lemma_pow2_values();
        let x = edge as nat;
        let lg = long as nat;
        let a = 1568 * pow2(k as nat);
        assert(a == 1568 * p);
        let h = p / 2;
        assert(h * 2 == p);
        lemma_round_ties_even_error(a, lg);
        // 2 * m * long <= 3136 * p + long
        assert(2 * (m as nat) * lg <= 2 * a + lg);
        assert(2 * a == 3136 * p);
        assert(2 * (m as nat) * lg <= 3136 * p + lg);
        // p is large against long: 1568 * p >= 2^52 * long
        assert(p > 3 * lg + 1) by (nonlinear_arith)
            requires
                1568 * p >= pow2(52) * lg,
                pow2(52) == 0x10_0000_0000_0000,
                lg >= 1,
        ;
        // 2 * edge * m <= 3136 * p * edge / long + edge
        assert(2 * x * m * lg <= x * (3136 * p + lg)) by (nonlinear_arith)
            requires
                2 * (m as nat) * lg <= 3136 * p + lg,
                a == 1568 * p,
        ;
        assert(2 * (numr as nat) + p < 2 * 1569 * p) by (nonlinear_arith)
            requires
                2 * x * m * lg <= x * (3136 * p + lg),
                2 * numr <= 2 * (x * m) + pj,
                pj <= 2 * x + 1,
                x <= lg,
                lg > 0,
                p > 3 * lg + 1,
        ;
        if x >= 1 {
            assert(2 * (numr as nat) + p < 2 * (x + 1) * p) by (nonlinear_arith)
                requires
                    2 * x * m * lg <= x * (3136 * p + lg),
                    2 * numr <= 2 * (x * m) + pj,
                    pj <= 2 * x + 1,
                    x <= lg,
                    lg >= 1569,
                    p > 3 * lg + 1,
            ;
            assert(numr + h < (x + 1) * p) by (nonlinear_arith)
                requires
                    2 * (numr as nat) + p < 2 * (x + 1) * p,
                    h * 2 == p,
            ;
            lemma_div_below((numr + p / 2) as int, p as int, (x + 1) as int);
        }
        assert(numr + h < 1569 * p) by (nonlinear_arith)
            requires
                2 * (numr as nat) + p < 2 * 1569 * p,
                h * 2 == p,
        ;
        lemma_div_below((numr + p / 2) as int, p as int, 1569);
    }
    let r = (numr + p / 2) / p;
    proof {
        let x = edge as nat;
        let lg = long as nat;
        let n = numr as nat;
        let pn = p as nat;
        let rn = r as nat;
        lemma_pow2_values();
        lemma_round_ties_even_error(1568 * pow2(k as nat), lg);
        vstd::arithmetic::div_mod::lemma_fundamental_div_mod((n + pn / 2) as int, pn as int);
        assert(2 * rn * pn <= 2 * n + pn && 2 * n + pn < 2 * rn * pn + 2 * pn) by (nonlinear_arith)
            requires
                n + pn / 2 == pn * rn + (n + pn / 2) % pn,
                0 <= (n + pn / 2) % pn < pn,
                (pn / 2) * 2 == pn,
        ;
        assert(3 * lg * lg + lg < pn) by (nonlinear_arith)
            requires
                1568 * pn >= pow2(52) * lg,
                pow2(52) == 0x10_0000_0000_0000,
                lg < 0x1_0000_0000,
                lg >= 1,
        ;
        assert(x * lg + (pj as nat) * lg < pn) by (nonlinear_arith)
            requires
                3 * lg * lg + lg < pn,
                x <= lg,
                pj <= 2 * x + 1,
        ;
        assert(2 * (rn * lg) <= 3136 * x + lg) by (nonlinear_arith)
            requires
                2 * rn * pn <= 2 * n + pn,
                2 * n <= 2 * (x * (m as nat)) + pj,
                2 * (m as nat) * lg <= 2 * (1568 * pn) + lg,
                x * lg + (pj as nat) * lg < pn,
                pn > 0,
                lg > 0,
        ;
        assert(3136 * x <= 2 * (rn * lg) + lg) by (nonlinear_arith)
            requires
                2 * n + pn < 2 * rn * pn + 2 * pn,
                2 * (x * (m as nat)) <= 2 * n + pj,
                2 * (1568 * pn) <= 2 * (m as nat) * lg + lg,
                x * lg + (pj as nat) * lg < pn,
                pn > 0,
                lg > 0,
        ;
    }
    proof {
        assert((r as int) * (long as int) == (r as nat) * (long as nat));
    }
    r as u32
}

/// `out` is `edge` scaled by `1568 / long` to the nearest pixel: within half
/// a pixel of the exact proportional size, or 1 where that size is at most
/// half a pixel.
pub open spec fn proportional_edge(out: u32, edge: u32, long: u32) -> bool {
    let d = out as int * long as int - 1568 * edge as int;
    (2 * d <= long as int && -2 * d <= long as int) || (out == 1 && 3136 * edge as int <= long as int)
}

/// The aspect ratio `w / h` becomes `out_w / out_h` with a relative error
/// under 5%: `|w * out_h - h * out_w| < w * out_h / 20`.
pub open spec fn keeps_aspect_ratio(w: u32, h: u32, out_w: u32, out_h: u32) -> bool {
    let d = w as int * out_h as int - h as int * out_w as int;
    20 * d < w as int * out_h as int && -20 * d < w as int * out_h as int
}

/// Calculates the target dimensions for LLM input: the long edge is brought
/// down to [`UNIVERSAL_MAX_LONG_EDGE`] keeping the aspect ratio; images
/// within the cap are returned unchanged (never upscaled); a downscaled edge
/// is never below 1.
pub fn calculate_optimal_dimensions(width: u32, height: u32) -> (r: (u32, u32))
    ensures
        r == spec_optimal_dimensions(width, height),
        r.0 <= UNIVERSAL_MAX_LONG_EDGE,
        r.1 <= UNIVERSAL_MAX_LONG_EDGE,
        width >= 1 ==> r.0 <= width,
        height >= 1 ==> r.1 <= height,
        long_edge(width, height) > UNIVERSAL_MAX_LONG_EDGE ==> r.0 >= 1 && r.1 >= 1,
        long_edge(width, height) > UNIVERSAL_MAX_LONG_EDGE ==> proportional_edge(
            r.0,
            width,
            long_edge(width, height),
        ) && proportional_edge(r.1, height, long_edge(width, height)),
        100 <= width <= 10000 && 100 <= height <= 10000 ==> keeps_aspect_ratio(
            width,
            height,
            r.0,
            r.1,
        ),
{
    let long = if width >= height { width } else { height };
    if long <= UNIVERSAL_MAX_LONG_EDGE {
        proof {
            if 100 <= width <= 10000 && 100 <= height <= 10000 {
                assert(width as int * height as int - height as int * width as int == 0) by (nonlinear_arith);
                assert(width as int * height as int > 0) by (nonlinear_arith)
                    requires
                        width >= 100,
                        height >= 100,
                ;
            }
        }
        return (width, height);
    }
    let new_w = scaled_edge_exec(width, long);
    let new_h = scaled_edge_exec(height, long);
    let w = if new_w == 0 { 1 } else { new_w };
    let h = if new_h == 0 { 1 } else { new_h };
    proof {
        let lg = long as int;
        assert(proportional_edge(w, width, long)) by {
            if new_w == 0 {
                assert(2 * ((new_w as int) * lg) == 0) by (nonlinear_arith)
                    requires
                        new_w == 0,
                ;
            }
        }
        assert(proportional_edge(h, height, long)) by {
            if new_h == 0 {
                assert(2 * ((new_h as int) * lg) == 0) by (nonlinear_arith)
                    requires
                        new_h == 0,
                ;
            }
        }
        if 100 <= width <= 10000 && 100 <= height <= 10000 {
            assert(new_w >= 1 && new_h >= 1) by {
                assert(3136 * (width as int) > lg);
                assert(3136 * (height as int) > lg);
                if new_w == 0 {
                    assert(2 * ((new_w as int) * lg) == 0) by (nonlinear_arith)
                    requires
                        new_w == 0,
                ;
                }
                if new_h == 0 {
                    assert(2 * ((new_h as int) * lg) == 0) by (nonlinear_arith)
                    requires
                        new_h == 0,
                ;
                }
            }
            lemma_aspect_from_edges(width as int, height as int, lg, w as int, h as int);
        }
    }
    (w, h)
}

} // verus!
