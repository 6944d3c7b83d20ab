//! The optimal swap solver.
//!
//! Given the contract-held balances of the target pool's two assets and the
//! pool's reserves, the solver computes how much of the asset in excess must
//! be traded through the pool so that afterwards the held balances stand in
//! the reserve ratio. Trading `s` units along a constant-product curve with a
//! proportional fee of `fee_bps` basis points and then demanding the reserve
//! ratio yields a quadratic in `s`:
//!
//! `k*s^2 + r_off*(10000 + k)*s = 10000*r_off*(b_off*r_ask - b_ask*r_off) / (r_ask + b_ask)`
//!
//! with `k = 10000 - fee_bps`. The solver returns the largest integer `s`
//! that does not overshoot this balance point, clamped to the available
//! balance. All arithmetic is 128-bit with explicit overflow checks; leaving
//! that domain is fatal.

use vstd::prelude::*;

use crate::error::ContractError;

verus! {

/// How much more of the offered asset the contract holds than the reserve
/// ratio warrants, in cross-multiplied units. The solver only runs when this
/// is positive.
pub open spec fn spec_excess(b_off: int, b_ask: int, r_off: int, r_ask: int) -> int {
    b_off * r_ask - b_ask * r_off
}

/// The right-hand side of the balancing quadratic (rounded towards zero, as
/// the implementation computes it).
pub open spec fn spec_budget(b_off: int, b_ask: int, r_off: int, r_ask: int) -> int {
    (10000 * r_off * spec_excess(b_off, b_ask, r_off, r_ask)) / (r_ask + b_ask)
}

/// The linear coefficient of the balancing quadratic.
pub open spec fn spec_linear_coeff(r_off: int, fee_bps: int) -> int {
    r_off * (20000 - fee_bps)
}

/// The left-hand side of the balancing quadratic at swap size `s`.
pub open spec fn spec_quad(k: int, p: int, s: int) -> int {
    k * s * s + p * s
}

/// A swap of `s` units does not overshoot the balance point.
pub open spec fn spec_swap_within_budget(
    b_off: int,
    b_ask: int,
    r_off: int,
    r_ask: int,
    fee_bps: int,
    s: int,
) -> bool {
    spec_quad(10000 - fee_bps, spec_linear_coeff(r_off, fee_bps), s) <= spec_budget(
        b_off,
        b_ask,
        r_off,
        r_ask,
    )
}

/// Every intermediate of the solver stays within 128 bits.
pub open spec fn spec_solver_fits(
    b_off: int,
    b_ask: int,
    r_off: int,
    r_ask: int,
    fee_bps: int,
) -> bool {
    let k = 10000 - fee_bps;
    let c = spec_excess(b_off, b_ask, r_off, r_ask);
    let cq = spec_budget(b_off, b_ask, r_off, r_ask);
    let p = spec_linear_coeff(r_off, fee_bps);
    &&& b_off * r_ask <= u128::MAX
    &&& 10000 * r_off <= u128::MAX
    &&& 10000 * r_off * c <= u128::MAX
    &&& r_ask + b_ask <= u128::MAX
    &&& p <= u128::MAX
    &&& (k > 0 ==> p * p + 4 * k * cq <= u128::MAX)
}

/// The largest integer whose square does not exceed `x`.
pub fn isqrt_u128(x: u128) -> (r: u128)
    ensures
        r * r <= x,
        x < (r + 1) * (r + 1),
{
    let mut lo: u128 = 0;
    let mut hi: u128 = 0x1_0000_0000_0000_0000;
    proof {
        assert(hi * hi > u128::MAX) by (nonlinear_arith)
            requires
                hi == 0x1_0000_0000_0000_0000u128,
        ;
    }
    while lo + 1 < hi
        invariant
            lo < hi,
            hi <= 0x1_0000_0000_0000_0000,
            lo * lo <= x,
            x < hi * hi,
        decreases hi - lo,
    {
        let mid = lo + (hi - lo) / 2;
        proof {
            assert(mid * mid <= u128::MAX) by (nonlinear_arith)
                requires
                    mid < 0x1_0000_0000_0000_0000,
            ;
        }
        if mid * mid <= x {
            lo = mid;
        } else {
            hi = mid;
        }
    }
    lo
}

/// From `a^2 <= d < (b+1)^2` and both non-negative it follows that `a <= b`.
proof fn lemma_root_ordered(a: int, b: int, d: int)
    by (nonlinear_arith)
    requires
        0 <= a,
        0 <= b,
        a * a <= d,
        d < (b + 1) * (b + 1),
    ensures
        a <= b,
{
}

/// A swap of `s` units stays within budget when `2*k*s + p` stays below the
/// root of the discriminant.
proof fn lemma_within_budget(k: int, p: int, cq: int, q: int, s: int)
    by (nonlinear_arith)
    requires
        1 <= k,
        0 <= p,
        0 <= s,
        0 <= q,
        2 * k * s + p <= q,
        q * q <= p * p + 4 * k * cq,
    ensures
        k * s * s + p * s <= cq,
{
}

/// A swap of `s + 1` units overshoots the budget when `2*k*(s+1) + p` lies
/// above the root of the discriminant.
proof fn lemma_overshoots_budget(k: int, p: int, cq: int, q: int, s: int)
    by (nonlinear_arith)
    requires
        1 <= k,
        0 <= p,
        0 <= s,
        0 <= q,
        q + 1 <= 2 * k * (s + 1) + p,
        p * p + 4 * k * cq < (q + 1) * (q + 1),
    ensures
        k * (s + 1) * (s + 1) + p * (s + 1) > cq,
{
}

/// The balancing quadratic grows with the swap size.
proof fn lemma_quad_monotonic(k: int, p: int, a: int, b: int)
    by (nonlinear_arith)
    requires
        0 <= k,
        0 <= p,
        0 <= a <= b,
    ensures
        k * a * a + p * a <= k * b * b + p * b,
{
}

/// The contract of [`compute_swap_amount`] pins its result: there is only
/// one swap size that stays within budget, overshoots at the next unit
/// unless it equals the offered balance, and never exceeds that balance.
pub proof fn lemma_swap_amount_unique(
    b_off: int,
    b_ask: int,
    r_off: int,
    r_ask: int,
    fee_bps: int,
    s1: int,
    s2: int,
)
    requires
        0 <= fee_bps <= 10000,
        0 <= s1 <= b_off,
        0 <= s2 <= b_off,
        0 <= r_off,
        spec_swap_within_budget(b_off, b_ask, r_off, r_ask, fee_bps, s1),
        spec_swap_within_budget(b_off, b_ask, r_off, r_ask, fee_bps, s2),
        s1 < b_off ==> !spec_swap_within_budget(b_off, b_ask, r_off, r_ask, fee_bps, s1 + 1),
        s2 < b_off ==> !spec_swap_within_budget(b_off, b_ask, r_off, r_ask, fee_bps, s2 + 1),
    ensures
        s1 == s2,
{
    let k = 10000 - fee_bps;
    let p = spec_linear_coeff(r_off, fee_bps);
    assert(p >= 0) by (nonlinear_arith)
        requires
            p == r_off * (20000 - fee_bps),
            r_off >= 0,
            fee_bps <= 10000,
    ;
    if s1 < s2 {
        lemma_quad_monotonic(k, p, s1 + 1, s2);
    }
    if s2 < s1 {
        lemma_quad_monotonic(k, p, s2 + 1, s1);
    }
}

/// The swap size that brings the held balances to the reserve ratio.
///
/// `b_off` and `b_ask` are the held balances of the offered and the asked
/// asset; `r_off` and `r_ask` the pool's reserves of the same two assets;
/// `fee_bps` the pool's trading fee in basis points. The offered asset must
/// be in excess of the reserve ratio.
///
/// Returns the largest swap size that does not overshoot the balance point,
/// clamped to the available balance, or `ArithmeticOverflow` exactly when an
/// intermediate leaves the 128-bit domain.
pub fn compute_swap_amount(
    b_off: u128,
    b_ask: u128,
    r_off: u128,
    r_ask: u128,
    fee_bps: u64,
) -> (r: Result<u128, ContractError>)
    requires
        1 <= r_off,
        1 <= r_ask,
        fee_bps <= 10000,
        b_ask * r_off < b_off * r_ask,
    ensures
        r is Ok <==> spec_solver_fits(b_off as int, b_ask as int, r_off as int, r_ask as int, fee_bps as int),
        r matches Err(e) ==> e == ContractError::ArithmeticOverflow,
        r matches Ok(s) ==> {
            &&& s <= b_off
            &&& spec_swap_within_budget(b_off as int, b_ask as int, r_off as int, r_ask as int, fee_bps as int, s as int)
            &&& s < b_off ==> !spec_swap_within_budget(b_off as int, b_ask as int, r_off as int, r_ask as int, fee_bps as int, s as int + 1)
        },
{
    let k: u128 = (10000 - fee_bps) as u128;
    let x1 = match b_off.checked_mul(r_ask) {
        Some(v) => v,
        None => {
            return Err(ContractError::ArithmeticOverflow);
        },
    };
    let x2 = b_ask * r_off;
    let c = x1 - x2;
    let y1 = match 10000u128.checked_mul(r_off) {
        Some(v) => v,
        None => {
            return Err(ContractError::ArithmeticOverflow);
        },
    };
    let y2 = match y1.checked_mul(c) {
        Some(v) => v,
        None => {
            return Err(ContractError::ArithmeticOverflow);
        },
    };
    let den = match r_ask.checked_add(b_ask) {
        Some(v) => v,
        None => {
            return Err(ContractError::ArithmeticOverflow);
        },
    };
    let cq = y2 / den;
    proof {
        assert(y2 / den >= 0 && y2 / den <= y2) by (nonlinear_arith)
            requires
                y2 >= 0,
                den >= 1,
        ;
    }
    let p = match r_off.checked_mul(10000 + k) {
        Some(v) => v,
        None => {
            return Err(ContractError::ArithmeticOverflow);
        },
    };
    proof {
        assert(p >= 10000) by (nonlinear_arith)
            requires
                r_off >= 1,
                p == r_off * (10000 + k),
                k <= 10000,
        ;
    }
    let ghost ki = k as int;
    let ghost pi = p as int;
    let ghost cqi = cq as int;
    let s_raw: u128;
    if k == 0 {
        s_raw = cq / p;
        proof {
            vstd::arithmetic::div_mod::lemma_fundamental_div_mod(cqi, pi);
            assert(spec_quad(ki, pi, s_raw as int) <= cqi && spec_quad(ki, pi, s_raw as int + 1)
                > cqi) by (nonlinear_arith)
                requires
                    ki == 0,
                    pi >= 1,
                    cqi >= 0,
                    cqi == pi * (cqi / pi) + cqi % pi,
                    0 <= cqi % pi < pi,
                    s_raw == cqi / pi,
            ;
        }
    } else {
        let p2 = match p.checked_mul(p) {
            Some(v) => v,
            None => {
                proof {
                    assert(4 * ki * cqi >= 0) by (nonlinear_arith)
                        requires
                            ki >= 0,
                            cqi >= 0,
                    ;
                }
                return Err(ContractError::ArithmeticOverflow);
            },
        };
        let kcq = match (4 * k).checked_mul(cq) {
            Some(v) => v,
            None => {
                return Err(ContractError::ArithmeticOverflow);
            },
        };
        let disc = match p2.checked_add(kcq) {
            Some(v) => v,
            None => {
                return Err(ContractError::ArithmeticOverflow);
            },
        };
        let q = isqrt_u128(disc);
        proof {
            lemma_root_ordered(pi, q as int, disc as int);
        }
        s_raw = (q - p) / (2 * k);
        proof {
            let d = q as int - pi;
            let s = s_raw as int;
            vstd::arithmetic::div_mod::lemma_fundamental_div_mod(d, 2 * ki);
            assert(2 * ki * s <= d && d < 2 * ki * (s + 1)) by (nonlinear_arith)
                requires
                    ki >= 1,
                    d >= 0,
                    d == (2 * ki) * (d / (2 * ki)) + d % (2 * ki),
                    0 <= d % (2 * ki) < 2 * ki,
                    s == d / (2 * ki),
            ;
            lemma_within_budget(ki, pi, cqi, q as int, s);
            lemma_overshoots_budget(ki, pi, cqi, q as int, s);
        }
    }
    proof {
        assert(spec_quad(ki, pi, s_raw as int) <= cqi);
        assert(spec_quad(ki, pi, s_raw as int + 1) > cqi);
    }
    if s_raw > b_off {
        proof {
            lemma_quad_monotonic(ki, pi, b_off as int, s_raw as int);
        }
        Ok(b_off)
    } else {
        Ok(s_raw)
    }
}

} // verus!
