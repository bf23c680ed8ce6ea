//! What repeated steps add up to: the delay never leaves the pattern's bounds,
//! and from power-on it traces a triangle wave, whose every point is given
//! here in closed form.

use crate::pattern::{advance, after, at_turn, in_bounds, initial, target, Beat, Pattern};
use vstd::arithmetic::div_mod::{
    lemma_fundamental_div_mod,
    lemma_fundamental_div_mod_converse,
    lemma_mod_bound,
};
use vstd::prelude::*;

verus! {

/// Some number of steps from power-on leads to `b`.
pub open spec fn reachable(p: Pattern, b: Beat) -> bool {
    exists|n: nat| b == after(p, initial(p), n)
}

/// The number of steps from one bound to the other: the distance between the
/// bounds divided by the step, rounded up.
pub open spec fn half_period(p: Pattern) -> int
    recommends
        p.step_ms > 0,
{
    (p.max_delay_ms - p.min_delay_ms + p.step_ms - 1) / (p.step_ms as int)
}

/// The number of steps after which the pattern repeats.
pub open spec fn period(p: Pattern) -> int
    recommends
        p.step_ms > 0,
{
    2 * half_period(p)
}

/// The beat `k` steps into a period, for `k` from 0 up to the period: down
/// from the upper bound in whole steps for the first half, then up from the
/// lower bound in whole steps for the second.
pub open spec fn ramp(p: Pattern, k: int) -> Beat {
    if k < half_period(p) {
        Beat { delay_ms: p.max_delay_ms - k * p.step_ms, accelerating: true }
    } else {
        Beat { delay_ms: p.min_delay_ms + (k - half_period(p)) * p.step_ms, accelerating: false }
    }
}

/// The beat `n` steps after power-on, in closed form.
pub open spec fn wave(p: Pattern, n: nat) -> Beat
    recommends
        p.step_ms > 0,
{
    ramp(p, n as int % period(p))
}

/// A step keeps the delay between the bounds.
pub proof fn lemma_advance_in_bounds(p: Pattern, b: Beat)
    requires
        p.wf(),
        in_bounds(p, b),
    ensures
        in_bounds(p, advance(p, b)),
{
}

/// The direction changes in a step exactly when that step lands on the bound
/// the delay was moving towards.
pub proof fn lemma_flip_iff_turn(p: Pattern, b: Beat)
    requires
        p.wf(),
        in_bounds(p, b),
    ensures
        advance(p, b).accelerating != b.accelerating <==> at_turn(p, b),
        advance(p, b).delay_ms == target(p, b) <==> at_turn(p, b),
{
}

/// Any number of steps keeps the delay between the bounds.
pub proof fn lemma_after_in_bounds(p: Pattern, b: Beat, n: nat)
    requires
        p.wf(),
        in_bounds(p, b),
    ensures
        in_bounds(p, after(p, b, n)),
    decreases n,
{
    if n > 0 {
        lemma_after_in_bounds(p, b, (n - 1) as nat);
    }
}

/// In every state that can be reached from power-on the delay lies between
/// the bounds.
pub proof fn lemma_reachable_in_bounds(p: Pattern, b: Beat)
    requires
        p.wf(),
        reachable(p, b),
    ensures
        in_bounds(p, b),
{
    let n = choose|n: nat| b == after(p, initial(p), n);
    lemma_after_in_bounds(p, initial(p), n);
}

/// The half period is the least number of whole steps that covers the
/// distance between the bounds.
pub proof fn lemma_half_period_covers(p: Pattern)
    requires
        p.wf(),
        p.step_ms > 0,
    ensures
        half_period(p) >= 1,
        (half_period(p) - 1) * p.step_ms < p.max_delay_ms - p.min_delay_ms,
        p.max_delay_ms - p.min_delay_ms <= half_period(p) * p.step_ms,
{
    let s = p.step_ms as int;
    let x = p.max_delay_ms - p.min_delay_ms + s - 1;
    let h = half_period(p);
    lemma_fundamental_div_mod(x, s);
    lemma_mod_bound(x, s);
    assert(x == s * h + x % s);
    assert(s * h == h * s) by (nonlinear_arith);
    assert((h - 1) * s == h * s - s) by (nonlinear_arith);
    assert(h >= 1) by (nonlinear_arith)
        requires
            h * s >= 1,
            s > 0,
    ;
}

/// The remainder of a successor: one more than the remainder before it, or
/// zero where that reaches the modulus.
proof fn lemma_mod_succ(n: int, m: int)
    requires
        n >= 0,
        m > 0,
    ensures
        (n + 1) % m == if n % m + 1 == m {
            0
        } else {
            n % m + 1
        },
{
    let q = n / m;
    let k = n % m;
    lemma_fundamental_div_mod(n, m);
    lemma_mod_bound(n, m);
    assert(m * q == q * m) by (nonlinear_arith);
    if k + 1 == m {
        assert(n + 1 == (q + 1) * m + 0) by (nonlinear_arith)
            requires
                n == q * m + k,
                k + 1 == m,
        ;
        lemma_fundamental_div_mod_converse(n + 1, m, q + 1, 0);
    } else {
        lemma_fundamental_div_mod_converse(n + 1, m, q, k + 1);
    }
}

/// Within a period, a step leads from one point of the ramp to the next, and
/// from the last point back to the first.
proof fn lemma_ramp_step(p: Pattern, k: int)
    requires
        p.wf(),
        p.step_ms > 0,
        0 <= k < period(p),
    ensures
        advance(p, ramp(p, k)) == ramp(
            p,
            if k + 1 == period(p) {
                0
            } else {
                k + 1
            },
        ),
{
    let h = half_period(p);
    let s = p.step_ms as int;
    let d = p.max_delay_ms - p.min_delay_ms;
    lemma_half_period_covers(p);
    if k < h {
        // Still going down: `k + 1` steps cover the distance only at `k + 1 == h`.
        assert((k + 1) * s == k * s + s) by (nonlinear_arith);
        if k + 1 < h {
            assert((k + 1) * s <= (h - 1) * s) by (nonlinear_arith)
                requires
                    k + 1 <= h - 1,
                    s > 0,
            ;
        } else {
            assert((h - h) * s == 0) by (nonlinear_arith);
        }
    } else {
        // Going up, `k - h` steps above the lower bound.
        let j = k - h;
        assert((j + 1) * s == j * s + s) by (nonlinear_arith);
        if k + 1 < 2 * h {
            assert((j + 1) * s <= (h - 1) * s) by (nonlinear_arith)
                requires
                    j + 1 <= h - 1,
                    s > 0,
            ;
        } else {
            assert(0 * s == 0) by (nonlinear_arith);
        }
    }
}

/// From power-on the steps trace the triangle wave: down from the upper bound
/// in whole steps, onto the lower bound with the last step of the descent,
/// up again in whole steps, onto the upper bound with the last step of the
/// ascent, and so on.
pub proof fn lemma_wave(p: Pattern, n: nat)
    requires
        p.wf(),
        p.step_ms > 0,
    ensures
        after(p, initial(p), n) == wave(p, n),
    decreases n,
{
    let m = period(p);
    lemma_half_period_covers(p);
    if n == 0 {
        assert(0int % m == 0) by {
            lemma_fundamental_div_mod_converse(0, m, 0, 0);
        }
        assert(0 * (p.step_ms as int) == 0) by (nonlinear_arith);
    } else {
        let prev = (n - 1) as nat;
        lemma_wave(p, prev);
        lemma_mod_bound(prev as int, m);
        lemma_mod_succ(prev as int, m);
        lemma_ramp_step(p, prev as int % m);
    }
}

/// The pattern repeats after twice the half period.
pub proof fn lemma_periodic(p: Pattern, n: nat)
    requires
        p.wf(),
        p.step_ms > 0,
    ensures
        period(p) > 0,
        after(p, initial(p), (n + period(p)) as nat) == after(p, initial(p), n),
{
    let m = period(p);
    lemma_half_period_covers(p);
    lemma_wave(p, n);
    lemma_wave(p, (n + m) as nat);
    let q = n as int / m;
    let k = n as int % m;
    lemma_fundamental_div_mod(n as int, m);
    lemma_mod_bound(n as int, m);
    assert(n + m == (q + 1) * m + k) by (nonlinear_arith)
        requires
            n == m * q + k,
    ;
    lemma_fundamental_div_mod_converse(n + m, m, q + 1, k);
}

} // verus!
