//! Motion synthesis: turns a relative target displacement into an
//! ordered sequence of small relative steps whose displacements sum to
//! the target exactly. Progress follows a quadratic ease-in/ease-out
//! curve and a random lateral curvature bows the path, both computed in
//! milli-unit fixed point. Each step carries a randomized pause, slower
//! near the ends of the path than in its middle.

use vstd::prelude::*;
use vstd::arithmetic::div_mod::{lemma_fundamental_div_mod, lemma_remainder_upper, lemma_remainder_lower};
use crate::config::MOUSE_RANGE_LIMIT;
use crate::sampling::{random_u64_in, random_i64_in};

verus! {

/// One planned step: a relative cursor displacement followed by a pause.
/// A step with a zero displacement stands for a pause alone.
#[derive(Clone, Copy, Debug)]
pub struct MotionStep {
    pub dx: i32,
    pub dy: i32,
    pub delay_ms: u64,
}

/// A whole planned path: the eased, curved steps, then one corrective
/// displacement that lands the path exactly on target despite the
/// integer truncation of every step.
#[derive(Clone, Debug)]
pub struct MotionPlan {
    pub steps: Vec<MotionStep>,
    pub final_dx: i32,
    pub final_dy: i32,
}

/// Sum of the horizontal displacements of a step sequence.
pub open spec fn sum_dx(steps: Seq<MotionStep>) -> int
    decreases steps.len(),
{
    if steps.len() == 0 {
        0
    } else {
        sum_dx(steps.drop_last()) + steps.last().dx
    }
}

/// Sum of the vertical displacements of a step sequence.
pub open spec fn sum_dy(steps: Seq<MotionStep>) -> int
    decreases steps.len(),
{
    if steps.len() == 0 {
        0
    } else {
        sum_dy(steps.drop_last()) + steps.last().dy
    }
}

/// Total horizontal displacement of a plan: every step plus the final
/// correction.
pub open spec fn plan_total_dx(p: MotionPlan) -> int {
    sum_dx(p.steps@) + p.final_dx
}

/// Total vertical displacement of a plan.
pub open spec fn plan_total_dy(p: MotionPlan) -> int {
    sum_dy(p.steps@) + p.final_dy
}

proof fn lemma_sum_push(steps: Seq<MotionStep>, s: MotionStep)
    ensures
        sum_dx(steps.push(s)) == sum_dx(steps) + s.dx,
        sum_dy(steps.push(s)) == sum_dy(steps) + s.dy,
{
    assert(steps.push(s).drop_last() =~= steps);
    assert(steps.push(s).last() == s);
}

/// The integer square root: the largest `r` with `r * r <= n`.
pub open spec fn isqrt_spec(n: int) -> int
    decreases n,
{
    if n <= 0 {
        0
    } else {
        let r = isqrt_spec(n - 1);
        if (r + 1) * (r + 1) <= n {
            r + 1
        } else {
            r
        }
    }
}

pub proof fn lemma_isqrt_spec_bounds(n: int)
    requires
        n >= 0,
    ensures
        0 <= isqrt_spec(n),
        isqrt_spec(n) * isqrt_spec(n) <= n,
        n < (isqrt_spec(n) + 1) * (isqrt_spec(n) + 1),
    decreases n,
{
    if n > 0 {
        lemma_isqrt_spec_bounds(n - 1);
        let r = isqrt_spec(n - 1);
        if (r + 1) * (r + 1) <= n {
            assert(n <= (r + 1) * (r + 1)) by {
                assert(n - 1 < (r + 1) * (r + 1));
            }
            assert((r + 1 + 1) * (r + 1 + 1) > (r + 1) * (r + 1)) by (nonlinear_arith)
                requires r >= 0;
        }
    }
}

pub proof fn lemma_isqrt_unique(n: int, r: int)
    requires
        n >= 0,
        r >= 0,
        r * r <= n,
        n < (r + 1) * (r + 1),
    ensures
        r == isqrt_spec(n),
{
    lemma_isqrt_spec_bounds(n);
    let s = isqrt_spec(n);
    if r < s {
        assert((r + 1) * (r + 1) <= s * s) by (nonlinear_arith)
            requires 0 <= r + 1 <= s;
    }
    if s < r {
        assert((s + 1) * (s + 1) <= r * r) by (nonlinear_arith)
            requires 0 <= s + 1 <= r;
    }
}

/// How many eased steps a path to `(dx, dy)` gets: two thirds of the
/// Euclidean distance, clamped to `[15, 80]`, so short moves still step
/// smoothly and long moves stay bounded.
pub open spec fn step_count_spec(dx: int, dy: int) -> int {
    let d = isqrt_spec(dx * dx + dy * dy);
    let raw = (2 * d) / 3;
    if raw < 15 {
        15
    } else if raw > 80 {
        80
    } else {
        raw
    }
}

fn isqrt_small(n: u64) -> (r: u64)
    requires
        n < 14400,
    ensures
        r as int == isqrt_spec(n as int),
        r * r <= n,
        r <= 120,
{
    let mut r: u64 = 0;
    loop
        invariant
            n < 14400,
            r * r <= n,
            r <= 120,
        ensures
            r * r <= n < (r + 1) * (r + 1),
            r <= 120,
        decreases n - r * r,
    {
        let rp = r + 1;
        proof {
            assert(rp * rp <= 121 * 121) by (nonlinear_arith)
                requires rp <= 121;
        }
        let sq = rp * rp;
        if sq <= n {
            proof {
                assert(rp <= 119) by (nonlinear_arith)
                    requires rp * rp < 14400, rp >= 0;
                assert(rp * rp > r * r) by (nonlinear_arith)
                    requires r >= 0, rp == r + 1;
            }
            r = rp;
        } else {
            break;
        }
    }
    proof {
        lemma_isqrt_unique(n as int, r as int);
    }
    r
}

/// The number of steps of a path to `(dx, dy)`, always within `[15, 80]`.
pub fn step_count(dx: i32, dy: i32) -> (n: usize)
    requires
        -MOUSE_RANGE_LIMIT <= dx <= MOUSE_RANGE_LIMIT,
        -MOUSE_RANGE_LIMIT <= dy <= MOUSE_RANGE_LIMIT,
    ensures
        n as int == step_count_spec(dx as int, dy as int),
        15 <= n <= 80,
{
    let dx64 = dx as i64;
    let dy64 = dy as i64;
    proof {
        assert(dx64 * dx64 <= 1_000_000_000_000 && dx64 * dx64 >= 0) by (nonlinear_arith)
            requires -1_000_000 <= dx64 <= 1_000_000;
        assert(dy64 * dy64 <= 1_000_000_000_000 && dy64 * dy64 >= 0) by (nonlinear_arith)
            requires -1_000_000 <= dy64 <= 1_000_000;
    }
    let sq64: i64 = dx64 * dx64 + dy64 * dy64;
    let sq: u64 = sq64 as u64;
    if sq >= 14400 {
        proof {
            lemma_isqrt_spec_bounds(sq as int);
            let d = isqrt_spec(sq as int);
            if d < 120 {
                assert((d + 1) * (d + 1) <= 120 * 120) by (nonlinear_arith)
                    requires 0 <= d + 1 <= 120;
            }
            assert((2 * d) / 3 >= 80) by (nonlinear_arith)
                requires d >= 120;
        }
        80
    } else {
        let d = isqrt_small(sq);
        let raw = (2 * d) / 3;
        if raw < 15 {
            15
        } else if raw > 80 {
            80
        } else {
            raw as usize
        }
    }
}

/// Division by 1000 truncated toward zero: the rounding a cast from a
/// real-valued ratio to integer device units performs.
fn div_trunc_1000(a: i64) -> (r: i64)
    requires
        -400_000_000_000 <= a <= 400_000_000_000,
    ensures
        a >= 0 ==> a - 999 <= r * 1000 <= a,
        a < 0 ==> a <= r * 1000 <= a + 999,
{
    if a >= 0 {
        let q = (a as u64) / 1000;
        proof {
            lemma_fundamental_div_mod(a as int, 1000);
            lemma_remainder_upper(a as int, 1000);
            lemma_remainder_lower(a as int, 1000);
        }
        q as i64
    } else {
        let m = (-a) as u64;
        let q = m / 1000;
        proof {
            lemma_fundamental_div_mod(m as int, 1000);
            lemma_remainder_upper(m as int, 1000);
            lemma_remainder_lower(m as int, 1000);
        }
        -(q as i64)
    }
}

/// Plans a path to the relative target `(target_dx, target_dy)`.
///
/// The step displacements and the final correction sum to the target
/// exactly; the step count follows `step_count_spec`; and every step's
/// pause lies in `[1, 5]` milliseconds. The lateral curvature factor is
/// drawn fresh on every invocation, so two plans for one target may
/// follow different paths while both land exactly on target.
pub fn plan_motion(target_dx: i32, target_dy: i32) -> (p: MotionPlan)
    requires
        -MOUSE_RANGE_LIMIT <= target_dx <= MOUSE_RANGE_LIMIT,
        -MOUSE_RANGE_LIMIT <= target_dy <= MOUSE_RANGE_LIMIT,
    ensures
        p.steps@.len() == step_count_spec(target_dx as int, target_dy as int),
        15 <= p.steps@.len() <= 80,
        plan_total_dx(p) == target_dx as int,
        plan_total_dy(p) == target_dy as int,
        forall|k: int| 0 <= k < p.steps@.len() ==> 1 <= (#[trigger] p.steps@[k]).delay_ms <= 5,
{
    let n = step_count(target_dx, target_dy);
    let cf = random_i64_in(-300, 300);
    let dx64 = target_dx as i64;
    let dy64 = target_dy as i64;
    let mut steps: Vec<MotionStep> = Vec::new();
    let mut cur_x: i64 = 0;
    let mut cur_y: i64 = 0;
    let mut ex: i64 = 0;
    let mut ey: i64 = 0;
    let mut i: usize = 0;
    while i < n
        invariant
            15 <= n <= 80,
            i <= n,
            -300 <= cf <= 300,
            dx64 == target_dx as int,
            dy64 == target_dy as int,
            -1_000_000 <= dx64 <= 1_000_000,
            -1_000_000 <= dy64 <= 1_000_000,
            steps@.len() == i,
            sum_dx(steps@) == ex as int,
            sum_dy(steps@) == ey as int,
            -1_300_000_000 <= cur_x <= 1_300_000_000,
            -1_300_000_000 <= cur_y <= 1_300_000_000,
            -1000 * (i as int) <= ex * 1000 - cur_x <= 1000 * (i as int),
            -1000 * (i as int) <= ey * 1000 - cur_y <= 1000 * (i as int),
            forall|k: int| 0 <= k < steps@.len() ==> 1 <= (#[trigger] steps@[k]).delay_ms <= 5,
        decreases n - i,
    {
        let iu = i as u64;
        let nu = n as u64;
        proof {
            assert(225 <= nu * nu <= 6400) by (nonlinear_arith)
                requires 15 <= nu <= 80;
            assert(0 <= 2000 * iu * iu <= 13_000_000) by (nonlinear_arith)
                requires 0 <= iu <= 80;
            assert(0 <= 4000 * iu * (nu - iu) <= 26_000_000) by (nonlinear_arith)
                requires 0 <= iu <= nu <= 80;
            assert(4000 * iu * (nu - iu) <= 1000 * (nu * nu)) by (nonlinear_arith)
                requires 0 <= iu <= nu;
            assert((4000 * iu * (nu - iu)) / (nu * nu) <= 1000) by (nonlinear_arith)
                requires
                    nu * nu >= 1,
                    0 <= 4000 * iu * (nu - iu),
                    4000 * iu * (nu - iu) <= 1000 * (nu * nu);
        }
        let eased: u64 = if 2 * iu < nu {
            proof {
                assert(2000 * iu * iu <= 500 * (nu * nu)) by (nonlinear_arith)
                    requires 0 <= 2 * iu <= nu;
                assert((2000 * iu * iu) / (nu * nu) <= 500) by (nonlinear_arith)
                    requires
                        nu * nu >= 1,
                        0 <= 2000 * iu * iu,
                        2000 * iu * iu <= 500 * (nu * nu);
            }
            (2000 * iu * iu) / (nu * nu)
        } else {
            let m = nu - iu;
            proof {
                assert(0 <= 2000 * m * m <= 13_000_000) by (nonlinear_arith)
                    requires 0 <= m <= 80;
                assert(2000 * m * m <= 500 * (nu * nu)) by (nonlinear_arith)
                    requires 0 <= 2 * m <= nu;
                assert((2000 * m * m) / (nu * nu) <= 500) by (nonlinear_arith)
                    requires
                        nu * nu >= 1,
                        0 <= 2000 * m * m,
                        2000 * m * m <= 500 * (nu * nu);
            }
            1000 - (2000 * m * m) / (nu * nu)
        };
        let prof: u64 = (4000 * iu * (nu - iu)) / (nu * nu);
        let e64 = eased as i64;
        let p64 = prof as i64;
        proof {
            assert(-1_000_000_000 <= dx64 * e64 <= 1_000_000_000) by (nonlinear_arith)
                requires -1_000_000 <= dx64 <= 1_000_000, 0 <= e64 <= 1000;
            assert(-1_000_000_000 <= dy64 * e64 <= 1_000_000_000) by (nonlinear_arith)
                requires -1_000_000 <= dy64 <= 1_000_000, 0 <= e64 <= 1000;
            assert(-1_000_000_000 <= (-dy64) * p64 <= 1_000_000_000) by (nonlinear_arith)
                requires -1_000_000 <= dy64 <= 1_000_000, 0 <= p64 <= 1000;
            assert(-1_000_000_000 <= dx64 * p64 <= 1_000_000_000) by (nonlinear_arith)
                requires -1_000_000 <= dx64 <= 1_000_000, 0 <= p64 <= 1000;
            assert(-300_000_000_000 <= (-dy64) * p64 * cf <= 300_000_000_000) by (nonlinear_arith)
                requires -1_000_000_000 <= (-dy64) * p64 <= 1_000_000_000, -300 <= cf <= 300;
            assert(-300_000_000_000 <= dx64 * p64 * cf <= 300_000_000_000) by (nonlinear_arith)
                requires -1_000_000_000 <= dx64 * p64 <= 1_000_000_000, -300 <= cf <= 300;
        }
        let perp_x = div_trunc_1000((-dy64) * p64 * cf);
        let perp_y = div_trunc_1000(dx64 * p64 * cf);
        let fin_x: i64 = dx64 * e64 + perp_x;
        let fin_y: i64 = dy64 * e64 + perp_y;
        let ddx = div_trunc_1000(fin_x - cur_x);
        let ddy = div_trunc_1000(fin_y - cur_y);
        if ddx != 0 || ddy != 0 {
            ex = ex + ddx;
            ey = ey + ddy;
            cur_x = fin_x;
            cur_y = fin_y;
        }
        let base = random_u64_in(1, 2);
        let jitter = random_u64_in(0, 1);
        let slow: u64 = if i < n / 4 || i > 3 * n / 4 {
            2
        } else {
            0
        };
        let delay = base + jitter + slow;
        let ghost pre = steps@;
        let step = MotionStep { dx: ddx as i32, dy: ddy as i32, delay_ms: delay };
        steps.push(step);
        proof {
            lemma_sum_push(pre, step);
        }
        i = i + 1;
    }
    let fx = dx64 - ex;
    let fy = dy64 - ey;
    MotionPlan { steps, final_dx: fx as i32, final_dy: fy as i32 }
}

} // verus!
