use lupin::motion::{plan_motion, step_count, MotionPlan};

fn totals(p: &MotionPlan) -> (i64, i64) {
    let mut x = 0i64;
    let mut y = 0i64;
    for s in &p.steps {
        x += s.dx as i64;
        y += s.dy as i64;
    }
    (x + p.final_dx as i64, y + p.final_dy as i64)
}

#[test]
fn motion_lands_exactly_on_target() {
    for &(dx, dy) in &[(0, 0), (5, -3), (-5, 5), (1, 0), (0, -1), (120, 99), (-1000, 1000)] {
        for _ in 0..10 {
            let p = plan_motion(dx, dy);
            let (tx, ty) = totals(&p);
            assert_eq!((tx, ty), (dx as i64, dy as i64), "target ({dx}, {dy})");
        }
    }
}

#[test]
fn motion_step_count_is_bounded() {
    for &(dx, dy) in &[(0, 0), (5, 5), (200, 0), (-1000, 1000), (1_000_000, -1_000_000)] {
        let p = plan_motion(dx, dy);
        assert!((15..=80).contains(&p.steps.len()), "steps {}", p.steps.len());
        assert_eq!(p.steps.len(), step_count(dx, dy));
    }
}

#[test]
fn short_moves_get_minimum_steps_and_long_moves_are_capped() {
    // Distance 0: the floor of fifteen steps.
    assert_eq!(step_count(0, 0), 15);
    assert_eq!(step_count(3, -4), 15);
    // Distance 90 gives two thirds of 90, between the clamps.
    assert_eq!(step_count(90, 0), 60);
    // Distance far past 120: capped at eighty steps.
    assert_eq!(step_count(0, 500), 80);
    assert_eq!(step_count(1_000_000, 1_000_000), 80);
}

#[test]
fn motion_step_delays_stay_within_bounds() {
    let p = plan_motion(40, -25);
    for s in &p.steps {
        assert!((1..=5).contains(&s.delay_ms), "delay {}", s.delay_ms);
    }
}
