use ode_steps::stepper::{multistep_trajectory, one_step_trajectory};
use ode_steps::theme::Theme;

#[test]
fn one_step_length_and_start() {
    let r = one_step_trajectory((0i64, 1i64), 5, |(x, y)| (x + 1, 2 * y));
    assert_eq!(r, vec![(0, 1), (1, 2), (2, 4), (3, 8), (4, 16), (5, 32)]);
}

#[test]
fn one_step_without_steps() {
    assert_eq!(one_step_trajectory(7u8, 0, |p| p + 1), vec![7]);
    assert_eq!(one_step_trajectory(7u8, -4, |p| p + 1), vec![7]);
}

#[test]
fn one_step_constant_slope_keeps_y() {
    let r = one_step_trajectory((0.0f64, 3.0f64), 4, |(x, y)| (x + 0.25, y + 0.25 * 0.0));
    assert_eq!(r.len(), 5);
    assert!(r.iter().all(|s| s.1 == 3.0));
}

#[test]
fn multistep_schedule() {
    // Each sample records which rule made it and from which inputs.
    let r = multistep_trajectory(
        (0i64, 1i64),
        5,
        |i, p: (i64, i64)| (i as i64, p.1 + 10),
        |i, a: (i64, i64), b: (i64, i64), c: (i64, i64)| (i as i64 + 1, a.1 * 100 + b.1 * 10 + c.1),
    );
    assert_eq!(r.len(), 6);
    assert_eq!(r[0], (0, 1));
    assert_eq!(r[1], (1, 11));
    assert_eq!(r[2], (2, 21));
    assert_eq!(r[3], (3, 21 * 100 + 11 * 10 + 1));
    assert_eq!(r[4], (4, r[3].1 * 100 + 21 * 10 + 11));
    assert_eq!(r[5], (5, r[4].1 * 100 + r[3].1 * 10 + 21));
}

#[test]
fn multistep_short_runs_keep_startup() {
    for steps in [-1, 0, 1, 2] {
        let r = multistep_trajectory(0i32, steps, |i, p| p + i, |_, a, _, _| a);
        assert_eq!(r, vec![0, 1, 3]);
    }
}

#[test]
fn light_is_the_default_theme() {
    assert_eq!(Theme::default(), Theme::Light);
    assert_eq!(Theme::all(), vec![Theme::Light]);
}
