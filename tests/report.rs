use ode_steps::report::{format_result, push_decimal, push_signed};

fn rows(items: &[(&str, &str)]) -> Vec<(String, String)> {
    items.iter().map(|(x, y)| (x.to_string(), y.to_string())).collect()
}

#[test]
fn one_step_report_layout() {
    let r = format_result("Euler", &rows(&[("0.00", "1.000000"), ("1.00", "2.000000")]), 1, "1");
    assert_eq!(
        r,
        "Method Euler\nSteps: 1 (h = 1)\n#    x           y\n0    0.00      1.000000\n1    1.00      2.000000\n"
    );
}

#[test]
fn empty_trajectory_prints_header_only() {
    let r = format_result("Adams", &Vec::new(), 0, "NaN");
    assert_eq!(r, "Method Adams\nSteps: 0 (h = NaN)\n#    x           y\n");
}

#[test]
fn negative_step_count_is_signed() {
    let r = format_result("Runge-Kutta", &rows(&[("0.00", "0.000000")]), -12, "-0.25");
    assert_eq!(r, "Method Runge-Kutta\nSteps: -12 (h = -0.25)\n#    x           y\n0    0.00      0.000000\n");
}

#[test]
fn row_indices_pass_nine() {
    let items: Vec<(String, String)> = (0..12).map(|k| (format!("{}.00", k), "1.000000".to_string())).collect();
    let r = format_result("Euler", &items, 11, "1");
    assert!(r.ends_with("10    10.00      1.000000\n11    11.00      1.000000\n"));
    assert_eq!(r.lines().count(), 3 + 12);
}

#[test]
fn decimal_numerals() {
    let mut s = String::from("n=");
    push_decimal(&mut s, 0);
    push_decimal(&mut s, 907);
    push_decimal(&mut s, u64::MAX);
    assert_eq!(s, "n=090718446744073709551615");
    let mut t = String::new();
    push_signed(&mut t, i32::MIN);
    push_signed(&mut t, 5);
    assert_eq!(t, "-21474836485");
}
