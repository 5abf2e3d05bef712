use implicit_filtering::estimate::{Direction, GradientReport};
use implicit_filtering::filter::{Comparison, Event, Filter, Stage};

#[derive(Clone, Copy, PartialEq, Debug)]
struct Point {
    x: f64,
    loss: f64,
}

fn gradient_report(oracle: fn(f64, f64) -> f64, at: Point, h: f64) -> (GradientReport, f64, f64) {
    let right = oracle(at.x + h, h);
    let left = oracle(at.x - h, h);
    let grad = (right - left) / (2.0 * h);
    let hess = (right + left - 2.0 * at.loss) / (h * h);
    let newton = -grad.signum() * grad.abs() / hess;
    let steepest = -grad.signum() * grad.abs();
    let report = GradientReport {
        right_not_lower: right >= at.loss,
        left_not_lower: left >= at.loss,
        grad_within_floor: grad.abs() <= h,
        newton_descends: newton * grad <= 0.0,
        newton_within_cap: newton.abs() <= 3.0,
        steepest_within_cap: steepest.abs() <= 3.0,
    };
    (report, grad, hess)
}

// Answers every stage of the run with the oracle's values; returns the result
// and the number of accepted improvements.
fn optimise(oracle: fn(f64, f64) -> f64, x0: f64, h0: f64, tol: f64) -> (Point, u32) {
    let origin = Point { x: x0, loss: 0.0 };
    let (mut best, mut start, mut current, mut candidate) = (origin, origin, origin, origin);
    let (mut h, mut grad, mut hess, mut loss_old) = (h0, 0.0, 0.0, 0.0);
    let mut run = Filter::new();
    loop {
        let event = match run.stage {
            Stage::EvaluateStart => {
                best = Point { x: x0, loss: oracle(x0, h0) };
                Event::Done
            }
            Stage::OpenStencil { level } => {
                h = h0 * 0.25f64.powi(level as i32);
                start = Point { x: best.x, loss: oracle(best.x, h) };
                current = start;
                Event::Done
            }
            Stage::Estimate { .. } => {
                let (report, g, c) = gradient_report(oracle, current, h);
                grad = g;
                hess = c;
                Event::Estimated(report)
            }
            Stage::Trial { direction, trial, .. } => {
                let p = match direction {
                    Direction::Newton => -grad.signum() * grad.abs() / hess,
                    Direction::Steepest => -grad.signum() * grad.abs(),
                    Direction::Capped => -grad.signum() * 3.0,
                };
                assert!(p * grad <= 0.0);
                if trial == 0 {
                    loss_old = oracle(current.x, h);
                }
                let a = 0.7f64.powi(trial as i32);
                candidate = Point { x: current.x + a * p, loss: oracle(current.x + a * p, h) };
                Event::Tried { sufficient_decrease: candidate.loss - loss_old <= 0.001 * a * p * grad }
            }
            Stage::Adopt { .. } => {
                current = candidate;
                Event::Done
            }
            Stage::Close { .. } => Event::Compared(Comparison {
                same_point: current == start,
                not_lower: current.loss >= start.loss,
                within_tol: (best.x - current.x).abs() <= tol,
            }),
            Stage::Promote { .. } => {
                best = current;
                Event::Done
            }
            Stage::Finished => return (best, run.improvements),
        };
        run.step(event);
    }
}

fn rk2(beta: f64, stepsize: f64, finish_time: f64) -> f64 {
    let n = (finish_time / stepsize) as usize;
    let mut y = 1.0;
    for _ in 0..=n {
        let k1 = beta * y;
        let k2 = beta * (y + stepsize * k1);
        y += stepsize * 0.5 * (k1 + k2);
    }
    y
}

fn growth_error(x: f64, h: f64) -> f64 {
    let error = 5.0f64.exp() - rk2(x, h, 5.0);
    error.powi(2)
}

fn quadratic(x: f64, _h: f64) -> f64 {
    (x - 2.0).powi(2)
}

fn constant(_x: f64, _h: f64) -> f64 {
    4.0
}

#[test]
fn calibrates_growth_rate() {
    let (r, n) = optimise(growth_error, 1.5, 0.1, 0.0000001);
    assert!(n >= 1);
    assert!((r.x - 1.0).abs() < 0.01, "x = {}", r.x);
    assert!(r.loss < 1e-3, "loss = {}", r.loss);
}

#[test]
fn quadratic_gradient_estimate() {
    let at = Point { x: 3.0, loss: quadratic(3.0, 0.1) };
    let (report, grad, hess) = gradient_report(quadratic, at, 0.1);
    assert!(!report.stencil_failure());
    assert!((grad - 2.0).abs() < 1e-9);
    assert!((hess - 2.0).abs() < 1e-6);
    let at_min = Point { x: 2.0, loss: 0.0 };
    let (report, _, _) = gradient_report(quadratic, at_min, 0.001);
    assert!(report.stencil_failure());
}

#[test]
fn quadratic_minimum_is_found() {
    let (r, n) = optimise(quadratic, 5.0, 0.5, 1e-9);
    assert!(n >= 1);
    assert!((r.x - 2.0).abs() < 1e-3, "x = {}", r.x);
}

#[test]
fn flat_oracle_returns_start() {
    let (r, n) = optimise(constant, 1.5, 0.1, 1e-7);
    assert_eq!(r, Point { x: 1.5, loss: 4.0 });
    assert_eq!(n, 0);
}

#[test]
fn huge_tolerance_stops_after_first_improvement() {
    let (r, n) = optimise(quadratic, 5.0, 0.5, 1e9);
    assert_eq!(n, 1);
    assert!(r.loss < quadratic(5.0, 0.5));
}

#[test]
fn restarting_from_result_stays_put() {
    let tol = 0.0000001;
    let (first, _) = optimise(quadratic, 5.0, 0.5, tol);
    let (second, _) = optimise(quadratic, first.x, 0.5, tol);
    assert!((first.x - second.x).abs() <= tol, "{} vs {}", first.x, second.x);
}
