use aha::mandelbrot::{classify, escape_count, render, Bounds, Classification, Grid};
use aha::pair::Complex;

const UNIT: i64 = 10_000;

fn bounds() -> Bounds {
    Bounds { k_max: 255, escape_radius: 10 * UNIT as u64, unit: UNIT }
}

#[test]
fn origin_is_inside() {
    let z0 = Complex::new(0, 0);
    assert_eq!(escape_count(z0, bounds()), 255);
    assert_eq!(classify(z0, bounds()), Classification::Inside);
}

#[test]
fn far_point_escapes_at_once() {
    let z0 = Complex::new(10 * UNIT, 10 * UNIT);
    assert_eq!(escape_count(z0, bounds()), 0);
    assert_eq!(classify(z0, bounds()), Classification::Outside);
}

#[test]
fn point_five_five_escapes_after_one_step() {
    let z0 = Complex::new(5 * UNIT, 5 * UNIT);
    assert_eq!(escape_count(z0, bounds()), 1);
    assert_eq!(classify(z0, bounds()), Classification::Outside);
}

#[test]
fn cardioid_point_is_inside() {
    let z0 = Complex::new(-UNIT / 2, 0);
    assert_eq!(classify(z0, bounds()), Classification::Inside);
}

#[test]
fn zero_steps_count_as_inside() {
    let b = Bounds { k_max: 0, escape_radius: 10 * UNIT as u64, unit: UNIT };
    assert_eq!(classify(Complex::new(10 * UNIT, 10 * UNIT), b), Classification::Inside);
}

#[test]
fn forty_by_forty_grid_shape() {
    let dx = 500;
    let grid = Grid { x0: -20 * dx, y0: -20 * dx, dx, dy: dx, width: 40, height: 40 };
    let lines = render(grid, bounds());
    assert_eq!(lines.len(), 40);
    for line in &lines {
        assert_eq!(line.chars().count(), 40);
        assert!(line.chars().all(|c| c == '*' || c == ' '));
    }
    // the origin is at row 20, column 20; (1, 1) escapes
    assert_eq!(lines[20].chars().nth(20), Some('*'));
    assert_eq!(lines[0].chars().nth(0), Some(' '));
}

#[test]
fn text_mandelbrot() {
    let dx = 500;
    let dy = 500;
    let ni: i64 = 40;
    let nj: i64 = ni;
    let grid = Grid {
        x0: -(ni / 2) * dx,
        y0: -(nj / 2) * dy,
        dx,
        dy,
        width: (ni + ni / 2) as usize,
        height: (nj + nj / 2) as usize,
    };
    let lines = render(grid, bounds());
    for line in &lines {
        println!("{}", line);
    }
    assert_eq!(lines.len(), 60);
    assert!(lines.iter().all(|l| l.chars().count() == 60));
}
