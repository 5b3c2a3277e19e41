use vstd::prelude::*;
use vstd::string::StringExecFns;

use crate::arith::{floor_div, is_isqrt};
use crate::pair::{pair_add, pair_div_scalar, pair_mul, Complex};

verus! {

/// Where a sample point lies with respect to the Mandelbrot set.
#[derive(Clone, Copy, PartialEq, Eq, Structural, Debug)]
pub enum Classification {
    Inside,
    Outside,
}

/// The escape-time test, in fixed point: the real number `x` is held as the
/// integer `x · unit`.
#[derive(Clone, Copy, PartialEq, Eq, Structural, Debug)]
pub struct Bounds {
    /// The number of steps after which a point counts as inside.
    pub k_max: u32,
    /// A point escapes once its norm reaches this (fixed-point) length.
    pub escape_radius: u64,
    /// The fixed-point scale.
    pub unit: i64,
}

/// Largest magnitude of a sample coordinate: with it, one step of the
/// iteration stays within `i64`.
pub const COORD_LIMIT: i64 = 0x4000_0000_0000_0000;

/// The scale is positive and the squared radius leaves room for one step.
pub open spec fn bounds_ok(b: Bounds) -> bool {
    b.unit > 0 && b.escape_radius * b.escape_radius <= COORD_LIMIT
}

pub open spec fn coord_ok(x: int) -> bool {
    -COORD_LIMIT <= x <= COORD_LIMIT
}

/// One step `z ← z² + z0`: the square, which is in units of `unit²`, is
/// brought back to units of `unit`, rounding down.
pub open spec fn step(z: (int, int), z0: (int, int), unit: int) -> (int, int) {
    pair_add(pair_div_scalar(pair_mul(-1, z, z), unit), z0)
}

/// The point reached from `z0` after `k` steps.
pub open spec fn orbit(z0: (int, int), unit: int, k: nat) -> (int, int)
    decreases k,
{
    if k == 0 {
        z0
    } else {
        step(orbit(z0, unit, (k - 1) as nat), z0, unit)
    }
}

/// The norm of `z` has reached `radius`.
pub open spec fn escaped(z: (int, int), radius: int) -> bool {
    z.0 * z.0 + z.1 * z.1 >= radius * radius
}

/// No point of the orbit before step `k_max` has escaped.
pub open spec fn stays_within(z0: (int, int), b: Bounds) -> bool {
    forall|j: nat| j < b.k_max ==> !escaped(#[trigger] orbit(z0, b.unit as int, j), b.escape_radius as int)
}

/// Rounding down by a positive divisor moves no value away from zero.
proof fn lemma_floor_div_shrinks(x: int, d: int)
    requires
        d >= 1,
    ensures
        x >= 0 ==> 0 <= floor_div(x, d) <= x,
        x < 0 ==> x <= floor_div(x, d) < 0,
{
    let q = x / d;
    let r = x % d;
    vstd::arithmetic::div_mod::lemma_fundamental_div_mod(x, d);
    assert(x >= 0 ==> 0 <= q <= x) by (nonlinear_arith)
        requires
            x == d * q + r,
            0 <= r < d,
            d >= 1,
    ;
    assert(x < 0 ==> x <= q < 0) by (nonlinear_arith)
        requires
            x == d * q + r,
            0 <= r < d,
            d >= 1,
    ;
}

/// The number of steps taken from `z0` before its orbit escapes, at most
/// `k_max`.
pub fn escape_count(z0: Complex, b: Bounds) -> (k: u32)
    requires
        bounds_ok(b),
        coord_ok(z0.a as int),
        coord_ok(z0.b as int),
    ensures
        k <= b.k_max,
        forall|j: nat| j < k ==> !escaped(#[trigger] orbit(z0@, b.unit as int, j), b.escape_radius as int),
        k < b.k_max ==> escaped(orbit(z0@, b.unit as int, k as nat), b.escape_radius as int),
{
    let mut z: Complex = z0;
    let mut k: u32 = 0;
    let ghost radius = b.escape_radius as int;
    loop
        invariant
            bounds_ok(b),
            coord_ok(z0.a as int),
            coord_ok(z0.b as int),
            radius == b.escape_radius as int,
            k <= b.k_max,
            z@ == orbit(z0@, b.unit as int, k as nat),
            forall|j: nat| j < k ==> !escaped(#[trigger] orbit(z0@, b.unit as int, j), radius),
        decreases b.k_max - k,
    {
        if k >= b.k_max {
            return k;
        }
        let n: u64 = z.norm();
        let ghost s = z.a * z.a + z.b * z.b;
        if n >= b.escape_radius {
            assert(s >= radius * radius) by (nonlinear_arith)
                requires
                    n * n <= s,
                    n >= radius,
                    radius >= 0,
            ;
            return k;
        }
        assert(s < radius * radius) by (nonlinear_arith)
            requires
                s < (n + 1) * (n + 1),
                n + 1 <= radius,
                n >= 0,
        ;
        assert(-s <= z.a * z.a - z.b * z.b <= s && -s <= z.a * z.b + z.b * z.a <= s)
            by (nonlinear_arith)
            requires
                s == z.a * z.a + z.b * z.b,
        ;
        let sq: Complex = z * z;
        assert(sq@ == pair_mul(-1, z@, z@));
        let scaled: Complex = sq.div_scalar(b.unit);
        proof {
            lemma_floor_div_shrinks(sq.a as int, b.unit as int);
            lemma_floor_div_shrinks(sq.b as int, b.unit as int);
        }
        z = scaled + z0;
        k = k + 1;
        assert(z@ == step(orbit(z0@, b.unit as int, (k - 1) as nat), z0@, b.unit as int));
    }
}

/// Whether the orbit of `z0` stays within the escape radius for `k_max` steps.
pub fn classify(z0: Complex, b: Bounds) -> (r: Classification)
    requires
        bounds_ok(b),
        coord_ok(z0.a as int),
        coord_ok(z0.b as int),
    ensures
        (r == Classification::Inside) == stays_within(z0@, b),
{
    let k: u32 = escape_count(z0, b);
    if k >= b.k_max {
        Classification::Inside
    } else {
        assert(!stays_within(z0@, b)) by {
            assert(escaped(orbit(z0@, b.unit as int, k as nat), b.escape_radius as int));
        }
        Classification::Outside
    }
}

/// A rectangular grid of sample points, in fixed point: row `r` and column
/// `c` hold the point `(x0 + c·dx, y0 + r·dy)`.
#[derive(Clone, Copy, PartialEq, Eq, Structural, Debug)]
pub struct Grid {
    pub x0: i64,
    pub y0: i64,
    pub dx: i64,
    pub dy: i64,
    pub width: usize,
    pub height: usize,
}

pub open spec fn column_x(g: Grid, col: int) -> int {
    g.x0 + col * g.dx
}

pub open spec fn row_y(g: Grid, row: int) -> int {
    g.y0 + row * g.dy
}

pub open spec fn sample(g: Grid, row: int, col: int) -> (int, int) {
    (column_x(g, col), row_y(g, row))
}

/// Every sample coordinate of the grid is within `COORD_LIMIT`.
pub open spec fn grid_ok(g: Grid) -> bool {
    &&& forall|col: int| 0 <= col < g.width ==> coord_ok(#[trigger] column_x(g, col))
    &&& forall|row: int| 0 <= row < g.height ==> coord_ok(#[trigger] row_y(g, row))
}

/// The character drawn for a cell: `'*'` inside the set, `' '` outside.
pub open spec fn cell(g: Grid, b: Bounds, row: int, col: int) -> char {
    if stays_within(sample(g, row, col), b) {
        '*'
    } else {
        ' '
    }
}

/// `origin + index · step`, which must be a valid coordinate.
fn coordinate(origin: i64, step: i64, index: usize) -> (r: i64)
    requires
        coord_ok(origin + index * step),
    ensures
        r == origin + index * step,
{
    let i: i128 = index as i128;
    let st: i128 = step as i128;
    assert(-0x7fff_ffff_ffff_ffff_8000_0000_0000_0000 <= i * st
        <= 0x7fff_ffff_ffff_fffe_8000_0000_0000_0001) by (nonlinear_arith)
        requires
            0 <= i <= 0xffff_ffff_ffff_ffff,
            -0x8000_0000_0000_0000 <= st <= 0x7fff_ffff_ffff_ffff,
    ;
    let p: i128 = i * st;
    (origin as i128 + p) as i64
}

/// Draws the grid row by row: one line per row, one character per column.
pub fn render(g: Grid, b: Bounds) -> (lines: Vec<String>)
    requires
        bounds_ok(b),
        grid_ok(g),
    ensures
        lines.len() == g.height,
        forall|row: int| 0 <= row < g.height ==> #[trigger] lines[row]@.len() == g.width,
        forall|row: int, col: int|
            0 <= row < g.height && 0 <= col < g.width ==> #[trigger] lines[row]@[col] == cell(
                g,
                b,
                row,
                col,
            ),
{
    let mut lines: Vec<String> = Vec::new();
    let mut row: usize = 0;
    while row < g.height
        invariant
            bounds_ok(b),
            grid_ok(g),
            row <= g.height,
            lines.len() == row,
            forall|r: int| 0 <= r < row ==> #[trigger] lines[r]@.len() == g.width,
            forall|r: int, c: int|
                0 <= r < row && 0 <= c < g.width ==> #[trigger] lines[r]@[c] == cell(g, b, r, c),
        decreases g.height - row,
    {
        assert(coord_ok(row_y(g, row as int)));
        let y: i64 = coordinate(g.y0, g.dy, row);
        let mut line: String = String::new();
        let mut col: usize = 0;
        while col < g.width
            invariant
                bounds_ok(b),
                grid_ok(g),
                row < g.height,
                y == row_y(g, row as int),
                col <= g.width,
                line@.len() == col,
                forall|c: int| 0 <= c < col ==> #[trigger] line@[c] == cell(g, b, row as int, c),
            decreases g.width - col,
        {
            assert(coord_ok(column_x(g, col as int)));
            let x: i64 = coordinate(g.x0, g.dx, col);
            let z0: Complex = Complex::new(x, y);
            let mark: &str = match classify(z0, b) {
                Classification::Inside => "*",
                Classification::Outside => " ",
            };
            proof {
                reveal_strlit("*");
                reveal_strlit(" ");
            }
            assert(mark@ =~= seq![cell(g, b, row as int, col as int)]);
            let ghost before = line@;
            line.append(mark);
            assert(line@ =~= before.push(cell(g, b, row as int, col as int)));
            col = col + 1;
        }
        lines.push(line);
        row = row + 1;
    }
    lines
}

} // verus!
