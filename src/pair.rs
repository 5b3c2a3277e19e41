use vstd::prelude::*;

use vstd::std_specs::ops::{MulSpec, NotSpec};

use crate::arith::{
    div_floor_i64, fits_i64, floor_div, floor_mod, hypot_floor, is_isqrt, mod_floor_i64, wide_mul,
};

verus! {

/// Chooses, at the type level, whether the unit `U` of a pair number squares
/// to `-1` or to `+1`.
pub trait UnitSign: Sized + Copy {
    /// The square of the unit: `-1` or `+1`.
    spec fn square() -> int;

    /// The (field-less) marker value.
    fn marker() -> Self;

    /// Whether the unit squares to `-1`.
    fn squares_to_minus_one() -> (r: bool)
        ensures
            Self::square() == (if r { -1int } else { 1int }),
    ;
}

/// Marker of a unit that squares to `-1`: pairs over it are the complex numbers.
#[derive(Clone, Copy, PartialEq, Eq, Structural, Debug)]
pub struct Imaginary;

/// Marker of a unit that squares to `+1`: pairs over it are the split-complex
/// numbers.
#[derive(Clone, Copy, PartialEq, Eq, Structural, Debug)]
pub struct Hyperbolic;

impl UnitSign for Imaginary {
    open spec fn square() -> int {
        -1
    }

    fn marker() -> Self {
        Imaginary
    }

    fn squares_to_minus_one() -> (r: bool) {
        true
    }
}

impl UnitSign for Hyperbolic {
    open spec fn square() -> int {
        1
    }

    fn marker() -> Self {
        Hyperbolic
    }

    fn squares_to_minus_one() -> (r: bool) {
        false
    }
}

/// The number `a + b·U`, where the square of `U` is fixed by `S`.
#[derive(Clone, Copy, PartialEq, Eq, Structural, Debug)]
pub struct C<S> {
    pub a: i64,
    pub b: i64,
    pub unit: S,
}

/// Pair numbers whose unit squares to `-1`: the complex numbers.
pub type Complex = C<Imaginary>;

/// Pair numbers whose unit squares to `+1`.
pub type SplitComplex = C<Hyperbolic>;

impl<S> View for C<S> {
    type V = (int, int);

    open spec fn view(&self) -> (int, int) {
        (self.a as int, self.b as int)
    }
}

/// Both components are representable as `i64`.
pub open spec fn fits_pair(p: (int, int)) -> bool {
    fits_i64(p.0) && fits_i64(p.1)
}

pub open spec fn pair_add(p: (int, int), q: (int, int)) -> (int, int) {
    (p.0 + q.0, p.1 + q.1)
}

pub open spec fn pair_sub(p: (int, int), q: (int, int)) -> (int, int) {
    (p.0 - q.0, p.1 - q.1)
}

pub open spec fn pair_scale(k: int, p: (int, int)) -> (int, int) {
    (k * p.0, k * p.1)
}

/// `(a1 + b1·U)(a2 + b2·U)` where `U² = sigma`.
pub open spec fn pair_mul(sigma: int, p: (int, int), q: (int, int)) -> (int, int) {
    (p.0 * q.0 + sigma * (p.1 * q.1), p.0 * q.1 + p.1 * q.0)
}

pub open spec fn pair_conj(p: (int, int)) -> (int, int) {
    (p.0, -p.1)
}

pub open spec fn pair_neg(p: (int, int)) -> (int, int) {
    (-p.0, -p.1)
}

/// Each component divided (floored) by the same integer.
pub open spec fn pair_div_scalar(p: (int, int), k: int) -> (int, int) {
    (floor_div(p.0, k), floor_div(p.1, k))
}

pub open spec fn pair_rem_scalar(p: (int, int), k: int) -> (int, int) {
    (floor_mod(p.0, k), floor_mod(p.1, k))
}

/// Component by component: not the field division of complex numbers.
pub open spec fn pair_div(p: (int, int), q: (int, int)) -> (int, int) {
    (floor_div(p.0, q.0), floor_div(p.1, q.1))
}

pub open spec fn pair_rem(p: (int, int), q: (int, int)) -> (int, int) {
    (floor_mod(p.0, q.0), floor_mod(p.1, q.1))
}

/// A divisor with which floored division of any `i64` is defined and fits.
pub open spec fn divides_safely(n: int, d: int) -> bool {
    d != 0 && !(n == i64::MIN && d == -1)
}

/// The pair number with the given components, truncated to `i64` (exact
/// wherever `fits_pair(p)`).
pub open spec fn pair_of<S>(p: (int, int), unit: S) -> C<S> {
    C { a: p.0 as i64, b: p.1 as i64, unit }
}

impl<S: UnitSign> C<S> {
    /// The pair number `a + b·U`.
    pub fn new(a: i64, b: i64) -> (r: C<S>)
        ensures
            r@ == (a as int, b as int),
    {
        C { a, b, unit: S::marker() }
    }

    /// Multiplies both components by `k`.
    pub fn scale(self, k: i64) -> (r: C<S>)
        requires
            fits_pair(pair_scale(k as int, self@)),
        ensures
            r@ == pair_scale(k as int, self@),
    {
        C { a: k * self.a, b: k * self.b, unit: self.unit }
    }

    /// Divides both components by `k`, rounding down.
    pub fn div_scalar(self, k: i64) -> (r: C<S>)
        requires
            divides_safely(self.a as int, k as int),
            divides_safely(self.b as int, k as int),
        ensures
            r@ == pair_div_scalar(self@, k as int),
    {
        C { a: div_floor_i64(self.a, k), b: div_floor_i64(self.b, k), unit: self.unit }
    }

    /// Floored remainder of both components by `k`.
    pub fn rem_scalar(self, k: i64) -> (r: C<S>)
        requires
            divides_safely(self.a as int, k as int),
            divides_safely(self.b as int, k as int),
        ensures
            r@ == pair_rem_scalar(self@, k as int),
    {
        C { a: mod_floor_i64(self.a, k), b: mod_floor_i64(self.b, k), unit: self.unit }
    }

    /// Divides component by component, rounding down; this is not complex
    /// division.
    pub fn div_pair(self, rhs: C<S>) -> (r: C<S>)
        requires
            divides_safely(self.a as int, rhs.a as int),
            divides_safely(self.b as int, rhs.b as int),
        ensures
            r@ == pair_div(self@, rhs@),
    {
        C { a: div_floor_i64(self.a, rhs.a), b: div_floor_i64(self.b, rhs.b), unit: self.unit }
    }

    /// Floored remainder component by component.
    pub fn rem_pair(self, rhs: C<S>) -> (r: C<S>)
        requires
            divides_safely(self.a as int, rhs.a as int),
            divides_safely(self.b as int, rhs.b as int),
        ensures
            r@ == pair_rem(self@, rhs@),
    {
        C { a: mod_floor_i64(self.a, rhs.a), b: mod_floor_i64(self.b, rhs.b), unit: self.unit }
    }

    /// Orders by the first component alone.
    pub fn lt(&self, rhs: &C<S>) -> (r: bool)
        ensures
            r == (self.a < rhs.a),
    {
        self.a < rhs.a
    }

    /// Orders by the first component alone.
    pub fn le(&self, rhs: &C<S>) -> (r: bool)
        ensures
            r == (self.a <= rhs.a),
    {
        self.a <= rhs.a
    }

    /// Orders by the first component alone.
    pub fn gt(&self, rhs: &C<S>) -> (r: bool)
        ensures
            r == (self.a > rhs.a),
    {
        self.a > rhs.a
    }

    /// Orders by the first component alone.
    pub fn ge(&self, rhs: &C<S>) -> (r: bool)
        ensures
            r == (self.a >= rhs.a),
    {
        self.a >= rhs.a
    }

    /// The Euclidean length `sqrt(a² + b²)`, rounded down to an integer.
    pub fn norm(&self) -> (r: u64)
        ensures
            is_isqrt(self.a * self.a + self.b * self.b, r as int),
    {
        hypot_floor(self.a, self.b)
    }
}

impl<S: UnitSign> std::ops::Add for C<S> {
    type Output = C<S>;

    fn add(self, rhs: C<S>) -> (r: C<S>) {
        C { a: self.a + rhs.a, b: self.b + rhs.b, unit: self.unit }
    }
}

impl<S: UnitSign> vstd::std_specs::ops::AddSpecImpl for C<S> {
    open spec fn obeys_add_spec() -> bool {
        true
    }

    open spec fn add_req(self, rhs: C<S>) -> bool {
        fits_pair(pair_add(self@, rhs@))
    }

    open spec fn add_spec(self, rhs: C<S>) -> C<S> {
        pair_of(pair_add(self@, rhs@), self.unit)
    }
}

impl<S: UnitSign> std::ops::Sub for C<S> {
    type Output = C<S>;

    fn sub(self, rhs: C<S>) -> (r: C<S>) {
        C { a: self.a - rhs.a, b: self.b - rhs.b, unit: self.unit }
    }
}

impl<S: UnitSign> vstd::std_specs::ops::SubSpecImpl for C<S> {
    open spec fn obeys_sub_spec() -> bool {
        true
    }

    open spec fn sub_req(self, rhs: C<S>) -> bool {
        fits_pair(pair_sub(self@, rhs@))
    }

    open spec fn sub_spec(self, rhs: C<S>) -> C<S> {
        pair_of(pair_sub(self@, rhs@), self.unit)
    }
}

impl<S: UnitSign> std::ops::Mul for C<S> {
    type Output = C<S>;

    fn mul(self, rhs: C<S>) -> (r: C<S>) {
        let aa: i128 = wide_mul(self.a, rhs.a);
        let bb: i128 = wide_mul(self.b, rhs.b);
        let ab: i128 = wide_mul(self.a, rhs.b);
        let ba: i128 = wide_mul(self.b, rhs.a);
        let minus: bool = S::squares_to_minus_one();
        proof {
            let sigma = S::square();
            assert(sigma * (self.b * rhs.b) == if minus { -bb } else { bb as int }) by {
                if minus {
                    assert(sigma == -1);
                } else {
                    assert(sigma == 1);
                }
            }
        }
        let first: i128 = if minus {
            aa - bb
        } else {
            aa + bb
        };
        C { a: first as i64, b: (ab + ba) as i64, unit: self.unit }
    }
}

impl<S: UnitSign> vstd::std_specs::ops::MulSpecImpl for C<S> {
    open spec fn obeys_mul_spec() -> bool {
        true
    }

    open spec fn mul_req(self, rhs: C<S>) -> bool {
        fits_pair(pair_mul(S::square(), self@, rhs@))
    }

    open spec fn mul_spec(self, rhs: C<S>) -> C<S> {
        pair_of(pair_mul(S::square(), self@, rhs@), self.unit)
    }
}

impl<S: UnitSign> std::ops::Neg for C<S> {
    type Output = C<S>;

    fn neg(self) -> (r: C<S>) {
        C { a: -self.a, b: -self.b, unit: self.unit }
    }
}

impl<S: UnitSign> vstd::std_specs::ops::NegSpecImpl for C<S> {
    open spec fn obeys_neg_spec() -> bool {
        true
    }

    open spec fn neg_req(self) -> bool {
        fits_pair(pair_neg(self@))
    }

    open spec fn neg_spec(self) -> C<S> {
        pair_of(pair_neg(self@), self.unit)
    }
}

/// `!z` is the conjugate `a - b·U`.
impl<S: UnitSign> std::ops::Not for C<S> {
    type Output = C<S>;

    fn not(self) -> (r: C<S>) {
        C { a: self.a, b: -self.b, unit: self.unit }
    }
}

impl<S: UnitSign> vstd::std_specs::ops::NotSpecImpl for C<S> {
    open spec fn obeys_not_spec() -> bool {
        true
    }

    open spec fn not_req(self) -> bool {
        fits_pair(pair_conj(self@))
    }

    open spec fn not_spec(self) -> C<S> {
        pair_of(pair_conj(self@), self.unit)
    }
}

/// With a unit that squares to `-1`, the product of two pair numbers is the
/// product of complex numbers: `(a1 + b1·i)(a2 + b2·i) = (a1·a2 − b1·b2) +
/// (a1·b2 + a2·b1)·i`.
pub proof fn lemma_complex_product(z1: Complex, z2: Complex)
    requires
        z1.mul_req(z2),
    ensures
        z1.mul_spec(z2)@ == (z1.a * z2.a - z1.b * z2.b, z1.a * z2.b + z2.a * z1.b),
{
    let p = pair_mul(Imaginary::square(), z1@, z2@);
    assert(p.0 == z1.a * z2.a - z1.b * z2.b) by (nonlinear_arith)
        requires
            p == pair_mul(-1, z1@, z2@),
    ;
    assert(p.1 == z1.a * z2.b + z2.a * z1.b) by (nonlinear_arith)
        requires
            p == pair_mul(-1, z1@, z2@),
    ;
}

/// Conjugating twice gives the number back: `!(!z) == z`, for every `z` whose
/// conjugate is representable.
pub proof fn lemma_conjugate_involution<S: UnitSign>(z: C<S>)
    requires
        z.not_req(),
    ensures
        z.not_spec().not_req(),
        z.not_spec().not_spec() == z,
{
}

} // verus!
