use vstd::prelude::*;

pub mod arith;
pub mod ga2;
pub mod mandelbrot;
pub mod pair;
pub mod text;

verus! {

/// The geometric product.
pub trait GP<RHS = Self>: Sized {
    type Output;

    /// When the product is defined (representable).
    spec fn gp_req(self, rhs: RHS) -> bool;

    /// The value of the product.
    spec fn gp_spec(self, rhs: RHS) -> Self::Output;

    fn gp(self, rhs: RHS) -> (r: Self::Output)
        requires
            self.gp_req(rhs),
        ensures
            r == self.gp_spec(rhs),
    ;
}

/// The inner product.
pub trait IP<RHS = Self> {
    type Output;

    fn ip(self, rhs: RHS) -> Self::Output;
}

/// The outer product.
pub trait OP<RHS = Self> {
    type Output;

    fn op(self, rhs: RHS) -> Self::Output;
}

} // verus!
