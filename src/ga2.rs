use vstd::prelude::*;

use vstd::string::StringExecFns;

use crate::arith::{fits_i64, wide_mul};
use crate::text::{decimal, push_decimal_i64};
use crate::GP;

verus! {

/// The four basis blades of the plane's geometric algebra: the scalar `1`,
/// the vectors `e1`, `e2` and the bivector `e12 = e1·e2`.
#[derive(Clone, Copy, PartialEq, Eq, Structural, Debug)]
pub enum Basis {
    Scalar,
    E1,
    E2,
    E12,
}

/// The sign of an entry of the multiplication table.
#[derive(Clone, Copy, PartialEq, Eq, Structural, Debug)]
pub enum Sign {
    Positive,
    Negative,
}

/// Whether the blade has the factor `e1`.
pub open spec fn has_e1(t: Basis) -> bool {
    t == Basis::E1 || t == Basis::E12
}

/// Whether the blade has the factor `e2`.
pub open spec fn has_e2(t: Basis) -> bool {
    t == Basis::E2 || t == Basis::E12
}

/// The blade made of the given factors, in the order `e1` then `e2`.
pub open spec fn blade(e1: bool, e2: bool) -> Basis {
    if e1 && e2 {
        Basis::E12
    } else if e1 {
        Basis::E1
    } else if e2 {
        Basis::E2
    } else {
        Basis::Scalar
    }
}

/// The blade of a product: a factor present on both sides squares to `+1`
/// and drops out.
pub open spec fn product_tag(a: Basis, b: Basis) -> Basis {
    blade(has_e1(a) != has_e1(b), has_e2(a) != has_e2(b))
}

/// The sign of a product: bringing its factors into the order `e1`, `e2`
/// moves an `e2` of the left blade past an `e1` of the right one, and each
/// such swap of anticommuting vectors flips the sign.
pub open spec fn product_sign(a: Basis, b: Basis) -> Sign {
    if has_e2(a) && has_e1(b) {
        Sign::Negative
    } else {
        Sign::Positive
    }
}

pub open spec fn sign_value(s: Sign) -> int {
    match s {
        Sign::Positive => 1,
        Sign::Negative => -1,
    }
}

/// The multiplication table of the basis blades: `a·b = sign · tag`.
pub fn table(a: Basis, b: Basis) -> (r: (Sign, Basis))
    ensures
        r == (product_sign(a, b), product_tag(a, b)),
{
    match (a, b) {
        (Basis::Scalar, Basis::Scalar) => (Sign::Positive, Basis::Scalar),
        (Basis::Scalar, Basis::E1) => (Sign::Positive, Basis::E1),
        (Basis::Scalar, Basis::E2) => (Sign::Positive, Basis::E2),
        (Basis::Scalar, Basis::E12) => (Sign::Positive, Basis::E12),
        (Basis::E1, Basis::Scalar) => (Sign::Positive, Basis::E1),
        (Basis::E1, Basis::E1) => (Sign::Positive, Basis::Scalar),
        (Basis::E1, Basis::E2) => (Sign::Positive, Basis::E12),
        (Basis::E1, Basis::E12) => (Sign::Positive, Basis::E2),
        (Basis::E2, Basis::Scalar) => (Sign::Positive, Basis::E2),
        (Basis::E2, Basis::E1) => (Sign::Negative, Basis::E12),
        (Basis::E2, Basis::E2) => (Sign::Positive, Basis::Scalar),
        (Basis::E2, Basis::E12) => (Sign::Negative, Basis::E1),
        (Basis::E12, Basis::Scalar) => (Sign::Positive, Basis::E12),
        (Basis::E12, Basis::E1) => (Sign::Negative, Basis::E2),
        (Basis::E12, Basis::E2) => (Sign::Positive, Basis::E1),
        (Basis::E12, Basis::E12) => (Sign::Negative, Basis::Scalar),
    }
}

/// A multiple of one basis blade: `val · tag`.
#[derive(Clone, Copy, PartialEq, Eq, Structural, Debug)]
pub struct Element {
    pub val: i64,
    pub tag: Basis,
}

/// Addition, subtraction or comparison of multiples of two different blades.
#[derive(Clone, Copy, PartialEq, Eq, Structural, Debug)]
pub struct IncompatibleGradeError {
    pub left: Basis,
    pub right: Basis,
}

/// The name of a blade as it is printed.
pub open spec fn tag_name(t: Basis) -> Seq<char> {
    match t {
        Basis::Scalar => seq!['e', '0'],
        Basis::E1 => seq!['e', '1'],
        Basis::E2 => seq!['e', '2'],
        Basis::E12 => seq!['e', '1', '2'],
    }
}

/// The coefficient of the geometric product of two elements.
pub open spec fn product_value(a: Element, b: Element) -> int {
    sign_value(product_sign(a.tag, b.tag)) * (a.val * b.val)
}

impl Element {
    pub open spec fn new_spec(val: i64, tag: Basis) -> Element {
        Element { val, tag }
    }

    /// The element `val · tag`.
    #[verifier::when_used_as_spec(new_spec)]
    pub fn new(val: i64, tag: Basis) -> (r: Element)
        ensures
            r == Element::new_spec(val, tag),
    {
        Element { val, tag }
    }

    /// The text `<coefficient>*<blade>`, such as `-3*e12`.
    pub fn to_string(&self) -> (r: String)
        ensures
            r@ == decimal(self.val as int) + seq!['*'] + tag_name(self.tag),
    {
        proof {
            reveal_strlit("*e0");
            reveal_strlit("*e1");
            reveal_strlit("*e2");
            reveal_strlit("*e12");
        }
        let mut r: String = String::new();
        push_decimal_i64(self.val, &mut r);
        let suffix: &str = match self.tag {
            Basis::Scalar => "*e0",
            Basis::E1 => "*e1",
            Basis::E2 => "*e2",
            Basis::E12 => "*e12",
        };
        assert(suffix@ =~= seq!['*'] + tag_name(self.tag));
        r.append(suffix);
        assert(r@ =~= decimal(self.val as int) + seq!['*'] + tag_name(self.tag));
        r
    }

    /// Multiplies the coefficient by `k`; the blade stays.
    pub fn scale(self, k: i64) -> (r: Element)
        requires
            fits_i64(k * self.val),
        ensures
            r.tag == self.tag,
            r.val == k * self.val,
    {
        Element { val: k * self.val, tag: self.tag }
    }

    /// Compares the coefficients of two multiples of the same blade.
    pub fn equals(&self, rhs: &Element) -> (r: Result<bool, IncompatibleGradeError>)
        ensures
            self.tag == rhs.tag ==> r == Ok::<bool, IncompatibleGradeError>(self.val == rhs.val),
            self.tag != rhs.tag ==> r == Err::<bool, IncompatibleGradeError>(
                IncompatibleGradeError { left: self.tag, right: rhs.tag },
            ),
    {
        if self.tag == rhs.tag {
            Ok(self.val == rhs.val)
        } else {
            Err(IncompatibleGradeError { left: self.tag, right: rhs.tag })
        }
    }

    /// The sum of two multiples of the same blade.
    pub fn add(self, rhs: Element) -> (r: Result<Element, IncompatibleGradeError>)
        requires
            self.tag == rhs.tag ==> fits_i64(self.val + rhs.val),
        ensures
            self.tag == rhs.tag ==> r == Ok::<Element, IncompatibleGradeError>(
                Element { val: (self.val + rhs.val) as i64, tag: self.tag },
            ),
            self.tag != rhs.tag ==> r == Err::<Element, IncompatibleGradeError>(
                IncompatibleGradeError { left: self.tag, right: rhs.tag },
            ),
    {
        if self.tag == rhs.tag {
            Ok(Element { val: self.val + rhs.val, tag: self.tag })
        } else {
            Err(IncompatibleGradeError { left: self.tag, right: rhs.tag })
        }
    }

    /// The difference of two multiples of the same blade.
    pub fn sub(self, rhs: Element) -> (r: Result<Element, IncompatibleGradeError>)
        requires
            self.tag == rhs.tag ==> fits_i64(self.val - rhs.val),
        ensures
            self.tag == rhs.tag ==> r == Ok::<Element, IncompatibleGradeError>(
                Element { val: (self.val - rhs.val) as i64, tag: self.tag },
            ),
            self.tag != rhs.tag ==> r == Err::<Element, IncompatibleGradeError>(
                IncompatibleGradeError { left: self.tag, right: rhs.tag },
            ),
    {
        if self.tag == rhs.tag {
            Ok(Element { val: self.val - rhs.val, tag: self.tag })
        } else {
            Err(IncompatibleGradeError { left: self.tag, right: rhs.tag })
        }
    }
}

impl GP for Element {
    type Output = Element;

    open spec fn gp_req(self, rhs: Element) -> bool {
        fits_i64(product_value(self, rhs))
    }

    open spec fn gp_spec(self, rhs: Element) -> Element {
        Element { val: product_value(self, rhs) as i64, tag: product_tag(self.tag, rhs.tag) }
    }

    /// The geometric product: `(x·A)(y·B) = (sign · x · y) · C` where
    /// `table(A, B) = (sign, C)`.
    fn gp(self, rhs: Element) -> (r: Element) {
        let (sign, tag) = table(self.tag, rhs.tag);
        let p: i128 = wide_mul(self.val, rhs.val);
        let v: i128 = match sign {
            Sign::Positive => p,
            Sign::Negative => -p,
        };
        Element { val: v as i64, tag }
    }
}

/// The scalar `1` is a two-sided identity of the geometric product:
/// `1·x = x·1 = x` for every element `x`.
pub proof fn lemma_scalar_identity(x: Element)
    ensures
        Element::new_spec(1, Basis::Scalar).gp_req(x),
        Element::new_spec(1, Basis::Scalar).gp_spec(x) == x,
        x.gp_req(Element::new_spec(1, Basis::Scalar)),
        x.gp_spec(Element::new_spec(1, Basis::Scalar)) == x,
{
}

/// The vectors anticommute: `(a·e1)(b·e2) = (a·b)·e12` and
/// `(b·e2)(a·e1) = (−a·b)·e12`.
pub proof fn lemma_anticommutation(a: i64, b: i64)
    ensures
        product_tag(Basis::E1, Basis::E2) == Basis::E12,
        product_value(Element::new_spec(a, Basis::E1), Element::new_spec(b, Basis::E2)) == a * b,
        product_tag(Basis::E2, Basis::E1) == Basis::E12,
        product_value(Element::new_spec(b, Basis::E2), Element::new_spec(a, Basis::E1)) == -(a
            * b),
{
    assert(b * a == a * b) by (nonlinear_arith);
}

/// The bivector squares to `−1`: `(a·e12)(b·e12) = (−a·b)·1`.
pub proof fn lemma_bivector_square(a: i64, b: i64)
    ensures
        product_tag(Basis::E12, Basis::E12) == Basis::Scalar,
        product_value(Element::new_spec(a, Basis::E12), Element::new_spec(b, Basis::E12)) == -(a
            * b),
{
}

/// The table is associative, signs included: `(A·B)·C = A·(B·C)` for all
/// blades.
pub proof fn lemma_table_associative(a: Basis, b: Basis, c: Basis)
    ensures
        product_tag(product_tag(a, b), c) == product_tag(a, product_tag(b, c)),
        sign_value(product_sign(a, b)) * sign_value(product_sign(product_tag(a, b), c))
            == sign_value(product_sign(b, c)) * sign_value(product_sign(a, product_tag(b, c))),
{
}

} // verus!
