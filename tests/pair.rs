use aha::pair::{Complex, SplitComplex};

#[test]
fn complex_add_sub() {
    let z1 = Complex::new(1, 2);
    let z2 = Complex::new(-4, 7);
    assert_eq!(z1 + z2, Complex::new(-3, 9));
    assert_eq!(z1 - z2, Complex::new(5, -5));
}

#[test]
fn complex_mul_matches_complex_numbers() {
    let z1 = Complex::new(3, 2);
    let z2 = Complex::new(1, -4);
    // (3 + 2i)(1 - 4i) = 3 - 12i + 2i + 8 = 11 - 10i
    assert_eq!(z1 * z2, Complex::new(11, -10));
    assert_eq!(Complex::new(0, 1) * Complex::new(0, 1), Complex::new(-1, 0));
}

#[test]
fn split_complex_unit_squares_to_one() {
    assert_eq!(SplitComplex::new(0, 1) * SplitComplex::new(0, 1), SplitComplex::new(1, 0));
    // (3 + 2u)(1 - 4u) = 3 - 12u + 2u - 8 = -5 - 10u
    assert_eq!(SplitComplex::new(3, 2) * SplitComplex::new(1, -4), SplitComplex::new(-5, -10));
}

#[test]
fn conjugate_and_negate() {
    let z = Complex::new(3, -8);
    assert_eq!(!z, Complex::new(3, 8));
    assert_eq!(!!z, z);
    assert_eq!(-z, Complex::new(-3, 8));
}

#[test]
fn scale_and_divide() {
    let z = Complex::new(-7, 9);
    assert_eq!(z.scale(3), Complex::new(-21, 27));
    assert_eq!(z.div_scalar(2), Complex::new(-4, 4));
    assert_eq!(z.rem_scalar(2), Complex::new(1, 1));
    assert_eq!(z.div_pair(Complex::new(2, -4)), Complex::new(-4, -3));
    assert_eq!(z.rem_pair(Complex::new(2, -4)), Complex::new(1, -3));
}

#[test]
fn order_is_by_first_component() {
    let z1 = Complex::new(1, 100);
    let z2 = Complex::new(2, -100);
    assert!(z1.lt(&z2));
    assert!(z1.le(&z2));
    assert!(z2.gt(&z1));
    assert!(z2.ge(&z1));
    assert!(z1.le(&Complex::new(1, 0)));
    assert!(!z1.lt(&Complex::new(1, 0)));
}

#[test]
fn norm_rounds_down() {
    assert_eq!(Complex::new(3, 4).norm(), 5);
    assert_eq!(Complex::new(-3, -4).norm(), 5);
    assert_eq!(Complex::new(1, 1).norm(), 1);
    assert_eq!(Complex::new(0, 0).norm(), 0);
    assert_eq!(Complex::new(i64::MIN, i64::MIN).norm(), 13043817825332782212);
}

#[test]
fn floored_division() {
    assert_eq!(Complex::new(-7, 7).div_scalar(-2), Complex::new(3, -4));
    assert_eq!(Complex::new(7, 8).div_scalar(3), Complex::new(2, 2));
    assert_eq!(Complex::new(-7, 7).rem_scalar(-2), Complex::new(-1, -1));
    assert_eq!(Complex::new(i64::MIN, 5).div_scalar(2), Complex::new(i64::MIN / 2, 2));
}
