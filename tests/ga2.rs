use aha::ga2::Basis::{Scalar, E1, E12, E2};
use aha::ga2::Sign::{Negative, Positive};
use aha::ga2::{table, Basis, Element, IncompatibleGradeError};
use aha::GP;

#[test]
fn test_() {
    println!(
        "{} {}",
        std::mem::size_of::<(i64, Basis)>(),
        std::mem::size_of_val(&(2_i64, Basis::Scalar))
    );
}

#[test]
fn test_elements_construct() {
    assert!(Element::new(2, Basis::Scalar).val == 2);
    assert!(Element::new(2, Basis::E1).val == 2);
    assert!(Element::new(2, Basis::E2).val == 2);
    assert!(Element::new(2, Basis::E12).val == 2);
}

#[test]
fn test_element_cmp() {
    assert!(Element::new(2, Basis::Scalar) == Element::new(2, Basis::Scalar));
    assert!(Element::new(3, Basis::Scalar) != Element::new(2, Basis::Scalar));
    assert!(Element::new(2, Basis::E12) == Element::new(2, Basis::E12));
    assert!(Element::new(3, Basis::E12) != Element::new(2, Basis::E12));
}

#[test]
fn test_element_scale() {
    assert!(Element::new(2, Basis::Scalar).scale(3).val == 6);
    assert!(Element::new(2, Basis::E1).scale(3).val == 6);
    assert!(Element::new(2, Basis::E2).scale(3).val == 6);
    assert!(Element::new(2, Basis::E12).scale(3).val == 6);
}

#[test]
fn test_elemet_ga() {
    assert!(Element::new(2, Basis::E1).gp(Element::new(3, Basis::E1)).val == 6);
}

#[test]
fn table_has_every_entry() {
    let expected = [
        [(Positive, Scalar), (Positive, E1), (Positive, E2), (Positive, E12)],
        [(Positive, E1), (Positive, Scalar), (Positive, E12), (Positive, E2)],
        [(Positive, E2), (Negative, E12), (Positive, Scalar), (Negative, E1)],
        [(Positive, E12), (Negative, E2), (Positive, E1), (Negative, Scalar)],
    ];
    let tags = [Scalar, E1, E2, E12];
    for (i, a) in tags.iter().enumerate() {
        for (j, b) in tags.iter().enumerate() {
            assert_eq!(table(*a, *b), expected[i][j]);
        }
    }
}

#[test]
fn scalar_one_is_identity() {
    let one = Element::new(1, Basis::Scalar);
    for tag in [Basis::Scalar, Basis::E1, Basis::E2, Basis::E12] {
        let x = Element::new(-7, tag);
        assert_eq!(one.gp(x), x);
        assert_eq!(x.gp(one), x);
    }
}

#[test]
fn vectors_anticommute() {
    let a = Element::new(3, Basis::E1);
    let b = Element::new(5, Basis::E2);
    assert_eq!(a.gp(b), Element::new(15, Basis::E12));
    assert_eq!(b.gp(a), Element::new(-15, Basis::E12));
}

#[test]
fn bivector_squares_to_minus_one() {
    let a = Element::new(4, Basis::E12);
    let b = Element::new(-6, Basis::E12);
    assert_eq!(a.gp(b), Element::new(24, Basis::Scalar));
    assert_eq!(a.gp(a), Element::new(-16, Basis::Scalar));
}

#[test]
fn product_is_associative_on_a_sample() {
    let x = Element::new(2, Basis::E2);
    let y = Element::new(3, Basis::E12);
    let z = Element::new(5, Basis::E1);
    assert_eq!(x.gp(y).gp(z), x.gp(y.gp(z)));
    assert_eq!(x.gp(y).gp(z), Element::new(-30, Basis::Scalar));
}

#[test]
fn add_and_sub_on_one_blade() {
    let a = Element::new(7, Basis::E2);
    let b = Element::new(-3, Basis::E2);
    assert_eq!(a.add(b), Ok(Element::new(4, Basis::E2)));
    assert_eq!(a.sub(b), Ok(Element::new(10, Basis::E2)));
    assert_eq!(a.equals(&b), Ok(false));
    assert_eq!(a.equals(&a), Ok(true));
}

#[test]
fn mixing_blades_is_an_error() {
    let a = Element::new(1, Basis::E1);
    let b = Element::new(1, Basis::E2);
    let err = IncompatibleGradeError { left: Basis::E1, right: Basis::E2 };
    assert_eq!(a.add(b), Err(err));
    assert_eq!(a.sub(b), Err(err));
    assert_eq!(a.equals(&b), Err(err));
}
