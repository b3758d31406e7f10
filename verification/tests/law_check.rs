use karpal::witness::law_check::{
    LawViolation, check_absorption, check_associativity, check_commutativity, check_idempotency,
    check_left_distributivity, check_left_identity, check_left_inverse,
    check_right_distributivity, check_right_identity, check_right_inverse,
};

#[test]
fn associativity_holds_for_addition() {
    assert!(check_associativity(1i32, 2, 3, |a: i32, b: i32| a.wrapping_add(b)).is_ok());
}

#[test]
fn associativity_fails_for_subtraction() {
    assert!(check_associativity(10i32, 5, 3, |a: i32, b: i32| a - b).is_err());
}

#[test]
fn identity_holds() {
    assert!(check_left_identity(5i32, 0, |a: i32, b: i32| a + b).is_ok());
    assert!(check_right_identity(5i32, 0, |a: i32, b: i32| a + b).is_ok());
}

#[test]
fn commutativity_holds_for_addition() {
    assert!(check_commutativity(3i32, 7, |a: i32, b: i32| a.wrapping_add(b)).is_ok());
}

#[test]
fn commutativity_fails_for_subtraction() {
    assert!(check_commutativity(3i32, 7, |a: i32, b: i32| a - b).is_err());
}

#[test]
fn inverse_holds() {
    assert!(check_left_inverse(5i32, 0, |a: i32, b: i32| a + b, |a: i32| -a).is_ok());
    assert!(check_right_inverse(5i32, 0, |a: i32, b: i32| a + b, |a: i32| -a).is_ok());
}

#[test]
fn distributivity_holds_for_integers() {
    assert!(
        check_left_distributivity(
            2i32,
            3,
            4,
            |a: i32, b: i32| a.wrapping_add(b),
            |a: i32, b: i32| a.wrapping_mul(b),
        )
        .is_ok()
    );
    assert!(
        check_right_distributivity(
            2i32,
            3,
            4,
            |a: i32, b: i32| a.wrapping_add(b),
            |a: i32, b: i32| a.wrapping_mul(b),
        )
        .is_ok()
    );
}

#[test]
fn idempotency_holds_for_min() {
    assert!(check_idempotency(5i32, |a: i32, b: i32| a.min(b)).is_ok());
}

#[test]
fn idempotency_fails_for_addition() {
    // 5 + 5 = 10 != 5
    assert!(check_idempotency(5i32, |a: i32, b: i32| a + b).is_err());
}

#[test]
fn absorption_holds_for_bool() {
    assert!(check_absorption(true, false, |a: bool, b: bool| a && b, |a: bool, b: bool| a || b).is_ok());
    assert!(check_absorption(false, true, |a: bool, b: bool| a && b, |a: bool, b: bool| a || b).is_ok());
}

#[test]
fn law_violation_display() {
    let v = LawViolation { law: "test", left: "1".into(), right: "2".into() };
    assert_eq!(v.to_string(), "Law violation (test): 1 != 2");
}

#[test]
fn violation_reports_law_and_both_sides() {
    let err = check_associativity(10i32, 5, 3, |a: i32, b: i32| a - b).unwrap_err();
    assert_eq!(err.law, "associativity");
    assert_eq!(err.left, "2");
    assert_eq!(err.right, "8");
    let err = check_left_inverse(5i32, 1, |a: i32, b: i32| a + b, |a: i32| -a).unwrap_err();
    assert_eq!(err.law, "left inverse");
    assert_eq!(err.to_string(), "Law violation (left inverse): 0 != 1");
    let err = check_absorption(true, false, |a: bool, b: bool| a || b, |a: bool, b: bool| a && b);
    assert!(err.is_ok());
    let err = check_right_distributivity(1i32, 1, 2, |a: i32, b: i32| a * b, |a: i32, b: i32| a + b)
        .unwrap_err();
    assert_eq!(err.law, "right distributivity");
}

#[test]
fn laws_on_strings_and_vectors() {
    let concat = |a: String, b: String| a + &b;
    assert!(check_associativity("ab".to_string(), "c".to_string(), "de".to_string(), concat).is_ok());
    assert!(check_left_identity("xyz".to_string(), String::new(), concat).is_ok());
    assert!(check_right_identity("xyz".to_string(), String::new(), concat).is_ok());
    let err = check_commutativity("a".to_string(), "b".to_string(), concat).unwrap_err();
    assert_eq!(err.law, "commutativity");
    assert_eq!(err.left, "\"ab\"");
    assert_eq!(err.right, "\"ba\"");
    let err = check_idempotency(vec![1u8, 2], |mut a: Vec<u8>, b: Vec<u8>| {
        a.extend(b);
        a
    })
    .unwrap_err();
    assert_eq!(err.left, "[1, 2, 1, 2]");
    assert_eq!(err.right, "[1, 2]");
}

#[test]
fn idempotency_violation_shows_both_sides() {
    let err = check_idempotency(5i32, |a: i32, b: i32| a + b).unwrap_err();
    assert_eq!(err.law, "idempotency");
    assert_eq!(err.left, "10");
    assert_eq!(err.right, "5");
}
