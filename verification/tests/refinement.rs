use karpal::algebra::Semigroup;
use karpal::witness::refinement::{NonEmpty, Positive};

#[test]
fn non_empty_try_new() {
    assert!(NonEmpty::try_new(Vec::<i32>::new()).is_none());
    let ne = NonEmpty::try_new(vec![1, 2, 3]).unwrap();
    assert_eq!(*ne.head(), 1);
    assert_eq!(ne.len(), 3);
}

#[test]
fn non_empty_from_parts() {
    let ne = NonEmpty::from_parts(10, vec![20, 30]);
    assert_eq!(*ne.head(), 10);
    assert_eq!(ne.as_slice(), &[10, 20, 30]);
}

#[test]
fn non_empty_singleton() {
    let ne = NonEmpty::singleton(42);
    assert_eq!(*ne.head(), 42);
    assert_eq!(ne.len(), 1);
}

#[test]
fn non_empty_push() {
    let mut ne = NonEmpty::singleton(1);
    ne.push(2);
    assert_eq!(ne.len(), 2);
    assert_eq!(ne.as_slice(), &[1, 2]);
}

#[test]
fn non_empty_map() {
    let ne = NonEmpty::from_parts(1, vec![2, 3]);
    let doubled = ne.map(|x: i32| x * 2);
    assert_eq!(doubled.as_slice(), &[2, 4, 6]);
}

#[test]
fn non_empty_into_vec() {
    let ne = NonEmpty::from_parts(1, vec![2]);
    assert_eq!(ne.into_vec(), vec![1, 2]);
}

#[test]
fn non_empty_iter() {
    let ne = NonEmpty::from_parts(1, vec![2, 3]);
    let sum: i32 = ne.iter().sum();
    assert_eq!(sum, 6);
}

#[test]
fn non_empty_semigroup() {
    let a = NonEmpty::from_parts(1, vec![2]);
    let b = NonEmpty::from_parts(3, vec![4]);
    let c = a.combine(b);
    assert_eq!(c.as_slice(), &[1, 2, 3, 4]);
}

#[test]
fn non_empty_is_never_empty() {
    let ne = NonEmpty::singleton("x");
    assert!(!ne.is_empty());
}

#[test]
fn positive_i32() {
    assert!(Positive::<i32>::try_new(0).is_none());
    assert!(Positive::<i32>::try_new(-5).is_none());
    let p = Positive::<i32>::try_new(7).unwrap();
    assert_eq!(p.get(), 7);
}

#[test]
fn positive_u32() {
    assert!(Positive::<u32>::try_new(0).is_none());
    let p = Positive::<u32>::try_new(10).unwrap();
    assert_eq!(p.get(), 10);
}

#[test]
fn positive_u32_from_nonzero() {
    assert!(Positive::<u32>::from_nonzero(0).is_none());
    let p = Positive::<u32>::from_nonzero(5).unwrap();
    assert_eq!(p.get(), 5);
}

#[test]
fn positive_other_widths() {
    assert!(Positive::<i8>::try_new(-1).is_none());
    assert_eq!(Positive::<i64>::try_new(9).unwrap().get(), 9);
    assert_eq!(Positive::<u8>::from_nonzero(255).unwrap().get(), 255);
    assert!(Positive::<u128>::from_nonzero(0).is_none());
}

#[test]
fn non_empty_clone_stays_non_empty() {
    let mut ne = NonEmpty::from_parts("a".to_string(), vec!["b".to_string()]);
    let copy = ne.clone();
    ne.push("c".to_string());
    assert_eq!(copy.len(), 2);
    assert!(!copy.is_empty());
    assert_eq!(copy.head(), "a");
    assert_eq!(copy.as_slice(), &["a".to_string(), "b".to_string()]);
    assert_eq!(ne.len(), 3);
    assert_ne!(ne, copy);
    assert_eq!(copy, NonEmpty::from_parts("a".to_string(), vec!["b".to_string()]));
    assert!(NonEmpty::singleton(1) < NonEmpty::singleton(2));
}

#[test]
fn positive_is_copy() {
    let p = Positive::<u16>::try_new(3).unwrap();
    let q = p;
    assert_eq!(p.get(), q.get());
    assert_eq!(p, q.clone());
    assert!(Positive::<u16>::try_new(2).unwrap() < p);
}
