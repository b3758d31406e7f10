use karpal::recursion::either::Either;

#[test]
fn either_left() {
    let e: Either<i32, &str> = Either::Left(42);
    let result = e.either(|x: i32| x.to_string(), |s: &str| s.to_string());
    assert_eq!(result, "42");
}

#[test]
fn either_right() {
    let e: Either<i32, &str> = Either::Right("hello");
    let result = e.either(|x: i32| x.to_string(), |s: &str| s.to_string());
    assert_eq!(result, "hello");
}

#[test]
fn map_left() {
    let e: Either<i32, &str> = Either::Left(10);
    let mapped = e.map_left(|x: i32| x * 2);
    match mapped {
        Either::Left(v) => assert_eq!(v, 20),
        Either::Right(_) => panic!("expected Left"),
    }
}

#[test]
fn map_right() {
    let e: Either<i32, i32> = Either::Right(5);
    let mapped = e.map_right(|x: i32| x + 1);
    match mapped {
        Either::Right(v) => assert_eq!(v, 6),
        Either::Left(_) => panic!("expected Right"),
    }
}

#[test]
fn map_left_on_right_is_noop() {
    let e: Either<i32, &str> = Either::Right("hi");
    let mapped = e.map_left(|x: i32| x * 100);
    match mapped {
        Either::Right(s) => assert_eq!(s, "hi"),
        Either::Left(_) => panic!("expected Right"),
    }
}

#[test]
fn map_right_on_left_is_noop() {
    let e: Either<i32, i32> = Either::Left(7);
    let mapped = e.map_right(|x: i32| x * 100);
    match mapped {
        Either::Left(v) => assert_eq!(v, 7),
        Either::Right(_) => panic!("expected Left"),
    }
}

#[test]
fn map_left_composes_and_commutes_with_map_right() {
    let e: Either<i32, &str> = Either::Left(3);
    match e.map_left(|x: i32| x + 1).map_left(|x: i32| x * 10) {
        Either::Left(v) => assert_eq!(v, 40),
        Either::Right(_) => panic!("expected Left"),
    }
    let a: Either<i32, i32> = Either::Right(2);
    let b: Either<i32, i32> = Either::Right(2);
    let x = a.map_left(|l: i32| l + 1).map_right(|r: i32| r * 7);
    let y = b.map_right(|r: i32| r * 7).map_left(|l: i32| l + 1);
    match (x, y) {
        (Either::Right(p), Either::Right(q)) => assert_eq!((p, q), (14, 14)),
        _ => panic!("expected Right"),
    }
    let id: Either<u8, u8> = Either::Left(9);
    match id.map_left(|l: u8| l) {
        Either::Left(v) => assert_eq!(v, 9),
        Either::Right(_) => panic!("expected Left"),
    }
}
