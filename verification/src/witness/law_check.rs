//! Checks of algebraic laws on concrete values.
//!
//! Each check evaluates both sides of a law with the given operations and
//! compares them with `==`; on a mismatch it reports the law and the debug
//! text of both sides.
use vstd::prelude::*;
use vstd::std_specs::cmp::PartialEqSpec;
use vstd::pervasive::strictly_cloned;
use core::fmt::Debug;

verus! {

/// A law violation with debug output.
#[derive(Debug)]
pub struct LawViolation {
    /// Name of the violated law.
    pub law: &'static str,
    /// Debug representation of the left-hand side.
    pub left: String,
    /// Debug representation of the right-hand side.
    pub right: String,
}

/// The `{:?}` text of a value.
///
/// Trusted: wraps `format!("{:?}")`; nothing is stated of the text, which
/// depends on the type's `Debug` implementation.
#[verifier::external_body]
fn debug_text<T: Debug>(x: &T) -> String {
    format!("{x:?}")
}

/// The text `s` as an owned string.
fn owned(s: &str) -> (r: String)
    ensures
        r@ == s@,
{
    s.to_owned()
}

impl LawViolation {
    /// The message `Law violation (<law>): <left> != <right>`.
    pub fn to_string(&self) -> (r: String)
        ensures
            r@ == "Law violation ("@ + self.law@ + "): "@ + self.left@ + " != "@ + self.right@,
    {
        let mut r = owned("Law violation (");
        r.append(self.law);
        r.append("): ");
        r.append(self.left.as_str());
        r.append(" != ");
        r.append(self.right.as_str());
        r
    }
}

/// Whether a binary operation accepts every pair.
pub open spec fn total_op<T, F: Fn(T, T) -> T>(op: F) -> bool {
    forall|x: T, y: T| call_requires(op, (x, y))
}

/// Whether a unary operation accepts every value.
pub open spec fn total_unary<T, F: Fn(T) -> T>(f: F) -> bool {
    forall|x: T| call_requires(f, (x,))
}

/// Whether every clone of a `T` equals its original, as it does for the
/// integers, `bool`, `String` and the other types whose `clone` vstd
/// specifies.
pub open spec fn clones_faithfully<T: Clone>() -> bool {
    forall|x: T, c: T| #[trigger] strictly_cloned(x, c) ==> c == x
}

/// The outcome of comparing `left` and `right` for the law `law`: `Ok` when
/// they compare equal (as far as `==` on the type follows its
/// specification), else the violation of that law.
pub open spec fn verdict<T: PartialEq>(r: Result<(), LawViolation>, law: Seq<char>, left: T, right: T) -> bool {
    &&& T::obeys_eq_spec() ==> (r is Ok <==> left.eq_spec(&right))
    &&& r matches Err(v) ==> v.law@ == law
}

/// Compares the two sides of a law.
fn compare<T: PartialEq + Debug>(law: &'static str, left: T, right: T) -> (r: Result<(), LawViolation>)
    ensures
        verdict(r, law@, left, right),
{
    if left == right {
        Ok(())
    } else {
        Err(LawViolation { law, left: debug_text(&left), right: debug_text(&right) })
    }
}

/// A clone of `x`, tied to it by the clone's own contract.
fn clone_val<T: Clone>(x: &T) -> (c: T)
    ensures
        strictly_cloned(*x, c),
        clones_faithfully::<T>() ==> c == *x,
{
    let c = x.clone();
    let ghost gc = c;
    proof {
        assert(call_ensures(T::clone, (x,), gc));
        assert(strictly_cloned(*x, gc));
    }
    c
}

/// Check that `op` is associative for the given triple: `op(op(a', b'), c')`
/// against `op(a, op(b, c))`, where `a'`, `b'`, `c'` are clones of `a`, `b`,
/// `c`.
pub fn check_associativity<T: Clone + PartialEq + Debug, F: Fn(T, T) -> T>(a: T, b: T, c: T, op: F) -> (r:
    Result<(), LawViolation>)
    requires
        total_op(op),
    ensures
        exists|a1: T, b1: T, c1: T, ab: T, left: T, bc: T, right: T|
            #![trigger strictly_cloned(a, a1), strictly_cloned(b, b1), strictly_cloned(c, c1), call_ensures(op, (a1, b1), ab), call_ensures(op, (ab, c1), left), call_ensures(op, (b, c), bc), call_ensures(op, (a, bc), right)]
            strictly_cloned(a, a1) && strictly_cloned(b, b1) && strictly_cloned(c, c1)
                && call_ensures(op, (a1, b1), ab) && call_ensures(op, (ab, c1), left)
                && call_ensures(op, (b, c), bc) && call_ensures(op, (a, bc), right)
                && verdict(r, "associativity"@, left, right),
        clones_faithfully::<T>() ==> exists|ab: T, left: T, bc: T, right: T|
            #![trigger call_ensures(op, (a, b), ab), call_ensures(op, (ab, c), left), call_ensures(op, (b, c), bc), call_ensures(op, (a, bc), right)]
            call_ensures(op, (a, b), ab) && call_ensures(op, (ab, c), left)
                && call_ensures(op, (b, c), bc) && call_ensures(op, (a, bc), right)
                && verdict(r, "associativity"@, left, right),
{
    let ghost (ga, gb, gc) = (a, b, c);
    let a1 = clone_val(&a);
    let b1 = clone_val(&b);
    let ghost (ga1, gb1) = (a1, b1);
    let ab = op(a1, b1);
    let ghost gab = ab;
    let c1 = clone_val(&c);
    let ghost gc1 = c1;
    let left = op(ab, c1);
    let ghost gleft = left;
    let bc = op(b, c);
    let ghost gbc = bc;
    let right = op(a, bc);
    let ghost gright = right;
    let r = compare("associativity", left, right);
    proof {
        assert(call_ensures(op, (ga1, gb1), gab));
        assert(call_ensures(op, (gab, gc1), gleft));
        assert(call_ensures(op, (gb, gc), gbc));
        assert(call_ensures(op, (ga, gbc), gright));
        assert(strictly_cloned(ga, ga1) && strictly_cloned(gb, gb1) && strictly_cloned(gc, gc1));
    }
    r
}


/// Check that `e` is a left identity for `op`: `op(e, a')` against `a`,
/// where `a'` is a clone of `a`.
pub fn check_left_identity<T: Clone + PartialEq + Debug, F: Fn(T, T) -> T>(a: T, e: T, op: F) -> (r: Result<
    (),
    LawViolation,
>)
    requires
        total_op(op),
    ensures
        exists|a1: T, result: T|
            #![trigger strictly_cloned(a, a1), call_ensures(op, (e, a1), result)]
            strictly_cloned(a, a1) && call_ensures(op, (e, a1), result)
                && verdict(r, "left identity"@, result, a),
        clones_faithfully::<T>() ==> exists|result: T|
            call_ensures(op, (e, a), result) && verdict(r, "left identity"@, result, a),
{
    let ghost (ga, ge) = (a, e);
    let a1 = clone_val(&a);
    let ghost ga1 = a1;
    let result = op(e, a1);
    let ghost gresult = result;
    let r = compare("left identity", result, a);
    proof {
        assert(call_ensures(op, (ge, ga1), gresult));
        assert(strictly_cloned(ga, ga1));
    }
    r
}

/// Check that `e` is a right identity for `op`: `op(a', e)` against `a`,
/// where `a'` is a clone of `a`.
pub fn check_right_identity<T: Clone + PartialEq + Debug, F: Fn(T, T) -> T>(a: T, e: T, op: F) -> (r: Result<
    (),
    LawViolation,
>)
    requires
        total_op(op),
    ensures
        exists|a1: T, result: T|
            #![trigger strictly_cloned(a, a1), call_ensures(op, (a1, e), result)]
            strictly_cloned(a, a1) && call_ensures(op, (a1, e), result)
                && verdict(r, "right identity"@, result, a),
        clones_faithfully::<T>() ==> exists|result: T|
            call_ensures(op, (a, e), result) && verdict(r, "right identity"@, result, a),
{
    let ghost (ga, ge) = (a, e);
    let a1 = clone_val(&a);
    let ghost ga1 = a1;
    let result = op(a1, e);
    let ghost gresult = result;
    let r = compare("right identity", result, a);
    proof {
        assert(call_ensures(op, (ga1, ge), gresult));
        assert(strictly_cloned(ga, ga1));
    }
    r
}

/// Check that `op` is commutative for the given pair: `op(a', b')` against
/// `op(b, a)`, where `a'`, `b'` are clones of `a`, `b`.
pub fn check_commutativity<T: Clone + PartialEq + Debug, F: Fn(T, T) -> T>(a: T, b: T, op: F) -> (r: Result<
    (),
    LawViolation,
>)
    requires
        total_op(op),
    ensures
        exists|a1: T, b1: T, left: T, right: T|
            #![trigger strictly_cloned(a, a1), strictly_cloned(b, b1), call_ensures(op, (a1, b1), left), call_ensures(op, (b, a), right)]
            strictly_cloned(a, a1) && strictly_cloned(b, b1) && call_ensures(op, (a1, b1), left)
                && call_ensures(op, (b, a), right) && verdict(r, "commutativity"@, left, right),
        clones_faithfully::<T>() ==> exists|left: T, right: T|
            #![trigger call_ensures(op, (a, b), left), call_ensures(op, (b, a), right)]
            call_ensures(op, (a, b), left) && call_ensures(op, (b, a), right)
                && verdict(r, "commutativity"@, left, right),
{
    let ghost (ga, gb) = (a, b);
    let a1 = clone_val(&a);
    let b1 = clone_val(&b);
    let ghost (ga1, gb1) = (a1, b1);
    let left = op(a1, b1);
    let ghost gleft = left;
    let right = op(b, a);
    let ghost gright = right;
    let r = compare("commutativity", left, right);
    proof {
        assert(call_ensures(op, (ga1, gb1), gleft));
        assert(call_ensures(op, (gb, ga), gright));
        assert(strictly_cloned(ga, ga1) && strictly_cloned(gb, gb1));
    }
    r
}

/// Check that `inv` gives a left inverse under `op` with identity `e`:
/// `op(inv(a'), a)` against `e`, where `a'` is a clone of `a`.
pub fn check_left_inverse<T: Clone + PartialEq + Debug, F: Fn(T, T) -> T, I: Fn(T) -> T>(
    a: T,
    e: T,
    op: F,
    inv: I,
) -> (r: Result<(), LawViolation>)
    requires
        total_op(op),
        total_unary(inv),
    ensures
        exists|a1: T, ia: T, result: T|
            #![trigger strictly_cloned(a, a1), call_ensures(inv, (a1,), ia), call_ensures(op, (ia, a), result)]
            strictly_cloned(a, a1) && call_ensures(inv, (a1,), ia) && call_ensures(op, (ia, a), result)
                && verdict(r, "left inverse"@, result, e),
        clones_faithfully::<T>() ==> exists|ia: T, result: T|
            #![trigger call_ensures(inv, (a,), ia), call_ensures(op, (ia, a), result)]
            call_ensures(inv, (a,), ia) && call_ensures(op, (ia, a), result)
                && verdict(r, "left inverse"@, result, e),
{
    let ghost (ga, ge) = (a, e);
    let a1 = clone_val(&a);
    let ghost ga1 = a1;
    let ia = inv(a1);
    let ghost gia = ia;
    let result = op(ia, a);
    let ghost gresult = result;
    let r = compare("left inverse", result, e);
    proof {
        assert(call_ensures(inv, (ga1,), gia));
        assert(call_ensures(op, (gia, ga), gresult));
        assert(strictly_cloned(ga, ga1));
    }
    r
}

/// Check that `inv` gives a right inverse under `op` with identity `e`:
/// `op(a', inv(a))` against `e`, where `a'` is a clone of `a`.
pub fn check_right_inverse<T: Clone + PartialEq + Debug, F: Fn(T, T) -> T, I: Fn(T) -> T>(
    a: T,
    e: T,
    op: F,
    inv: I,
) -> (r: Result<(), LawViolation>)
    requires
        total_op(op),
        total_unary(inv),
    ensures
        exists|a1: T, ia: T, result: T|
            #![trigger strictly_cloned(a, a1), call_ensures(inv, (a,), ia), call_ensures(op, (a1, ia), result)]
            strictly_cloned(a, a1) && call_ensures(inv, (a,), ia) && call_ensures(op, (a1, ia), result)
                && verdict(r, "right inverse"@, result, e),
        clones_faithfully::<T>() ==> exists|ia: T, result: T|
            #![trigger call_ensures(inv, (a,), ia), call_ensures(op, (a, ia), result)]
            call_ensures(inv, (a,), ia) && call_ensures(op, (a, ia), result)
                && verdict(r, "right inverse"@, result, e),
{
    let ghost (ga, ge) = (a, e);
    let a1 = clone_val(&a);
    let ghost ga1 = a1;
    let ia = inv(a);
    let ghost gia = ia;
    let result = op(a1, ia);
    let ghost gresult = result;
    let r = compare("right inverse", result, e);
    proof {
        assert(call_ensures(inv, (ga,), gia));
        assert(call_ensures(op, (ga1, gia), gresult));
        assert(strictly_cloned(ga, ga1));
    }
    r
}

/// Check left distributivity: `a' * (b' + c')` against `a''*b + a*c`, where
/// the primed values are clones.
pub fn check_left_distributivity<T: Clone + PartialEq + Debug, F: Fn(T, T) -> T, G: Fn(T, T) -> T>(
    a: T,
    b: T,
    c: T,
    add_op: F,
    mul_op: G,
) -> (r: Result<(), LawViolation>)
    requires
        total_op(add_op),
        total_op(mul_op),
    ensures
        exists|a1: T, b1: T, c1: T, bc: T, left: T, a2: T, ab: T, ac: T, right: T|
            #![trigger strictly_cloned(a, a1), strictly_cloned(b, b1), strictly_cloned(c, c1), call_ensures(add_op, (b1, c1), bc), call_ensures(mul_op, (a1, bc), left), strictly_cloned(a, a2), call_ensures(mul_op, (a2, b), ab), call_ensures(mul_op, (a, c), ac), call_ensures(add_op, (ab, ac), right)]
            strictly_cloned(a, a1) && strictly_cloned(b, b1) && strictly_cloned(c, c1)
                && call_ensures(add_op, (b1, c1), bc) && call_ensures(mul_op, (a1, bc), left)
                && strictly_cloned(a, a2) && call_ensures(mul_op, (a2, b), ab)
                && call_ensures(mul_op, (a, c), ac) && call_ensures(add_op, (ab, ac), right)
                && verdict(r, "left distributivity"@, left, right),
        clones_faithfully::<T>() ==> exists|bc: T, left: T, ab: T, ac: T, right: T|
            #![trigger call_ensures(add_op, (b, c), bc), call_ensures(mul_op, (a, bc), left), call_ensures(mul_op, (a, b), ab), call_ensures(mul_op, (a, c), ac), call_ensures(add_op, (ab, ac), right)]
            call_ensures(add_op, (b, c), bc) && call_ensures(mul_op, (a, bc), left)
                && call_ensures(mul_op, (a, b), ab) && call_ensures(mul_op, (a, c), ac)
                && call_ensures(add_op, (ab, ac), right)
                && verdict(r, "left distributivity"@, left, right),
{
    let ghost (ga, gb, gc) = (a, b, c);
    let a1 = clone_val(&a);
    let b1 = clone_val(&b);
    let c1 = clone_val(&c);
    let ghost (ga1, gb1, gc1) = (a1, b1, c1);
    let bc = add_op(b1, c1);
    let ghost gbc = bc;
    let left = mul_op(a1, bc);
    let ghost gleft = left;
    let a2 = clone_val(&a);
    let ghost ga2 = a2;
    let ab = mul_op(a2, b);
    let ghost gab = ab;
    let ac = mul_op(a, c);
    let ghost gac = ac;
    let right = add_op(ab, ac);
    let ghost gright = right;
    let r = compare("left distributivity", left, right);
    proof {
        assert(call_ensures(add_op, (gb1, gc1), gbc));
        assert(call_ensures(mul_op, (ga1, gbc), gleft));
        assert(call_ensures(mul_op, (ga2, gb), gab));
        assert(call_ensures(mul_op, (ga, gc), gac));
        assert(call_ensures(add_op, (gab, gac), gright));
        assert(strictly_cloned(ga, ga1) && strictly_cloned(gb, gb1) && strictly_cloned(gc, gc1));
        assert(strictly_cloned(ga, ga2));
    }
    r
}

/// Check right distributivity: `(a' + b') * c'` against `a*c'' + b*c`, where
/// the primed values are clones.
pub fn check_right_distributivity<T: Clone + PartialEq + Debug, F: Fn(T, T) -> T, G: Fn(T, T) -> T>(
    a: T,
    b: T,
    c: T,
    add_op: F,
    mul_op: G,
) -> (r: Result<(), LawViolation>)
    requires
        total_op(add_op),
        total_op(mul_op),
    ensures
        exists|a1: T, b1: T, ab: T, c1: T, left: T, c2: T, ac: T, bc: T, right: T|
            #![trigger strictly_cloned(a, a1), strictly_cloned(b, b1), call_ensures(add_op, (a1, b1), ab), strictly_cloned(c, c1), call_ensures(mul_op, (ab, c1), left), strictly_cloned(c, c2), call_ensures(mul_op, (a, c2), ac), call_ensures(mul_op, (b, c), bc), call_ensures(add_op, (ac, bc), right)]
            strictly_cloned(a, a1) && strictly_cloned(b, b1) && call_ensures(add_op, (a1, b1), ab)
                && strictly_cloned(c, c1) && call_ensures(mul_op, (ab, c1), left)
                && strictly_cloned(c, c2) && call_ensures(mul_op, (a, c2), ac)
                && call_ensures(mul_op, (b, c), bc) && call_ensures(add_op, (ac, bc), right)
                && verdict(r, "right distributivity"@, left, right),
        clones_faithfully::<T>() ==> exists|ab: T, left: T, ac: T, bc: T, right: T|
            #![trigger call_ensures(add_op, (a, b), ab), call_ensures(mul_op, (ab, c), left), call_ensures(mul_op, (a, c), ac), call_ensures(mul_op, (b, c), bc), call_ensures(add_op, (ac, bc), right)]
            call_ensures(add_op, (a, b), ab) && call_ensures(mul_op, (ab, c), left)
                && call_ensures(mul_op, (a, c), ac) && call_ensures(mul_op, (b, c), bc)
                && call_ensures(add_op, (ac, bc), right)
                && verdict(r, "right distributivity"@, left, right),
{
    let ghost (ga, gb, gc) = (a, b, c);
    let a1 = clone_val(&a);
    let b1 = clone_val(&b);
    let ghost (ga1, gb1) = (a1, b1);
    let ab = add_op(a1, b1);
    let ghost gab = ab;
    let c1 = clone_val(&c);
    let ghost gc1 = c1;
    let left = mul_op(ab, c1);
    let ghost gleft = left;
    let c2 = clone_val(&c);
    let ghost gc2 = c2;
    let ac = mul_op(a, c2);
    let ghost gac = ac;
    let bc = mul_op(b, c);
    let ghost gbc = bc;
    let right = add_op(ac, bc);
    let ghost gright = right;
    let r = compare("right distributivity", left, right);
    proof {
        assert(call_ensures(add_op, (ga1, gb1), gab));
        assert(call_ensures(mul_op, (gab, gc1), gleft));
        assert(call_ensures(mul_op, (ga, gc2), gac));
        assert(call_ensures(mul_op, (gb, gc), gbc));
        assert(call_ensures(add_op, (gac, gbc), gright));
        assert(strictly_cloned(ga, ga1) && strictly_cloned(gb, gb1) && strictly_cloned(gc, gc1));
        assert(strictly_cloned(gc, gc2));
    }
    r
}

/// Check idempotency: `op(a', a'')` against `a`, where `a'`, `a''` are clones
/// of `a`.
pub fn check_idempotency<T: Clone + PartialEq + Debug, F: Fn(T, T) -> T>(a: T, op: F) -> (r: Result<
    (),
    LawViolation,
>)
    requires
        total_op(op),
    ensures
        exists|a1: T, a2: T, result: T|
            #![trigger strictly_cloned(a, a1), strictly_cloned(a, a2), call_ensures(op, (a1, a2), result)]
            strictly_cloned(a, a1) && strictly_cloned(a, a2) && call_ensures(op, (a1, a2), result)
                && verdict(r, "idempotency"@, result, a),
        clones_faithfully::<T>() ==> exists|result: T|
            call_ensures(op, (a, a), result) && verdict(r, "idempotency"@, result, a),
{
    let ghost ga = a;
    let a1 = clone_val(&a);
    let a2 = clone_val(&a);
    let ghost (ga1, ga2) = (a1, a2);
    let result = op(a1, a2);
    let ghost gresult = result;
    let r = compare("idempotency", result, a);
    proof {
        assert(call_ensures(op, (ga1, ga2), gresult));
        assert(strictly_cloned(ga, ga1) && strictly_cloned(ga, ga2));
    }
    r
}

/// Check absorption: `meet(a', join(a'', b))` against `a`, where `a'`, `a''`
/// are clones of `a`.
pub fn check_absorption<T: Clone + PartialEq + Debug, F: Fn(T, T) -> T, G: Fn(T, T) -> T>(
    a: T,
    b: T,
    meet: F,
    join: G,
) -> (r: Result<(), LawViolation>)
    requires
        total_op(meet),
        total_op(join),
    ensures
        exists|a1: T, a2: T, ab: T, result: T|
            #![trigger strictly_cloned(a, a1), strictly_cloned(a, a2), call_ensures(join, (a2, b), ab), call_ensures(meet, (a1, ab), result)]
            strictly_cloned(a, a1) && strictly_cloned(a, a2) && call_ensures(join, (a2, b), ab)
                && call_ensures(meet, (a1, ab), result) && verdict(r, "absorption"@, result, a),
        clones_faithfully::<T>() ==> exists|ab: T, result: T|
            #![trigger call_ensures(join, (a, b), ab), call_ensures(meet, (a, ab), result)]
            call_ensures(join, (a, b), ab) && call_ensures(meet, (a, ab), result)
                && verdict(r, "absorption"@, result, a),
{
    let ghost (ga, gb) = (a, b);
    let a1 = clone_val(&a);
    let a2 = clone_val(&a);
    let ghost (ga1, ga2) = (a1, a2);
    let ab = join(a2, b);
    let ghost gab = ab;
    let result = meet(a1, ab);
    let ghost gresult = result;
    let r = compare("absorption", result, a);
    proof {
        assert(call_ensures(join, (ga2, gb), gab));
        assert(call_ensures(meet, (ga1, gab), gresult));
        assert(strictly_cloned(ga, ga1) && strictly_cloned(ga, ga2));
    }
    r
}

} // verus!
