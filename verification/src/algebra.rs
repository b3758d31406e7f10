//! Algebraic structures with their laws, stated on the values' views.
use vstd::prelude::*;
use vstd::string::StringExecFns;
use vstd::arithmetic::div_mod::{lemma_fundamental_div_mod, lemma_mod_multiples_vanish};
use vstd::wrapping::i32_specs::signed_crop;

verus! {

/// A type with an associative binary operation.
pub trait Semigroup: View + Sized {
    /// The operation, on views.
    spec fn combine_spec(a: Self::V, b: Self::V) -> Self::V;

    /// The operation is associative.
    proof fn lemma_associative(a: Self::V, b: Self::V, c: Self::V)
        ensures
            Self::combine_spec(Self::combine_spec(a, b), c) == Self::combine_spec(
                a,
                Self::combine_spec(b, c),
            ),
    ;

    /// Combines two values.
    fn combine(self, other: Self) -> (r: Self)
        ensures
            r@ == Self::combine_spec(self@, other@),
    ;
}

/// A semigroup with an identity element.
pub trait Monoid: Semigroup {
    /// The identity, as a view.
    spec fn empty_spec() -> Self::V;

    /// The identity is neutral on both sides.
    proof fn lemma_identity(a: Self::V)
        ensures
            Self::combine_spec(Self::empty_spec(), a) == a,
            Self::combine_spec(a, Self::empty_spec()) == a,
    ;

    /// The identity element.
    fn empty() -> (r: Self)
        ensures
            r@ == Self::empty_spec(),
    ;
}

/// Strings under concatenation.
impl Semigroup for String {
    open spec fn combine_spec(a: Seq<char>, b: Seq<char>) -> Seq<char> {
        a + b
    }

    proof fn lemma_associative(a: Seq<char>, b: Seq<char>, c: Seq<char>) {
        assert((a + b) + c =~= a + (b + c));
    }

    fn combine(self, other: Self) -> (r: Self) {
        let mut r = self;
        r.append(other.as_str());
        r
    }
}

impl Monoid for String {
    open spec fn empty_spec() -> Seq<char> {
        Seq::empty()
    }

    proof fn lemma_identity(a: Seq<char>) {
        assert(Seq::<char>::empty() + a =~= a);
        assert(a + Seq::<char>::empty() =~= a);
    }

    fn empty() -> (r: Self) {
        String::new()
    }
}

/// A monoid in which every element has an inverse.
pub trait Group: Monoid {
    /// The inverse, on views.
    spec fn invert_spec(a: Self::V) -> Self::V;

    /// The inverse cancels on both sides.
    proof fn lemma_inverse(a: Self::V)
        ensures
            Self::combine_spec(Self::invert_spec(a), a) == Self::empty_spec(),
            Self::combine_spec(a, Self::invert_spec(a)) == Self::empty_spec(),
    ;

    /// The inverse of a value.
    fn invert(self) -> (r: Self)
        ensures
            r@ == Self::invert_spec(self@),
    ;
}

/// A group whose operation is commutative.
pub trait AbelianGroup: Group {
    /// The operation is commutative.
    proof fn lemma_commutative(a: Self::V, b: Self::V)
        ensures
            Self::combine_spec(a, b) == Self::combine_spec(b, a),
    ;
}

/// Two operations: a commutative monoid `add` with identity `zero` and a
/// monoid `mul` with identity `one`, where `mul` distributes over `add` and
/// `zero` annihilates.
pub trait Semiring: View + Sized {
    /// Addition, on views.
    spec fn add_spec(a: Self::V, b: Self::V) -> Self::V;

    /// Multiplication, on views.
    spec fn mul_spec(a: Self::V, b: Self::V) -> Self::V;

    /// The additive identity.
    spec fn zero_spec() -> Self::V;

    /// The multiplicative identity.
    spec fn one_spec() -> Self::V;

    /// The semiring laws.
    proof fn lemma_semiring(a: Self::V, b: Self::V, c: Self::V)
        ensures
            Self::add_spec(Self::add_spec(a, b), c) == Self::add_spec(a, Self::add_spec(b, c)),
            Self::add_spec(a, b) == Self::add_spec(b, a),
            Self::add_spec(Self::zero_spec(), a) == a,
            Self::mul_spec(Self::mul_spec(a, b), c) == Self::mul_spec(a, Self::mul_spec(b, c)),
            Self::mul_spec(Self::one_spec(), a) == a,
            Self::mul_spec(a, Self::one_spec()) == a,
            Self::mul_spec(a, Self::add_spec(b, c)) == Self::add_spec(
                Self::mul_spec(a, b),
                Self::mul_spec(a, c),
            ),
            Self::mul_spec(Self::add_spec(a, b), c) == Self::add_spec(
                Self::mul_spec(a, c),
                Self::mul_spec(b, c),
            ),
            Self::mul_spec(Self::zero_spec(), a) == Self::zero_spec(),
            Self::mul_spec(a, Self::zero_spec()) == Self::zero_spec(),
    ;

    /// Adds two values.
    fn add(self, other: Self) -> (r: Self)
        ensures
            r@ == Self::add_spec(self@, other@),
    ;

    /// Multiplies two values.
    fn mul(self, other: Self) -> (r: Self)
        ensures
            r@ == Self::mul_spec(self@, other@),
    ;

    /// The additive identity.
    fn zero() -> (r: Self)
        ensures
            r@ == Self::zero_spec(),
    ;

    /// The multiplicative identity.
    fn one() -> (r: Self)
        ensures
            r@ == Self::one_spec(),
    ;
}

/// A semiring with additive inverses.
pub trait Ring: Semiring {
    /// The additive inverse, on views.
    spec fn negate_spec(a: Self::V) -> Self::V;

    /// A value plus its negation is zero.
    proof fn lemma_negate(a: Self::V)
        ensures
            Self::add_spec(a, Self::negate_spec(a)) == Self::zero_spec(),
    ;

    /// The additive inverse of a value.
    fn negate(self) -> (r: Self)
        ensures
            r@ == Self::negate_spec(self@),
    ;
}

/// A commutative ring in which every nonzero value has a reciprocal.
pub trait Field: Ring {
    /// The reciprocal, on views.
    spec fn reciprocal_spec(a: Self::V) -> Self::V;

    /// Multiplication commutes, and a nonzero value times its reciprocal is
    /// one.
    proof fn lemma_field(a: Self::V, b: Self::V)
        ensures
            Self::mul_spec(a, b) == Self::mul_spec(b, a),
            a != Self::zero_spec() ==> Self::mul_spec(a, Self::reciprocal_spec(a))
                == Self::one_spec(),
    ;

    /// The reciprocal of a nonzero value.
    fn reciprocal(self) -> (r: Self)
        requires
            self@ != Self::zero_spec(),
        ensures
            r@ == Self::reciprocal_spec(self@),
    ;
}

/// Two commutative, associative, idempotent operations linked by
/// absorption.
pub trait Lattice: View + Sized {
    /// The meet (greatest lower bound), on views.
    spec fn meet_spec(a: Self::V, b: Self::V) -> Self::V;

    /// The join (least upper bound), on views.
    spec fn join_spec(a: Self::V, b: Self::V) -> Self::V;

    /// The lattice laws.
    proof fn lemma_lattice(a: Self::V, b: Self::V, c: Self::V)
        ensures
            Self::meet_spec(a, b) == Self::meet_spec(b, a),
            Self::join_spec(a, b) == Self::join_spec(b, a),
            Self::meet_spec(Self::meet_spec(a, b), c) == Self::meet_spec(a, Self::meet_spec(b, c)),
            Self::join_spec(Self::join_spec(a, b), c) == Self::join_spec(a, Self::join_spec(b, c)),
            Self::meet_spec(a, a) == a,
            Self::join_spec(a, a) == a,
            Self::meet_spec(a, Self::join_spec(a, b)) == a,
            Self::join_spec(a, Self::meet_spec(a, b)) == a,
    ;

    /// The meet of two values.
    fn meet(self, other: Self) -> (r: Self)
        ensures
            r@ == Self::meet_spec(self@, other@),
    ;

    /// The join of two values.
    fn join(self, other: Self) -> (r: Self)
        ensures
            r@ == Self::join_spec(self@, other@),
    ;
}

/// A lattice with a greatest and a least element.
pub trait BoundedLattice: Lattice {
    /// The greatest element.
    spec fn top_spec() -> Self::V;

    /// The least element.
    spec fn bottom_spec() -> Self::V;

    /// The bounds are identities of meet and join.
    proof fn lemma_bounds(a: Self::V)
        ensures
            Self::meet_spec(a, Self::top_spec()) == a,
            Self::join_spec(a, Self::bottom_spec()) == a,
    ;

    /// The greatest element.
    fn top() -> (r: Self)
        ensures
            r@ == Self::top_spec(),
    ;

    /// The least element.
    fn bottom() -> (r: Self)
        ensures
            r@ == Self::bottom_spec(),
    ;
}

/// Booleans under exclusive or.
impl Semigroup for bool {
    open spec fn combine_spec(a: bool, b: bool) -> bool {
        a != b
    }

    proof fn lemma_associative(a: bool, b: bool, c: bool) {
    }

    fn combine(self, other: Self) -> (r: Self) {
        self != other
    }
}

impl Monoid for bool {
    open spec fn empty_spec() -> bool {
        false
    }

    proof fn lemma_identity(a: bool) {
    }

    fn empty() -> (r: Self) {
        false
    }
}

/// Every boolean is its own inverse under exclusive or.
impl Group for bool {
    open spec fn invert_spec(a: bool) -> bool {
        a
    }

    proof fn lemma_inverse(a: bool) {
    }

    fn invert(self) -> (r: Self) {
        self
    }
}

impl AbelianGroup for bool {
    proof fn lemma_commutative(a: bool, b: bool) {
    }
}

/// Booleans as the two-element field: exclusive or and conjunction.
impl Semiring for bool {
    open spec fn add_spec(a: bool, b: bool) -> bool {
        a != b
    }

    open spec fn mul_spec(a: bool, b: bool) -> bool {
        a && b
    }

    open spec fn zero_spec() -> bool {
        false
    }

    open spec fn one_spec() -> bool {
        true
    }

    proof fn lemma_semiring(a: bool, b: bool, c: bool) {
    }

    fn add(self, other: Self) -> (r: Self) {
        self != other
    }

    fn mul(self, other: Self) -> (r: Self) {
        self && other
    }

    fn zero() -> (r: Self) {
        false
    }

    fn one() -> (r: Self) {
        true
    }
}

impl Ring for bool {
    open spec fn negate_spec(a: bool) -> bool {
        a
    }

    proof fn lemma_negate(a: bool) {
    }

    fn negate(self) -> (r: Self) {
        self
    }
}

impl Field for bool {
    open spec fn reciprocal_spec(a: bool) -> bool {
        a
    }

    proof fn lemma_field(a: bool, b: bool) {
    }

    fn reciprocal(self) -> (r: Self) {
        self
    }
}

/// Booleans under conjunction and disjunction.
impl Lattice for bool {
    open spec fn meet_spec(a: bool, b: bool) -> bool {
        a && b
    }

    open spec fn join_spec(a: bool, b: bool) -> bool {
        a || b
    }

    proof fn lemma_lattice(a: bool, b: bool, c: bool) {
    }

    fn meet(self, other: Self) -> (r: Self) {
        self && other
    }

    fn join(self, other: Self) -> (r: Self) {
        self || other
    }
}

impl BoundedLattice for bool {
    open spec fn top_spec() -> bool {
        true
    }

    open spec fn bottom_spec() -> bool {
        false
    }

    proof fn lemma_bounds(a: bool) {
    }

    fn top() -> (r: Self) {
        true
    }

    fn bottom() -> (r: Self) {
        false
    }
}

/// The value of `x` in two's complement on 32 bits: `x` reduced modulo
/// 2^32 into the range of `i32`.
pub open spec fn wrap32(x: int) -> i32 {
    signed_crop(x)
}

/// Reducing ignores multiples of 2^32.
pub proof fn lemma_wrap32_shift(x: int, k: int)
    ensures
        wrap32(x + k * 4294967296) == wrap32(x),
{
    lemma_mod_multiples_vanish(k, x, 4294967296);
    assert(4294967296 * k + x == x + k * 4294967296) by (nonlinear_arith);
}

/// The reduction of `x` differs from `x` by a multiple of 2^32.
pub proof fn lemma_wrap32_offset(x: int) -> (q: int)
    ensures
        wrap32(x) == x + q * 4294967296,
{
    lemma_fundamental_div_mod(x, 4294967296);
    let d = x / 4294967296;
    if (x % 4294967296) > 2147483647 {
        -d - 1
    } else {
        -d
    }
}

/// A value of `i32` is its own reduction.
pub proof fn lemma_wrap32_id(a: i32)
    ensures
        wrap32(a as int) == a,
{
    if a < 0 {
        assert((a as int) % 4294967296 == a + 4294967296) by {
            lemma_mod_multiples_vanish(1, a as int, 4294967296);
        }
    }
}

/// Wrapping addition and multiplication reduce the exact result.
proof fn lemma_wrapping_ops(a: i32, b: i32)
    ensures
        vstd::wrapping::i32_specs::wrapping_add(a, b) == wrap32(a + b),
        vstd::wrapping::i32_specs::wrapping_sub(0, a) == wrap32(-a),
        vstd::wrapping::i32_specs::wrapping_mul(a, b) == wrap32(a * b),
{
    let s = a + b;
    if s > 2147483647 {
        lemma_wrap32_shift(s - 4294967296, 1);
        lemma_wrap32_id((s - 4294967296) as i32);
    } else if s < -2147483648 {
        lemma_wrap32_shift(s + 4294967296, -1);
        lemma_wrap32_id((s + 4294967296) as i32);
    } else {
        lemma_wrap32_id(s as i32);
    }
    let n = -a;
    if n > 2147483647 {
        lemma_wrap32_shift(n - 4294967296, 1);
        lemma_wrap32_id((n - 4294967296) as i32);
    } else {
        lemma_wrap32_id(n as i32);
    }
}

/// The laws of the ring of integers modulo 2^32, on their reductions.
proof fn lemma_wrap32_ring(a: i32, b: i32, c: i32)
    ensures
        wrap32(wrap32(a + b) + c) == wrap32(a + wrap32(b + c)),
        wrap32(wrap32(a * b) * c) == wrap32(a * wrap32(b * c)),
        wrap32(a * wrap32(b + c)) == wrap32(wrap32(a * b) + wrap32(a * c)),
        wrap32(wrap32(a + b) * c) == wrap32(wrap32(a * c) + wrap32(b * c)),
        wrap32(wrap32(-a) + a) == 0,
        wrap32(a + wrap32(-a)) == 0,
{
    let q1 = lemma_wrap32_offset(a + b);
    let q2 = lemma_wrap32_offset(b + c);
    lemma_wrap32_shift(a + b + c, q1);
    lemma_wrap32_shift(a + b + c, q2);
    let p1 = lemma_wrap32_offset(a * b);
    let p2 = lemma_wrap32_offset(b * c);
    assert((a * b + p1 * 4294967296) * c == a * b * c + (p1 * c) * 4294967296) by (nonlinear_arith);
    assert(a * (b * c + p2 * 4294967296) == a * b * c + (p2 * a) * 4294967296) by (nonlinear_arith);
    assert(a * b * c == a * (b * c)) by (nonlinear_arith);
    lemma_wrap32_shift(a * b * c, p1 * c);
    lemma_wrap32_shift(a * b * c, p2 * a);
    let p3 = lemma_wrap32_offset(a * c);
    let p4 = lemma_wrap32_offset(b * c);
    assert(a * (b + c + q2 * 4294967296) == a * b + a * c + (q2 * a) * 4294967296) by (nonlinear_arith);
    lemma_wrap32_shift(a * b + a * c, q2 * a);
    assert(a * b + p1 * 4294967296 + (a * c + p3 * 4294967296) == a * b + a * c + (p1 + p3) * 4294967296) by (nonlinear_arith);
    lemma_wrap32_shift(a * b + a * c, p1 + p3);
    assert((a + b + q1 * 4294967296) * c == a * c + b * c + (q1 * c) * 4294967296) by (nonlinear_arith);
    lemma_wrap32_shift(a * c + b * c, q1 * c);
    assert(a * c + p3 * 4294967296 + (b * c + p4 * 4294967296) == a * c + b * c + (p3 + p4) * 4294967296) by (nonlinear_arith);
    lemma_wrap32_shift(a * c + b * c, p3 + p4);
    let n = lemma_wrap32_offset(-a);
    lemma_wrap32_shift(0, n);
    lemma_wrap32_id(0);
}

/// 32-bit integers under wrapping addition.
impl Semigroup for i32 {
    open spec fn combine_spec(a: i32, b: i32) -> i32 {
        wrap32(a + b)
    }

    proof fn lemma_associative(a: i32, b: i32, c: i32) {
        lemma_wrap32_ring(a, b, c);
    }

    fn combine(self, other: Self) -> (r: Self) {
        proof {
            lemma_wrapping_ops(self, other);
        }
        self.wrapping_add(other)
    }
}

impl Monoid for i32 {
    open spec fn empty_spec() -> i32 {
        0
    }

    proof fn lemma_identity(a: i32) {
        lemma_wrap32_id(a);
    }

    fn empty() -> (r: Self) {
        0
    }
}

impl Group for i32 {
    open spec fn invert_spec(a: i32) -> i32 {
        wrap32(-a)
    }

    proof fn lemma_inverse(a: i32) {
        lemma_wrap32_ring(a, a, a);
    }

    fn invert(self) -> (r: Self) {
        proof {
            lemma_wrapping_ops(self, self);
        }
        0i32.wrapping_sub(self)
    }
}

impl AbelianGroup for i32 {
    proof fn lemma_commutative(a: i32, b: i32) {
    }
}

/// 32-bit integers as the ring of integers modulo 2^32.
impl Semiring for i32 {
    open spec fn add_spec(a: i32, b: i32) -> i32 {
        wrap32(a + b)
    }

    open spec fn mul_spec(a: i32, b: i32) -> i32 {
        wrap32(a * b)
    }

    open spec fn zero_spec() -> i32 {
        0
    }

    open spec fn one_spec() -> i32 {
        1
    }

    proof fn lemma_semiring(a: i32, b: i32, c: i32) {
        lemma_wrap32_ring(a, b, c);
        lemma_wrap32_id(a);
        lemma_wrap32_id(0);
        assert(a * 1 == a && 1 * a == a && 0 * a == 0 && a * 0 == 0) by (nonlinear_arith);
        assert(a * b == b * a) by (nonlinear_arith);
        assert(wrap32(a * (b + c)) == wrap32(a * b + a * c)) by {
            assert(a * (b + c) == a * b + a * c) by (nonlinear_arith);
        }
    }

    fn add(self, other: Self) -> (r: Self) {
        proof {
            lemma_wrapping_ops(self, other);
        }
        self.wrapping_add(other)
    }

    fn mul(self, other: Self) -> (r: Self) {
        proof {
            lemma_wrapping_ops(self, other);
        }
        self.wrapping_mul(other)
    }

    fn zero() -> (r: Self) {
        0
    }

    fn one() -> (r: Self) {
        1
    }
}

impl Ring for i32 {
    open spec fn negate_spec(a: i32) -> i32 {
        wrap32(-a)
    }

    proof fn lemma_negate(a: i32) {
        lemma_wrap32_ring(a, a, a);
    }

    fn negate(self) -> (r: Self) {
        proof {
            lemma_wrapping_ops(self, self);
        }
        0i32.wrapping_sub(self)
    }
}

} // verus!
