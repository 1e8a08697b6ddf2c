//! The numbers that transforms, meshes and oscillators are made of.
//!
//! Nothing here fixes a representation. The geometry is written once, against
//! the operations of [`Scalar`], and every contract in the crate states its
//! result as a term over those operations, in the order in which they are
//! applied. A contract therefore holds to the last bit for any number type
//! whose operations are functions of their arguments: for the exact numbers
//! of [`crate::fixed`], and for the floating point of a graphics card.

use vstd::prelude::*;

verus! {

/// A number type with the arithmetic that the geometry needs.
///
/// Each operation comes in two forms: a `spec` function, which says what the
/// result is, and an executable method, which returns exactly that. What the
/// `spec` functions are is left to the implementation: nothing is asked of
/// them here, not even that addition commutes. What an exact number type
/// adds to this is stated in [`Laws`].
///
/// An implementation in verified code proves that its methods return what
/// its `spec` functions say. One in ordinary Rust is not read by the
/// verifier: of such a type the contracts of this crate hold as far as its
/// methods are functions of their arguments, the same on every call.
pub trait Scalar: Copy {
    /// The number zero.
    spec fn zero_spec() -> Self;

    /// The number one.
    spec fn one_spec() -> Self;

    /// The number `n / 1000`, as nearly as the type can hold it.
    spec fn milli_spec(n: i32) -> Self;

    /// The sum `self + rhs`.
    spec fn plus_spec(self, rhs: Self) -> Self;

    /// The difference `self - rhs`.
    spec fn minus_spec(self, rhs: Self) -> Self;

    /// The product `self * rhs`.
    spec fn times_spec(self, rhs: Self) -> Self;

    /// The quotient `self / rhs`, as the type defines it where `rhs` is zero.
    spec fn divided_spec(self, rhs: Self) -> Self;

    /// The opposite `-self`.
    spec fn negated_spec(self) -> Self;

    fn zero() -> (r: Self)
        ensures
            r == Self::zero_spec(),
    ;

    fn one() -> (r: Self)
        ensures
            r == Self::one_spec(),
    ;

    fn from_milli(n: i32) -> (r: Self)
        ensures
            r == Self::milli_spec(n),
    ;

    fn plus(self, rhs: Self) -> (r: Self)
        ensures
            r == self.plus_spec(rhs),
    ;

    fn minus(self, rhs: Self) -> (r: Self)
        ensures
            r == self.minus_spec(rhs),
    ;

    fn times(self, rhs: Self) -> (r: Self)
        ensures
            r == self.times_spec(rhs),
    ;

    fn divided(self, rhs: Self) -> (r: Self)
        ensures
            r == self.divided_spec(rhs),
    ;

    fn negated(self) -> (r: Self)
        ensures
            r == self.negated_spec(),
    ;
}

/// The elementary functions of a number type that has them.
///
/// Their results are approximations whose last bits differ from one machine
/// to the next, so no contract names them: a function that calls one of these
/// states what holds whichever value came back.
pub trait Elementary: Scalar {
    /// The type's approximation of the ratio of a circle's circumference to
    /// its diameter.
    fn pi() -> Self;

    /// The square root of `self`.
    fn sqrt(self) -> Self;

    /// The cosine of `self`, taken as an angle in radians.
    fn cos(self) -> Self;

    /// The sine of `self`, taken as an angle in radians.
    fn sin(self) -> Self;

    /// The tangent of `self`, taken as an angle in radians.
    fn tan(self) -> Self;
}

/// The algebra that an exact number type obeys on the values it can hold.
///
/// These are the laws of a commutative ring that need no reassociation:
/// neutral elements, commutativity, and the rules of sign. Rounded products
/// keep all of them, so a fixed-point type can prove them; a floating-point
/// type cannot, and does not implement this trait.
pub trait Laws: Scalar {
    /// The values on which the laws hold.
    spec fn in_range(self) -> bool;

    /// The constants are in range.
    proof fn law_constants(n: i32)
        ensures
            Self::zero_spec().in_range(),
            Self::one_spec().in_range(),
            Self::milli_spec(n).in_range(),
    ;

    /// The operations lead from values in range to values in range.
    proof fn law_closed(a: Self, b: Self)
        requires
            a.in_range(),
            b.in_range(),
        ensures
            a.plus_spec(b).in_range(),
            a.minus_spec(b).in_range(),
            a.times_spec(b).in_range(),
            a.divided_spec(b).in_range(),
            a.negated_spec().in_range(),
    ;

    /// Zero is neutral for addition and absorbing for multiplication; one is
    /// neutral for multiplication.
    proof fn law_neutral(a: Self)
        requires
            a.in_range(),
        ensures
            a.plus_spec(Self::zero_spec()) == a,
            Self::zero_spec().plus_spec(a) == a,
            a.times_spec(Self::zero_spec()) == Self::zero_spec(),
            Self::zero_spec().times_spec(a) == Self::zero_spec(),
            a.times_spec(Self::one_spec()) == a,
            Self::one_spec().times_spec(a) == a,
    ;

    /// Addition and multiplication commute.
    proof fn law_commutes(a: Self, b: Self)
        requires
            a.in_range(),
            b.in_range(),
        ensures
            a.plus_spec(b) == b.plus_spec(a),
            a.times_spec(b) == b.times_spec(a),
    ;

    /// The rules of sign: negation undoes itself, cancels in a sum, moves
    /// through a product, and turns subtraction into addition.
    proof fn law_sign(a: Self, b: Self)
        requires
            a.in_range(),
            b.in_range(),
        ensures
            Self::zero_spec().negated_spec() == Self::zero_spec(),
            a.negated_spec().negated_spec() == a,
            a.plus_spec(a.negated_spec()) == Self::zero_spec(),
            a.negated_spec().plus_spec(a) == Self::zero_spec(),
            a.negated_spec().times_spec(b) == a.times_spec(b).negated_spec(),
            a.times_spec(b.negated_spec()) == a.times_spec(b).negated_spec(),
            a.minus_spec(b) == a.plus_spec(b.negated_spec()),
    ;
}

} // verus!
