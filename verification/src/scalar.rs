//! The scalar capability interface that matrix elements must provide.

use vstd::prelude::*;

verus! {

/// Capability interface for matrix elements.
///
/// Each executable operation has an abstract specification-level counterpart
/// (`spec_add` for `add`, and so on); an implementation promises that the
/// executable operation agrees with it.  The kernel states its contracts over
/// these counterparts, so every result is pinned down as an expression over
/// the abstract operations of the element type.
///
/// Every operation must be total: an implementation settles degenerate cases
/// itself (for instance what `div` returns on a zero divisor) instead of
/// panicking, because the kernel applies its own degenerate-input policies
/// only where the contracts say so.
///
/// Exact integer element types can support the purely algebraic part of the
/// kernel (multiply, transpose, determinant); the routines that take square
/// roots or trigonometric functions are meaningful only for element types
/// with a real (floating-point-like) capability.
pub trait Scalar: Copy + Sized {
    /// Abstract addition of the element type.
    spec fn spec_add(self, o: Self) -> Self;

    /// Abstract subtraction of the element type.
    spec fn spec_sub(self, o: Self) -> Self;

    /// Abstract multiplication of the element type.
    spec fn spec_mul(self, o: Self) -> Self;

    /// Abstract division of the element type.
    spec fn spec_div(self, o: Self) -> Self;

    /// Abstract negation of the element type.
    spec fn spec_neg(self) -> Self;

    /// The additive identity.
    spec fn spec_zero() -> Self;

    /// The multiplicative identity.
    spec fn spec_one() -> Self;

    /// The value two.
    spec fn spec_two() -> Self;

    /// The value one half.
    spec fn spec_half() -> Self;

    /// The value one quarter.
    spec fn spec_quarter() -> Self;

    /// A tiny positive threshold under which a difference counts as
    /// degenerate (the epsilon of the camera routines).
    spec fn spec_eps() -> Self;

    /// Abstract square root.
    spec fn spec_sqrt(self) -> Self;

    /// Abstract sine.
    spec fn spec_sin(self) -> Self;

    /// Abstract cosine.
    spec fn spec_cos(self) -> Self;

    /// Abstract tangent.
    spec fn spec_tan(self) -> Self;

    /// Abstract absolute value.
    spec fn spec_abs(self) -> Self;

    /// Abstract strict order.
    spec fn spec_lt(self, o: Self) -> bool;

    /// Whether this value is the additive identity, by the element type's own
    /// (exact) test.
    spec fn spec_is_zero(self) -> bool;

    /// Abstract approximate equality of two elements.
    spec fn spec_approx_eq(self, o: Self) -> bool;

    fn add(self, o: Self) -> (r: Self)
        ensures
            r == self.spec_add(o),
    ;

    fn sub(self, o: Self) -> (r: Self)
        ensures
            r == self.spec_sub(o),
    ;

    fn mul(self, o: Self) -> (r: Self)
        ensures
            r == self.spec_mul(o),
    ;

    fn div(self, o: Self) -> (r: Self)
        ensures
            r == self.spec_div(o),
    ;

    fn neg(self) -> (r: Self)
        ensures
            r == self.spec_neg(),
    ;

    fn zero() -> (r: Self)
        ensures
            r == Self::spec_zero(),
    ;

    fn one() -> (r: Self)
        ensures
            r == Self::spec_one(),
    ;

    fn two() -> (r: Self)
        ensures
            r == Self::spec_two(),
    ;

    fn half() -> (r: Self)
        ensures
            r == Self::spec_half(),
    ;

    fn quarter() -> (r: Self)
        ensures
            r == Self::spec_quarter(),
    ;

    fn eps() -> (r: Self)
        ensures
            r == Self::spec_eps(),
    ;

    fn sqrt(self) -> (r: Self)
        ensures
            r == self.spec_sqrt(),
    ;

    fn sin(self) -> (r: Self)
        ensures
            r == self.spec_sin(),
    ;

    fn cos(self) -> (r: Self)
        ensures
            r == self.spec_cos(),
    ;

    fn tan(self) -> (r: Self)
        ensures
            r == self.spec_tan(),
    ;

    fn abs(self) -> (r: Self)
        ensures
            r == self.spec_abs(),
    ;

    fn lt(self, o: Self) -> (r: bool)
        ensures
            r == self.spec_lt(o),
    ;

    fn is_zero(self) -> (r: bool)
        ensures
            r == self.spec_is_zero(),
    ;

    fn approx_eq(self, o: Self) -> (r: bool)
        ensures
            r == self.spec_approx_eq(o),
    ;
}

/// The identity laws of an element type: the additive identity is neutral
/// for addition and absorbing for multiplication, the multiplicative
/// identity is neutral for multiplication, and subtracting the additive
/// identity changes nothing.  Exact integer types satisfy them; a
/// floating-point type does not satisfy them on every value (for instance a
/// negative value times the additive identity gives a negative zero).
pub open spec fn identity_laws<T: Scalar>() -> bool {
    &&& forall|x: T| #[trigger] x.spec_add(T::spec_zero()) == x
    &&& forall|x: T| #[trigger] T::spec_zero().spec_add(x) == x
    &&& forall|x: T| #[trigger] x.spec_mul(T::spec_one()) == x
    &&& forall|x: T| #[trigger] T::spec_one().spec_mul(x) == x
    &&& forall|x: T| #[trigger] x.spec_mul(T::spec_zero()) == T::spec_zero()
    &&& forall|x: T| #[trigger] T::spec_zero().spec_mul(x) == T::spec_zero()
    &&& forall|x: T| #[trigger] x.spec_sub(T::spec_zero()) == x
}

/// The additive-group laws of an element type: commutativity and
/// associativity of addition, subtraction agreeing with addition of the
/// negation, negation distributing over addition, and negation being an
/// involution.  Exact integer types satisfy them; floating-point types do
/// not on every value.
pub open spec fn add_group_laws<T: Scalar>() -> bool {
    &&& forall|x: T, y: T| #[trigger] x.spec_add(y) == y.spec_add(x)
    &&& forall|x: T, y: T, z: T| #[trigger]
        x.spec_add(y).spec_add(z) == x.spec_add(y.spec_add(z))
    &&& forall|x: T, y: T| #[trigger] x.spec_sub(y) == x.spec_add(y.spec_neg())
    &&& forall|x: T, y: T| #[trigger]
        x.spec_add(y).spec_neg() == x.spec_neg().spec_add(y.spec_neg())
    &&& forall|x: T| #[trigger] x.spec_neg().spec_neg() == x
    &&& forall|x: T| #[trigger] x.spec_add(x.spec_neg()) == T::spec_zero()
}

/// The commutative-ring laws of an element type: the identity laws and the
/// additive-group laws together with commutativity and associativity of
/// multiplication, distributivity, and multiplication carrying negation
/// through.  Exact integer types satisfy them; floating-point types do not
/// (their addition and multiplication are not associative).
pub open spec fn ring_laws<T: Scalar>() -> bool {
    &&& identity_laws::<T>()
    &&& add_group_laws::<T>()
    &&& forall|x: T, y: T| #[trigger] x.spec_mul(y) == y.spec_mul(x)
    &&& forall|x: T, y: T, z: T| #[trigger]
        x.spec_mul(y).spec_mul(z) == x.spec_mul(y.spec_mul(z))
    &&& forall|x: T, y: T, z: T| #[trigger]
        x.spec_mul(y.spec_add(z)) == x.spec_mul(y).spec_add(x.spec_mul(z))
    &&& forall|x: T, y: T, z: T| #[trigger]
        x.spec_add(y).spec_mul(z) == x.spec_mul(z).spec_add(y.spec_mul(z))
    &&& forall|x: T, y: T| #[trigger] x.spec_mul(y.spec_neg()) == x.spec_mul(y).spec_neg()
    &&& forall|x: T, y: T| #[trigger] x.spec_neg().spec_mul(y) == x.spec_mul(y).spec_neg()
}

/// The field laws of an element type: the commutative-ring laws together
/// with a multiplicative inverse for every value that is not the additive
/// identity.  Exact rational element types satisfy them; integer division
/// truncates and floating-point division rounds, so neither satisfies them
/// on every value.
pub open spec fn field_laws<T: Scalar>() -> bool {
    &&& ring_laws::<T>()
    &&& forall|x: T|
        !x.spec_is_zero() ==> #[trigger] x.spec_mul(T::spec_one().spec_div(x))
            == T::spec_one()
}

/// Subtracting a value from itself gives the additive identity.  Exact
/// integer types satisfy this on every value; floating-point types satisfy
/// it on every finite value but not on infinities or NaN.
pub open spec fn sub_cancel_law<T: Scalar>() -> bool {
    forall|x: T| #[trigger] x.spec_sub(x) == T::spec_zero()
}

/// The absolute value of the additive identity lies strictly below the
/// element type's epsilon.
pub open spec fn zero_abs_below_eps_law<T: Scalar>() -> bool {
    T::spec_zero().spec_abs().spec_lt(T::spec_eps())
}

} // verus!
