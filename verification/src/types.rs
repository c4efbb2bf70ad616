//! Basic definitions used by everything else: the scalar capabilities and
//! the configuration switches.

use vstd::prelude::*;

verus! {

/// A field element for linear algebra: a real number or a complex number
/// over a real subfield.
///
/// The operations carry no contract. Implementations are expected over
/// machine floating point, whose results this library does not model, so
/// everything proved about a scalar type holds of whatever its operations
/// return. Contracts name those results through [`is_zero`], [`is_sum`],
/// [`is_product`] and [`is_conj`].
pub trait Scalar: Copy {
    /// The additive identity.
    fn zero() -> Self;

    /// The sum of `self` and `rhs`.
    fn add(self, rhs: Self) -> Self;

    /// The product of `self` and `rhs`, in this order.
    fn mul(self, rhs: Self) -> Self;

    /// The complex conjugate; the value itself for a real type.
    fn conj(self) -> Self;
}

/// A scalar without an imaginary part, safe to share between threads.
/// This tag is for operations that only make sense for real types.
pub trait RealType: Scalar + Send + Sync {}

/// `z` is a value that `A::zero()` returns.
pub open spec fn is_zero<A: Scalar>(z: A) -> bool {
    call_ensures(A::zero, (), z)
}

/// `s` is a value that `x.add(y)` returns.
pub open spec fn is_sum<A: Scalar>(x: A, y: A, s: A) -> bool {
    call_ensures(A::add, (x, y), s)
}

/// `p` is a value that `x.mul(y)` returns.
pub open spec fn is_product<A: Scalar>(x: A, y: A, p: A) -> bool {
    call_ensures(A::mul, (x, y), p)
}

/// `c` is a value that `x.conj()` returns.
pub open spec fn is_conj<A: Scalar>(x: A, c: A) -> bool {
    call_ensures(A::conj, (x,), c)
}

/// Conjugation leaves every value of `A` as it is: `A` has no imaginary
/// part.
pub open spec fn conj_is_identity<A: Scalar>() -> bool {
    forall|x: A, c: A| #[trigger] is_conj(x, c) ==> c == x
}

/// The operations of `A` are functions of their arguments: each has one
/// result.
pub open spec fn is_deterministic<A: Scalar>() -> bool {
    &&& forall|a: A, b: A| #![trigger is_zero(a), is_zero(b)] is_zero(a) && is_zero(b) ==> a == b
    &&& forall|x: A, y: A, a: A, b: A|
        #![trigger is_sum(x, y, a), is_sum(x, y, b)]
        is_sum(x, y, a) && is_sum(x, y, b) ==> a == b
    &&& forall|x: A, y: A, a: A, b: A|
        #![trigger is_product(x, y, a), is_product(x, y, b)]
        is_product(x, y, a) && is_product(x, y, b) ==> a == b
    &&& forall|x: A, a: A, b: A|
        #![trigger is_conj(x, a), is_conj(x, b)]
        is_conj(x, a) && is_conj(x, b) ==> a == b
}

/// Determines whether to use multithreading or serial evaluation.
pub enum ThreadingType {
    /// Use multithreading.
    Parallel,
    /// Use serial evaluation.
    Serial,
}

/// The evaluation mode for kernels.
pub enum EvalMode {
    /// Only evaluate Green's function values.
    Value,
    /// Evaluate values and derivatives.
    ValueGrad,
}

} // verus!
