//! The scalar types that voltages, conductances and currents may have.

use core::ops::{Add, Div, Mul, Sub};
use vstd::prelude::*;
use vstd::std_specs::cmp::{PartialOrdIs, PartialOrdSpec};
use vstd::std_specs::ops::{AddSpec, DivSpec, MulSpec, SubSpec};

verus! {

/// A copyable number with the four arithmetic operators and an order.
///
/// Every type with these capabilities is a `Scalar`.
pub trait Scalar: Copy + Add<Output = Self> + Sub<Output = Self> + Mul<Output = Self> + Div<
    Output = Self,
> + PartialOrd {

}

impl<
    T: Copy + Add<Output = T> + Sub<Output = T> + Mul<Output = T> + Div<Output = T> + PartialOrd,
> Scalar for T {

}

/// The operators of `T` compute what their specifications say.
pub open spec fn lawful<T: Scalar>() -> bool {
    &&& T::obeys_add_spec()
    &&& T::obeys_sub_spec()
    &&& T::obeys_mul_spec()
    &&& T::obeys_div_spec()
    &&& T::obeys_partial_cmp_spec()
}

/// `x` is above zero, the difference of `x` and itself.
pub open spec fn positive<T: Scalar>(x: T) -> bool {
    x.is_gt(&x.sub_spec(x))
}

/// Tells whether `x` is above zero.
pub fn is_positive<T: Scalar>(x: T) -> (above: bool)
    requires
        lawful::<T>(),
        x.sub_req(x),
    ensures
        above == positive(x),
{
    let zero = x - x;
    x > zero
}

} // verus!
