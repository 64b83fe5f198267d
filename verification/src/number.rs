//! A scalar that is either known or still waiting to be computed.
//!
//! Layout resolves its quantities step by step. Until a quantity has been
//! computed it is [`Number::Undefined`], and it stays apart from every
//! defined value: no operation here turns it into a zero or any other
//! number. Arithmetic goes through [`Number::combine`], which hands an
//! undefined operand on as an undefined result.

use std::ops::Add;
use vstd::prelude::*;
use vstd::std_specs::cmp::PartialEqSpec;
use vstd::std_specs::ops::AddSpec;

verus! {

/// A quantity of type `T` that may not have been computed yet.
#[derive(Debug)]
pub enum Number<T> {
    /// The quantity is known.
    Defined(T),
    /// The quantity has not been computed.
    Undefined,
}

impl<T> Number<T> {
    /// The combination of two numbers under the binary operation `f`:
    /// undefined as soon as one operand is, else `f` of the two values.
    pub open spec fn spec_combine(self, other: Number<T>, f: spec_fn(T, T) -> T) -> Number<T> {
        match (self, other) {
            (Number::Defined(x), Number::Defined(y)) => Number::Defined(f(x, y)),
            _ => Number::Undefined,
        }
    }

    /// Tells whether the quantity is known.
    pub fn is_defined(&self) -> (r: bool)
        ensures
            r == (self is Defined),
    {
        match self {
            Number::Defined(_) => true,
            Number::Undefined => false,
        }
    }

    /// Tells whether the quantity is still to be computed.
    pub fn is_undefined(&self) -> (r: bool)
        ensures
            r == (self is Undefined),
    {
        !self.is_defined()
    }

    /// Combines two numbers with `op`.
    ///
    /// `op` runs only when both operands are defined, on their two values,
    /// and its result comes back defined. With an undefined operand on
    /// either side `op` is not called and the result is undefined.
    pub fn combine<F: FnOnce(T, T) -> T>(self, other: Number<T>, op: F) -> (r: Number<T>)
        requires
            self is Defined && other is Defined ==> op.requires(
                (self->Defined_0, other->Defined_0),
            ),
        ensures
            self is Undefined || other is Undefined ==> r is Undefined,
            self is Defined && other is Defined ==> r is Defined && op.ensures(
                (self->Defined_0, other->Defined_0),
                r->Defined_0,
            ),
            forall|f: spec_fn(T, T) -> T|
                (forall|x: T, y: T, z: T| #[trigger] op.ensures((x, y), z) ==> z == f(x, y))
                    ==> r == #[trigger] self.spec_combine(other, f),
    {
        match (self, other) {
            (Number::Defined(x), Number::Defined(y)) => Number::Defined(op(x, y)),
            _ => Number::Undefined,
        }
    }
}

impl<T: Clone> Clone for Number<T> {
    fn clone(&self) -> (r: Self)
        ensures
            self is Undefined <==> r is Undefined,
            self is Defined ==> cloned(self->Defined_0, r->Defined_0),
    {
        match self {
            Number::Defined(x) => Number::Defined(x.clone()),
            Number::Undefined => Number::Undefined,
        }
    }
}

impl<T: Copy> Copy for Number<T> {}

impl<T: PartialEq> PartialEq for Number<T> {
    /// Two numbers are equal when both are undefined, or both are defined
    /// and their values are equal.
    fn eq(&self, other: &Self) -> (r: bool)
        ensures
            self is Undefined && other is Undefined ==> r,
            (self is Undefined) != (other is Undefined) ==> !r,
            self is Defined && other is Defined ==> call_ensures(
                T::eq,
                (&self->Defined_0, &other->Defined_0),
                r,
            ),
    {
        match (self, other) {
            (Number::Defined(x), Number::Defined(y)) => x.eq(y),
            (Number::Undefined, Number::Undefined) => true,
            _ => false,
        }
    }
}

impl<T: PartialEq> vstd::std_specs::cmp::PartialEqSpecImpl for Number<T> {
    open spec fn obeys_eq_spec() -> bool {
        T::obeys_eq_spec()
    }

    open spec fn eq_spec(&self, other: &Self) -> bool {
        self.equals(other)
    }
}

impl<T: PartialEq> Number<T> {
    /// What `==` computes on two numbers: both are undefined, or both are
    /// defined and `T`'s own equality holds of their values.
    pub open spec fn equals(&self, other: &Self) -> bool {
        match (self, other) {
            (Number::Defined(x), Number::Defined(y)) => x.eq_spec(y),
            (Number::Undefined, Number::Undefined) => true,
            _ => false,
        }
    }
}

impl<T: Add<Output = T>> Add for Number<T> {
    type Output = Number<T>;

    /// The sum of two numbers, taken with [`Number::combine`].
    fn add(self, rhs: Number<T>) -> (r: Number<T>)
        ensures
            self is Undefined || rhs is Undefined ==> r is Undefined,
            self is Defined && rhs is Defined ==> r is Defined && call_ensures(
                T::add,
                (self->Defined_0, rhs->Defined_0),
                r->Defined_0,
            ),
    {
        let sum = |x: T, y: T| -> (z: T)
            requires
                x.add_req(y),
            ensures
                call_ensures(T::add, (x, y), z),
                T::obeys_add_spec() ==> z == x.add_spec(y),
            {
                x + y
            };
        self.combine(rhs, sum)
    }
}

impl<T: Add<Output = T>> vstd::std_specs::ops::AddSpecImpl for Number<T> {
    open spec fn obeys_add_spec() -> bool {
        T::obeys_add_spec()
    }

    open spec fn add_req(self, rhs: Number<T>) -> bool {
        self is Defined && rhs is Defined ==> self->Defined_0.add_req(rhs->Defined_0)
    }

    open spec fn add_spec(self, rhs: Number<T>) -> Number<T> {
        self.spec_combine(rhs, |x: T, y: T| x.add_spec(y))
    }
}

/// An undefined operand, on either side, makes the combination undefined
/// whatever the operation is.
pub proof fn lemma_combine_undefined<T>(a: Number<T>, b: Number<T>, f: spec_fn(T, T) -> T)
    ensures
        Number::<T>::Undefined.spec_combine(b, f) == Number::<T>::Undefined,
        a.spec_combine(Number::Undefined, f) == Number::<T>::Undefined,
{
}

/// Two defined operands combine to the operation applied to their values.
pub proof fn lemma_combine_defined<T>(x: T, y: T, f: spec_fn(T, T) -> T)
    ensures
        Number::Defined(x).spec_combine(Number::Defined(y), f) == Number::Defined(f(x, y)),
{
}

/// A sum with an undefined operand, on either side, is undefined.
pub proof fn lemma_add_undefined<T: Add<Output = T>>(a: Number<T>, b: Number<T>)
    ensures
        Number::<T>::Undefined.add_spec(b) == Number::<T>::Undefined,
        a.add_spec(Number::Undefined) == Number::<T>::Undefined,
{
}

/// The sum of two defined numbers is the defined sum of their values.
pub proof fn lemma_add_defined<T: Add<Output = T>>(x: T, y: T)
    ensures
        Number::Defined(x).add_spec(Number::Defined(y)) == Number::Defined(x.add_spec(y)),
{
}

} // verus!
