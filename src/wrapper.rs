//! A holder that encodes and decodes the value it wraps.
use vstd::prelude::*;

use crate::scalar::{CodecError, ErrorModel, Scalar};
use crate::traits::{HumanTime, Sealed};

verus! {

/// A wrapper that encodes and decodes durations, timestamps and optional ones
/// of them.
#[derive(Clone, Copy, Debug, PartialEq, Eq, Hash)]
pub struct Serde<T>(T);

impl<T> Serde<T> {
    /// The value held.
    pub closed spec fn inner(self) -> T {
        self.0
    }

    /// Wraps a value.
    pub fn from(val: T) -> (r: Serde<T>)
        ensures
            r.inner() == val,
    {
        Serde(val)
    }

    /// Borrows the value held.
    pub fn get(&self) -> (r: &T)
        ensures
            *r == self.inner(),
    {
        &self.0
    }

    /// Consumes the `Serde`, returning the inner value.
    pub fn into_inner(self) -> (r: T)
        ensures
            r == self.inner(),
    {
        self.0
    }
}

impl<T: HumanTime> Serde<T> {
    /// Decodes a value from a scalar.
    pub fn decode(s: &Scalar) -> (r: Result<Serde<T>, CodecError>)
        ensures
            r matches Ok(w) ==> T::decoded(s@) == Ok::<T, ErrorModel>(w.inner()),
            r matches Err(e) ==> T::decoded(s@) == Err::<T, ErrorModel>(e@),
    {
        match T::decode(s) {
            Ok(v) => Ok(Serde(v)),
            Err(e) => Err(e),
        }
    }

    /// Encodes the value held.
    pub fn encode(&self) -> (r: Scalar)
        ensures
            r@ == T::encoded(self.inner()),
            T::within_bounds(self.inner()) ==> T::canonical(self.inner()),
    {
        self.0.encode()
    }
}

} // verus!
