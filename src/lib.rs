//! Human-readable encodings of durations and timestamps for a serialization
//! framework: a duration is read from text such as `"15 seconds"` and written
//! in the canonical form `"15s"`; a timestamp is read from RFC 3339 text, also
//! in its relaxed form `"2018-05-11 18:28:30"`, and written as
//! `"2018-05-11T18:28:30Z"`.
use vstd::prelude::*;

pub mod lemmas;
pub mod numbers;
pub mod scalar;
pub mod text;
pub mod time;
mod traits;
mod wrapper;

pub use scalar::{outcome, CodecError, ErrorModel, Scalar, ScalarModel, TimeKind};
pub use traits::{
    duration_from_parse, duration_result, timestamp_from_parse, timestamp_result, HumanTime,
};
pub use wrapper::Serde;
pub use time::{Span, Timestamp};

use crate::traits::Sealed;

verus! {

/// A value that can only be made by decoding it.
pub struct De<T>(T);

impl<T> De<T> {
    /// The value held.
    pub closed spec fn inner(self) -> T {
        self.0
    }

    /// Consumes the `De`, returning the inner value.
    pub fn into_inner(self) -> (r: T)
        ensures
            r == self.inner(),
    {
        self.0
    }
}

impl<T: HumanTime> De<T> {
    /// Decodes a value from a scalar.
    pub fn decode(s: &Scalar) -> (r: Result<De<T>, CodecError>)
        ensures
            r matches Ok(d) ==> T::decoded(s@) == Ok::<T, ErrorModel>(d.inner()),
            r matches Err(e) ==> T::decoded(s@) == Err::<T, ErrorModel>(e@),
    {
        match T::decode(s) {
            Ok(v) => Ok(De(v)),
            Err(e) => Err(e),
        }
    }
}

/// Decodes a duration, a timestamp, or an optional one of them from a scalar.
pub fn deserialize<T: HumanTime>(s: &Scalar) -> (r: Result<T, CodecError>)
    ensures
        outcome(r) == T::decoded(s@),
{
    match De::<T>::decode(s) {
        Ok(d) => Ok(d.into_inner()),
        Err(e) => Err(e),
    }
}

/// Encodes a duration, a timestamp, or an optional one of them as a scalar.
pub fn serialize<T: HumanTime>(v: &T) -> (r: Scalar)
    ensures
        r@ == T::encoded(*v),
        T::within_bounds(*v) ==> T::canonical(*v),
{
    v.encode()
}

/// What decoding an optional field gives: `field` is the field's scalar, or
/// `None` where the input lacks the field.
pub open spec fn field_decoded<T: HumanTime>(field: Option<ScalarModel>, default_when_absent: bool) -> Result<Option<T>, ErrorModel> {
    match field {
        Some(s) => Option::<T>::decoded(s),
        None => if default_when_absent {
            Ok(None)
        } else {
            Err(ErrorModel::MissingField)
        },
    }
}

/// Decodes an optional field of a structure. A field that the input lacks is
/// `None` where `default_when_absent` is set, and an error otherwise.
pub fn deserialize_field<T: HumanTime>(field: Option<&Scalar>, default_when_absent: bool) -> (r: Result<Option<T>, CodecError>)
    ensures
        outcome(r) == field_decoded::<T>(
            match field {
                Some(s) => Some(s@),
                None => None,
            },
            default_when_absent,
        ),
{
    match field {
        Some(s) => deserialize::<Option<T>>(s),
        None => if default_when_absent {
            Ok(None)
        } else {
            Err(CodecError::MissingField)
        },
    }
}

} // verus!
