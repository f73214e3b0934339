//! The codec of each supported kind of value, and its lifting to optional
//! values.
use vstd::prelude::*;

use crate::scalar::{outcome, CodecError, ErrorModel, Scalar, ScalarModel, TimeKind};
use crate::text::{
    duration_parsed, duration_text, format_duration, format_rfc3339, parse_duration,
    parse_rfc3339_weak, rfc3339_text, rfc3339_weak_parsed,
};
use crate::numbers::{duration_bound_ok, check_duration_bound};
use crate::time::{Span, Timestamp, NANOS_PER_SEC, TIMESTAMP_SECS_LIMIT};

verus! {

broadcast use {
    Span::lemma_of_parts,
    Span::lemma_parts_of,
    Timestamp::lemma_of_parts,
    Timestamp::lemma_parts_of,
};

/// Encoding to and decoding from a single scalar. Only the types of this
/// crate implement it.
pub trait Sealed: Sized {
    /// What decoding the scalar `s` gives.
    spec fn decoded(s: ScalarModel) -> Result<Self, ErrorModel>;

    /// The scalar that encoding `v` gives.
    spec fn encoded(v: Self) -> ScalarModel;

    /// The text grammar reads the canonical text of `v` back to `v`.
    spec fn canonical(v: Self) -> bool;

    /// The canonical text of `v` is within the bounds that decoding checks
    /// before the grammar reads a text.
    spec fn within_bounds(v: Self) -> bool;

    /// Writes the value in its canonical form.
    fn encode(&self) -> (r: Scalar)
        ensures
            r@ == Self::encoded(*self),
            Self::within_bounds(*self) ==> Self::canonical(*self),
    ;

    /// Reads a value; fails unless the input is text of the expected kind.
    fn decode(s: &Scalar) -> (r: Result<Self, CodecError>)
        ensures
            outcome(r) == Self::decoded(s@),
    ;

    /// Decoding the canonical text of a value that the grammar reads back
    /// gives the value.
    proof fn lemma_round_trip(v: Self)
        requires
            Self::canonical(v),
        ensures
            Self::decoded(Self::encoded(v)) == Ok::<Self, ErrorModel>(v),
    ;
}

/// A value that can be written as, and read from, human-readable text.
///
/// Only the crate's own types implement it: a span of time, a point in time,
/// and an optional value of either.
pub trait HumanTime: Sealed {
    /// The kind of time value held, which errors name as expected.
    fn kind() -> (r: TimeKind)
        ensures
            Self::decoded(ScalarModel::Other) == Err::<Self, ErrorModel>(
                ErrorModel::InvalidValue { expected: r, found: ScalarModel::Other },
            ),
    ;

    /// Whether the value may be absent, so that the null scalar decodes.
    fn is_optional() -> (r: bool)
        ensures
            r == (Self::decoded(ScalarModel::Null) is Ok),
    ;
}

/// What decoding the text `text` as a duration gives, where the grammar
/// read it as `parsed`.
pub open spec fn duration_result(text: Seq<char>, parsed: Option<(u64, u32)>) -> Result<Span, ErrorModel> {
    match parsed {
        Some(p) => Ok(Span::of(p.0, p.1)),
        None => Err(ErrorModel::InvalidValue { expected: TimeKind::Duration, found: ScalarModel::Str(text) }),
    }
}

/// What decoding the text `text` as a timestamp gives, where the grammar
/// read it as `parsed`.
pub open spec fn timestamp_result(text: Seq<char>, parsed: Option<(u64, u32)>) -> Result<Timestamp, ErrorModel> {
    match parsed {
        Some(p) => Ok(Timestamp::of(p.0, p.1)),
        None => Err(ErrorModel::InvalidValue { expected: TimeKind::Timestamp, found: ScalarModel::Str(text) }),
    }
}

/// Decodes the text `text` as a duration, given what the grammar read from
/// it.
pub fn duration_from_parse(text: &String, parsed: Option<(u64, u32)>) -> (r: Result<Span, CodecError>)
    requires
        parsed matches Some(p) ==> p.1 < NANOS_PER_SEC,
    ensures
        outcome(r) == duration_result(text@, parsed),
{
    match parsed {
        Some(p) => Ok(Span::new(p.0, p.1)),
        None => Err(CodecError::InvalidValue { expected: TimeKind::Duration, found: Scalar::Str(text.clone()) }),
    }
}

/// Decodes the text `text` as a timestamp, given what the grammar read from
/// it.
pub fn timestamp_from_parse(text: &String, parsed: Option<(u64, u32)>) -> (r: Result<Timestamp, CodecError>)
    requires
        parsed matches Some(p) ==> p.0 < TIMESTAMP_SECS_LIMIT && p.1 < NANOS_PER_SEC,
    ensures
        outcome(r) == timestamp_result(text@, parsed),
{
    match parsed {
        Some(p) => Ok(Timestamp::from_unix(p.0, p.1).unwrap()),
        None => Err(CodecError::InvalidValue { expected: TimeKind::Timestamp, found: Scalar::Str(text.clone()) }),
    }
}

impl Sealed for Span {
    open spec fn decoded(s: ScalarModel) -> Result<Span, ErrorModel> {
        match s {
            ScalarModel::Str(text) => if duration_bound_ok(text) {
                duration_result(text, duration_parsed(text))
            } else {
                Err(ErrorModel::InvalidValue { expected: TimeKind::Duration, found: s })
            },
            _ => Err(ErrorModel::InvalidValue { expected: TimeKind::Duration, found: s }),
        }
    }

    open spec fn encoded(v: Span) -> ScalarModel {
        ScalarModel::Str(duration_text((v.secs_spec(), v.nanos_spec())))
    }

    open spec fn canonical(v: Span) -> bool {
        duration_bound_ok(duration_text((v.secs_spec(), v.nanos_spec())))
            && duration_parsed(duration_text((v.secs_spec(), v.nanos_spec()))) == Some((v.secs_spec(), v.nanos_spec()))
    }

    open spec fn within_bounds(v: Span) -> bool {
        duration_bound_ok(duration_text((v.secs_spec(), v.nanos_spec())))
    }

    fn encode(&self) -> (r: Scalar) {
        Scalar::Str(format_duration(self.as_secs(), self.subsec_nanos()))
    }

    fn decode(s: &Scalar) -> (r: Result<Span, CodecError>) {
        match s {
            Scalar::Str(text) => {
                if !check_duration_bound(text.as_str()) {
                    return Err(CodecError::InvalidValue { expected: TimeKind::Duration, found: s.clone() });
                }
                let parsed = match parse_duration(text.as_str()) {
                    Ok(p) => Some(p),
                    Err(_) => None,
                };
                duration_from_parse(text, parsed)
            },
            _ => Err(CodecError::InvalidValue { expected: TimeKind::Duration, found: s.clone() }),
        }
    }

    proof fn lemma_round_trip(v: Span) {
    }
}

impl HumanTime for Span {
    fn kind() -> (r: TimeKind) {
        TimeKind::Duration
    }

    fn is_optional() -> (r: bool) {
        false
    }
}

impl Sealed for Timestamp {
    open spec fn decoded(s: ScalarModel) -> Result<Timestamp, ErrorModel> {
        match s {
            ScalarModel::Str(text) => timestamp_result(text, rfc3339_weak_parsed(text)),
            _ => Err(ErrorModel::InvalidValue { expected: TimeKind::Timestamp, found: s }),
        }
    }

    open spec fn encoded(v: Timestamp) -> ScalarModel {
        ScalarModel::Str(rfc3339_text((v.secs_spec(), v.nanos_spec())))
    }

    open spec fn canonical(v: Timestamp) -> bool {
        rfc3339_weak_parsed(rfc3339_text((v.secs_spec(), v.nanos_spec()))) == Some((v.secs_spec(), v.nanos_spec()))
    }

    open spec fn within_bounds(v: Timestamp) -> bool {
        rfc3339_weak_parsed(rfc3339_text((v.secs_spec(), v.nanos_spec()))) is Some
    }

    fn encode(&self) -> (r: Scalar) {
        Scalar::Str(format_rfc3339(self.unix_secs(), self.subsec_nanos()))
    }

    fn decode(s: &Scalar) -> (r: Result<Timestamp, CodecError>) {
        match s {
            Scalar::Str(text) => {
                let parsed = match parse_rfc3339_weak(text.as_str()) {
                    Ok(p) => Some(p),
                    Err(_) => None,
                };
                timestamp_from_parse(text, parsed)
            },
            _ => Err(CodecError::InvalidValue { expected: TimeKind::Timestamp, found: s.clone() }),
        }
    }

    proof fn lemma_round_trip(v: Timestamp) {
    }
}

impl HumanTime for Timestamp {
    fn kind() -> (r: TimeKind) {
        TimeKind::Timestamp
    }

    fn is_optional() -> (r: bool) {
        false
    }
}

impl<T: Sealed> Sealed for Option<T> {
    open spec fn decoded(s: ScalarModel) -> Result<Option<T>, ErrorModel> {
        match s {
            ScalarModel::Null => Ok(None),
            _ => match T::decoded(s) {
                Ok(v) => Ok(Some(v)),
                Err(e) => Err(e),
            },
        }
    }

    open spec fn encoded(v: Option<T>) -> ScalarModel {
        match v {
            Some(x) => T::encoded(x),
            None => ScalarModel::Null,
        }
    }

    open spec fn canonical(v: Option<T>) -> bool {
        match v {
            Some(x) => T::canonical(x) && T::encoded(x) != ScalarModel::Null,
            None => true,
        }
    }

    open spec fn within_bounds(v: Option<T>) -> bool {
        match v {
            Some(x) => T::within_bounds(x) && T::encoded(x) != ScalarModel::Null,
            None => true,
        }
    }

    fn encode(&self) -> (r: Scalar) {
        match self {
            Some(x) => x.encode(),
            None => Scalar::Null,
        }
    }

    fn decode(s: &Scalar) -> (r: Result<Option<T>, CodecError>) {
        match s {
            Scalar::Null => Ok(None),
            _ => match T::decode(s) {
                Ok(v) => Ok(Some(v)),
                Err(e) => Err(e),
            },
        }
    }

    proof fn lemma_round_trip(v: Option<T>) {
        match v {
            Some(x) => {
                T::lemma_round_trip(x);
            },
            None => {},
        }
    }
}

impl<T: HumanTime> HumanTime for Option<T> {
    fn kind() -> (r: TimeKind) {
        T::kind()
    }

    fn is_optional() -> (r: bool) {
        true
    }
}

} // verus!
