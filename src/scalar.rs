//! The single values that the codec reads from and writes to the enclosing
//! serialization framework, and the error it reports.
use vstd::prelude::*;

verus! {

/// A single value as the framework presents it to the codec, or as the codec
/// hands it back.
#[derive(Debug, PartialEq, Eq)]
pub enum Scalar {
    /// An explicit absent value (`null`, a unit, `None`).
    Null,
    Bool(bool),
    Int(i64),
    UInt(u64),
    Str(String),
    /// A value of any other shape: a fraction, a sequence, a map.
    Other,
}

/// What a `Scalar` holds, with its text as a sequence of characters.
pub enum ScalarModel {
    Null,
    Bool(bool),
    Int(i64),
    UInt(u64),
    Str(Seq<char>),
    Other,
}

impl View for Scalar {
    type V = ScalarModel;

    open spec fn view(&self) -> ScalarModel {
        match self {
            Scalar::Null => ScalarModel::Null,
            Scalar::Bool(b) => ScalarModel::Bool(*b),
            Scalar::Int(i) => ScalarModel::Int(*i),
            Scalar::UInt(u) => ScalarModel::UInt(*u),
            Scalar::Str(s) => ScalarModel::Str(s@),
            Scalar::Other => ScalarModel::Other,
        }
    }
}

impl Clone for Scalar {
    fn clone(&self) -> (r: Scalar)
        ensures
            r@ == self@,
    {
        match self {
            Scalar::Null => Scalar::Null,
            Scalar::Bool(b) => Scalar::Bool(*b),
            Scalar::Int(i) => Scalar::Int(*i),
            Scalar::UInt(u) => Scalar::UInt(*u),
            Scalar::Str(s) => Scalar::Str(s.clone()),
            Scalar::Other => Scalar::Other,
        }
    }
}

/// The kinds of time value that the codec supports.
#[derive(Clone, Copy, Debug, PartialEq, Eq, Structural, Hash)]
pub enum TimeKind {
    Duration,
    Timestamp,
}

impl TimeKind {
    /// What an input of this kind was expected to be, for diagnostics.
    pub fn expecting(&self) -> (r: &'static str)
        ensures
            *self == TimeKind::Duration ==> r@ == "a duration"@,
            *self == TimeKind::Timestamp ==> r@ == "a timestamp"@,
    {
        match self {
            TimeKind::Duration => "a duration",
            TimeKind::Timestamp => "a timestamp",
        }
    }
}

/// Why a value could not be decoded.
#[derive(Debug, PartialEq, Eq)]
pub enum CodecError {
    /// The input was not text of the expected kind: either not text at all,
    /// or text that the grammar rejects. `found` is the input as given.
    InvalidValue { expected: TimeKind, found: Scalar },
    /// A field was absent and no default applies to it.
    MissingField,
}

/// What a `CodecError` holds.
pub enum ErrorModel {
    InvalidValue { expected: TimeKind, found: ScalarModel },
    MissingField,
}

impl View for CodecError {
    type V = ErrorModel;

    open spec fn view(&self) -> ErrorModel {
        match self {
            CodecError::InvalidValue { expected, found } => ErrorModel::InvalidValue {
                expected: *expected,
                found: found@,
            },
            CodecError::MissingField => ErrorModel::MissingField,
        }
    }
}

/// A decoding outcome with its error replaced by the error's model.
pub open spec fn outcome<T>(r: Result<T, CodecError>) -> Result<T, ErrorModel> {
    match r {
        Ok(v) => Ok(v),
        Err(e) => Err(e@),
    }
}

} // verus!
