//! Facts that hold of every use of the codec.
use vstd::prelude::*;

use crate::field_decoded;
use crate::numbers::duration_bound_ok;
use crate::traits::duration_result;
use crate::scalar::{ErrorModel, ScalarModel, TimeKind};
use crate::text::{duration_parsed, rfc3339_weak_parsed};
use crate::time::{Span, Timestamp};
use crate::traits::{HumanTime, Sealed};

verus! {

/// Decoding the canonical encoding of a value gives the value back, for every
/// value whose canonical text the grammar reads back to it.
pub proof fn lemma_round_trip<T: HumanTime>(v: T)
    requires
        T::canonical(v),
    ensures
        T::decoded(T::encoded(v)) == Ok::<T, ErrorModel>(v),
{
    T::lemma_round_trip(v);
}

/// On every text within the bound on its seconds, decoding a duration gives
/// exactly what the grammar reads: the duration, or an invalid value that
/// carries the text.
pub proof fn lemma_duration_decodes_as_parsed(text: Seq<char>)
    requires
        duration_bound_ok(text),
    ensures
        Span::decoded(ScalarModel::Str(text)) == duration_result(text, duration_parsed(text)),
        Span::decoded(ScalarModel::Str(text)) is Ok <==> duration_parsed(text) is Some,
{
}

/// The canonical encoding is a fixed point: encoding what its decoding gives
/// yields the same scalar.
pub proof fn lemma_reencode_fixed_point<T: HumanTime>(v: T)
    requires
        T::canonical(v),
    ensures
        T::decoded(T::encoded(v)) matches Ok(w) && T::encoded(w) == T::encoded(v),
{
    T::lemma_round_trip(v);
}

/// An absent optional value encodes as the null scalar; the null scalar, and a
/// missing field under the default-when-absent policy, decode as absent.
/// (`field_decoded` is what `deserialize_field` returns; `Option::<T>::decoded`
/// is what `deserialize::<Option<T>>` returns.)
pub proof fn lemma_absent<T: HumanTime>(default_when_absent: bool)
    ensures
        Option::<T>::encoded(None) == ScalarModel::Null,
        Option::<T>::decoded(ScalarModel::Null) == Ok::<Option<T>, ErrorModel>(None),
        field_decoded::<T>(Some(ScalarModel::Null), default_when_absent) == Ok::<Option<T>, ErrorModel>(None),
        field_decoded::<T>(None, true) == Ok::<Option<T>, ErrorModel>(None),
{
}

/// A field that the input lacks, decoded by `deserialize_field` as an
/// optional duration or timestamp under the default-when-absent policy,
/// decodes successfully as absent, whatever the kind of value.
pub proof fn lemma_missing_field_defaults_to_none<T: HumanTime>()
    ensures
        field_decoded::<T>(None, true) is Ok,
        field_decoded::<T>(None, true) == Ok::<Option<T>, ErrorModel>(None),
        field_decoded::<T>(None, false) == Err::<Option<T>, ErrorModel>(ErrorModel::MissingField),
{
}

/// A present optional value decodes exactly as the value itself would, and is
/// then wrapped as present.
pub proof fn lemma_present<T: HumanTime>(s: ScalarModel)
    requires
        s != ScalarModel::Null,
    ensures
        Option::<T>::decoded(s) == match T::decoded(s) {
            Ok(v) => Ok::<Option<T>, ErrorModel>(Some(v)),
            Err(e) => Err(e),
        },
        Option::<T>::decoded(s) is Ok <==> T::decoded(s) is Ok,
{
}

/// A scalar that is not text is rejected as an invalid value that carries the
/// scalar.
pub proof fn lemma_non_text_rejected(s: ScalarModel)
    requires
        !(s is Str),
    ensures
        Span::decoded(s) == Err::<Span, ErrorModel>(ErrorModel::InvalidValue { expected: TimeKind::Duration, found: s }),
        Timestamp::decoded(s) == Err::<Timestamp, ErrorModel>(ErrorModel::InvalidValue { expected: TimeKind::Timestamp, found: s }),
{
}

/// Text that the grammar rejects, or a duration text whose numbers exceed the
/// bound checked before the grammar, is reported as an invalid value that
/// carries the text.
pub proof fn lemma_rejected_text(text: Seq<char>)
    ensures
        !duration_bound_ok(text) ==> Span::decoded(ScalarModel::Str(text))
            == Err::<Span, ErrorModel>(ErrorModel::InvalidValue { expected: TimeKind::Duration, found: ScalarModel::Str(text) }),
        duration_parsed(text) is None ==> Span::decoded(ScalarModel::Str(text))
            == Err::<Span, ErrorModel>(ErrorModel::InvalidValue { expected: TimeKind::Duration, found: ScalarModel::Str(text) }),
        rfc3339_weak_parsed(text) is None ==> Timestamp::decoded(ScalarModel::Str(text))
            == Err::<Timestamp, ErrorModel>(ErrorModel::InvalidValue { expected: TimeKind::Timestamp, found: ScalarModel::Str(text) }),
{
}

} // verus!
