use serde_humantime::{
    deserialize, deserialize_field, duration_from_parse, serialize, timestamp_from_parse,
    CodecError, De, HumanTime, Scalar, Serde, Span, TimeKind, Timestamp,
};

/// The scalar under "time" in a JSON object, or `None` where it is missing.
fn time_field(json: &str) -> Option<Scalar> {
    let value: serde_json::Value = serde_json::from_str(json).unwrap();
    let object = value.as_object().unwrap();
    object.get("time").map(|v| match v {
        serde_json::Value::Null => Scalar::Null,
        serde_json::Value::Bool(b) => Scalar::Bool(*b),
        serde_json::Value::String(s) => Scalar::Str(s.clone()),
        serde_json::Value::Number(n) => match (n.as_u64(), n.as_i64()) {
            (Some(u), _) => Scalar::UInt(u),
            (None, Some(i)) => Scalar::Int(i),
            _ => Scalar::Other,
        },
        _ => Scalar::Other,
    })
}

/// A JSON object whose one field "time" holds the scalar.
fn time_object(s: Scalar) -> String {
    let value = match s {
        Scalar::Null => serde_json::Value::Null,
        Scalar::Str(t) => serde_json::Value::String(t),
        other => panic!("unexpected scalar {:?}", other),
    };
    let mut map = serde_json::Map::new();
    map.insert("time".to_string(), value);
    serde_json::to_string(&serde_json::Value::Object(map)).unwrap()
}

fn epoch_plus(secs: u64) -> Timestamp {
    Timestamp::from_unix(secs, 0).unwrap()
}

#[test]
fn with() {
    let json = r#"{"time": "15 seconds"}"#;
    let time: Span = deserialize(&time_field(json).unwrap()).unwrap();
    assert_eq!(time, Span::from_secs(15));
    let reverse = time_object(serialize(&time));
    assert_eq!(reverse, r#"{"time":"15s"}"#);
}

#[test]
fn with_option() {
    let json = r#"{"time": "15 seconds"}"#;
    let time = deserialize_field::<Span>(time_field(json).as_ref(), true).unwrap();
    assert_eq!(time, Some(Span::from_secs(15)));
    let reverse = time_object(serialize(&time));
    assert_eq!(reverse, r#"{"time":"15s"}"#);

    let json = r#"{"time": null}"#;
    let time = deserialize_field::<Span>(time_field(json).as_ref(), true).unwrap();
    assert_eq!(time, None);
    let reverse = time_object(serialize(&time));
    assert_eq!(reverse, r#"{"time":null}"#);

    let json = r#"{}"#;
    let time = deserialize_field::<Span>(time_field(json).as_ref(), true).unwrap();
    assert_eq!(time, None);
}

#[test]
fn de_option() {
    let json = r#"{"time": "15 seconds"}"#;
    let time = De::<Option<Span>>::decode(&time_field(json).unwrap()).unwrap();
    assert_eq!(time.into_inner(), Some(Span::from_secs(15)));

    let json = r#"{"time": null}"#;
    let time = De::<Option<Span>>::decode(&time_field(json).unwrap()).unwrap();
    assert_eq!(time.into_inner(), None);

    // The framework presents a missing optional field to the codec as absent.
    let json = r#"{}"#;
    let time = De::<Option<Span>>::decode(&time_field(json).unwrap_or(Scalar::Null)).unwrap();
    assert_eq!(time.into_inner(), None);
}

#[test]
fn time() {
    let json = r#"{"time": "2018-05-11 18:28:30"}"#;
    let time: Timestamp = deserialize(&time_field(json).unwrap()).unwrap();
    assert_eq!(time, epoch_plus(1526063310));
    let reverse = time_object(serialize(&time));
    assert_eq!(reverse, r#"{"time":"2018-05-11T18:28:30Z"}"#);
}

#[test]
fn time_with_option() {
    let json = r#"{"time": "2018-05-11 18:28:30"}"#;
    let time = deserialize_field::<Timestamp>(time_field(json).as_ref(), true).unwrap();
    assert_eq!(time, Some(epoch_plus(1526063310)));
    let reverse = time_object(serialize(&time));
    assert_eq!(reverse, r#"{"time":"2018-05-11T18:28:30Z"}"#);

    let json = r#"{"time": null}"#;
    let time = deserialize_field::<Timestamp>(time_field(json).as_ref(), true).unwrap();
    assert_eq!(time, None);
    let reverse = time_object(serialize(&time));
    assert_eq!(reverse, r#"{"time":null}"#);

    let json = r#"{}"#;
    let time = deserialize_field::<Timestamp>(time_field(json).as_ref(), true).unwrap();
    assert_eq!(time, None);
}

#[test]
fn duration_round_trips_through_canonical_text() {
    for span in [Span::from_secs(15), Span::new(9420, 0), Span::new(0, 32_000_000), Span::new(31557600 + 61, 7)] {
        let text = serialize(&span);
        assert_eq!(deserialize::<Span>(&text), Ok(span));
        let again: Span = deserialize(&text).unwrap();
        assert_eq!(serialize(&again), text);
    }
}

#[test]
fn canonical_duration_texts() {
    assert_eq!(serialize(&Span::new(9420, 0)), Scalar::Str("2h 37m".to_string()));
    assert_eq!(serialize(&Span::new(0, 32_000_000)), Scalar::Str("32ms".to_string()));
    assert_eq!(serialize(&Span::from_secs(0)), Scalar::Str("0s".to_string()));
}

#[test]
fn timestamp_reencoding_is_fixed_point() {
    let time = Timestamp::from_unix(1526063310, 500_000_000).unwrap();
    let text = serialize(&time);
    assert_eq!(text, Scalar::Str("2018-05-11T18:28:30.500000000Z".to_string()));
    let again: Timestamp = deserialize(&text).unwrap();
    assert_eq!(again, time);
    assert_eq!(serialize(&again), text);
}

#[test]
fn weak_timestamp_equals_strict() {
    let weak: Timestamp = deserialize(&Scalar::Str("2018-05-11 18:28:30".to_string())).unwrap();
    let strict: Timestamp = deserialize(&Scalar::Str("2018-05-11T18:28:30Z".to_string())).unwrap();
    assert_eq!(weak, strict);
    assert_eq!(weak.unix_secs(), 1526063310);
    assert_eq!(weak.subsec_nanos(), 0);
}

#[test]
fn absent_optional_encodes_as_null() {
    assert_eq!(serialize::<Option<Span>>(&None), Scalar::Null);
    assert_eq!(serialize::<Option<Timestamp>>(&None), Scalar::Null);
    assert_eq!(deserialize::<Option<Span>>(&Scalar::Null), Ok(None));
    assert_eq!(deserialize_field::<Span>(None, true), Ok(None));
    assert_eq!(deserialize_field::<Span>(None, false), Err(CodecError::MissingField));
}

#[test]
fn present_optional_decodes_as_inner() {
    let text = Scalar::Str("2h30m".to_string());
    assert_eq!(deserialize::<Option<Span>>(&text), deserialize::<Span>(&text).map(Some));
    assert_eq!(deserialize::<Option<Span>>(&text), Ok(Some(Span::from_secs(9000))));
    let bad = Scalar::Str("soon".to_string());
    assert_eq!(deserialize::<Option<Span>>(&bad).unwrap_err(), deserialize::<Span>(&bad).unwrap_err());
}

#[test]
fn rejects_text_that_is_not_a_duration() {
    let err = deserialize::<Span>(&Scalar::Str("not a duration".to_string())).unwrap_err();
    assert_eq!(
        err,
        CodecError::InvalidValue {
            expected: TimeKind::Duration,
            found: Scalar::Str("not a duration".to_string()),
        }
    );
}

#[test]
fn rejects_number_as_duration() {
    let err = deserialize::<Span>(&Scalar::UInt(42)).unwrap_err();
    assert_eq!(err, CodecError::InvalidValue { expected: TimeKind::Duration, found: Scalar::UInt(42) });
    let err = deserialize::<Option<Span>>(&Scalar::Int(-3)).unwrap_err();
    assert_eq!(err, CodecError::InvalidValue { expected: TimeKind::Duration, found: Scalar::Int(-3) });
    let err = deserialize::<Span>(&Scalar::Null).unwrap_err();
    assert_eq!(err, CodecError::InvalidValue { expected: TimeKind::Duration, found: Scalar::Null });
}

#[test]
fn rejects_bad_timestamps() {
    for text in ["2018-13-11 18:28:30", "1969-12-31 23:59:59", "yesterday", "2018-05-11T18:28:30+02:00"] {
        let err = deserialize::<Timestamp>(&Scalar::Str(text.to_string())).unwrap_err();
        assert_eq!(
            err,
            CodecError::InvalidValue { expected: TimeKind::Timestamp, found: Scalar::Str(text.to_string()) }
        );
    }
    let err = deserialize::<Timestamp>(&Scalar::Bool(true)).unwrap_err();
    assert_eq!(err, CodecError::InvalidValue { expected: TimeKind::Timestamp, found: Scalar::Bool(true) });
}

#[test]
fn timestamp_edges() {
    let last: Timestamp = deserialize(&Scalar::Str("9999-12-31T23:59:59Z".to_string())).unwrap();
    assert_eq!(last.unix_secs(), 253402300799);
    assert_eq!(serialize(&last), Scalar::Str("9999-12-31T23:59:59Z".to_string()));
    let first: Timestamp = deserialize(&Scalar::Str("1970-01-01 00:00:00".to_string())).unwrap();
    assert_eq!(first, epoch_plus(0));
    assert_eq!(Timestamp::from_unix(253402300800, 0), None);
    assert_eq!(Timestamp::from_unix(0, 1_000_000_000), None);
}

#[test]
fn decisions_on_parse_results() {
    let text = "15 seconds".to_string();
    assert_eq!(duration_from_parse(&text, Some((15, 0))), Ok(Span::from_secs(15)));
    assert_eq!(
        duration_from_parse(&text, None),
        Err(CodecError::InvalidValue { expected: TimeKind::Duration, found: Scalar::Str(text.clone()) })
    );
    assert_eq!(timestamp_from_parse(&text, Some((7, 8))), Ok(Timestamp::from_unix(7, 8).unwrap()));
    assert_eq!(
        timestamp_from_parse(&text, None),
        Err(CodecError::InvalidValue { expected: TimeKind::Timestamp, found: Scalar::Str(text.clone()) })
    );
}

#[test]
fn span_construction_carries_nanos() {
    let s = Span::new(1, 2_500_000_000);
    assert_eq!(s.as_secs(), 3);
    assert_eq!(s.subsec_nanos(), 500_000_000);
    assert_eq!(Span::from_secs(15), Span::new(15, 0));
}

#[test]
fn serde_wrapper_holds_value() {
    let w = Serde::from(Span::from_secs(60));
    assert_eq!(*w.get(), Span::from_secs(60));
    assert_eq!(w.encode(), Scalar::Str("1m".to_string()));
    assert_eq!(w.into_inner(), Span::from_secs(60));
    let d = Serde::<Option<Timestamp>>::decode(&Scalar::Str("2018-05-11T18:28:30Z".to_string())).unwrap();
    assert_eq!(d.into_inner(), Some(epoch_plus(1526063310)));
}

#[test]
fn expectations_name_the_kind() {
    assert_eq!(TimeKind::Duration.expecting(), "a duration");
    assert_eq!(TimeKind::Timestamp.expecting(), "a timestamp");
}

#[test]
fn duration_texts_near_overflow_are_rejected() {
    for text in ["18446744073709551615s 1000000000ns", "18446744073709551615s 1000ms", "18446744073709551615s 1ns"] {
        let err = deserialize::<Span>(&Scalar::Str(text.to_string())).unwrap_err();
        assert_eq!(err, CodecError::InvalidValue { expected: TimeKind::Duration, found: Scalar::Str(text.to_string()) });
    }
}

#[test]
fn large_duration_texts_are_read() {
    assert_eq!(deserialize::<Span>(&Scalar::Str("584542027568ns".to_string())), Ok(Span::new(584, 542027568)));
    assert_eq!(deserialize::<Span>(&Scalar::Str("1000000000000ns".to_string())), Ok(Span::from_secs(1000)));
    assert_eq!(deserialize::<Span>(&Scalar::Str("200000000000000s".to_string())), Ok(Span::from_secs(200000000000000)));
    assert_eq!(deserialize::<Span>(&Scalar::Str("18446744073709551615s".to_string())), Ok(Span::from_secs(u64::MAX)));
    assert_eq!(deserialize::<Span>(&Scalar::Str("1000ms".to_string())), Ok(Span::from_secs(1)));
    assert_eq!(deserialize::<Span>(&Scalar::Str("1 5 s".to_string())), Ok(Span::from_secs(15)));
    let max = Span::from_secs(u64::MAX);
    assert_eq!(deserialize::<Span>(&serialize(&max)), Ok(max));
}

#[test]
fn optional_kinds() {
    assert!(!Span::is_optional());
    assert!(!Timestamp::is_optional());
    assert!(<Option<Span>>::is_optional());
    assert_eq!(<Option<Timestamp>>::kind(), TimeKind::Timestamp);
    assert_eq!(Span::kind(), TimeKind::Duration);
}
