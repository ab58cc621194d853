use firestore_db_and_auth::dto::{Document, Value};
use firestore_db_and_auth::errors::{ErrorKind, FirebaseError};
use firestore_db_and_auth::values::{
    document_to_pod, has_shape, is_supported, mapping_failure, native_to_wire, pod_to_document,
    wire_to_native, MappingError, NativeValue, Shape,
};

fn text(s: &str) -> String {
    s.to_string()
}

fn sample_native() -> NativeValue {
    NativeValue::Object(vec![
        (text("name"), NativeValue::String(text("Sam Weiss"))),
        (text("age"), NativeValue::Integer(-42)),
        (text("ratio"), NativeValue::Double(1.5f64.to_bits())),
        (text("active"), NativeValue::Bool(true)),
        (text("nothing"), NativeValue::Null),
        (text("since"), NativeValue::Timestamp(text("2020-01-01T00:00:00Z"))),
        (
            text("tags"),
            NativeValue::Array(vec![
                NativeValue::String(text("a")),
                NativeValue::Integer(1),
                NativeValue::Array(vec![]),
            ]),
        ),
        (
            text("nested"),
            NativeValue::Object(vec![(text("deep"), NativeValue::Object(vec![]))]),
        ),
    ])
}

fn sample_wire() -> Value {
    Value::Object(vec![
        (text("name"), Value::String(text("Sam Weiss"))),
        (text("age"), Value::Integer(-42)),
        (text("ratio"), Value::Double(1.5f64.to_bits())),
        (text("active"), Value::Boolean(true)),
        (text("nothing"), Value::Null),
        (text("since"), Value::Timestamp(text("2020-01-01T00:00:00Z"))),
        (
            text("tags"),
            Value::Array(vec![Value::String(text("a")), Value::Integer(1), Value::Array(vec![])]),
        ),
        (text("nested"), Value::Object(vec![(text("deep"), Value::Object(vec![]))])),
    ])
}

#[test]
fn native_scalars_map_to_their_wire_kinds() {
    assert_eq!(native_to_wire(&NativeValue::Null), Value::Null);
    assert_eq!(native_to_wire(&NativeValue::Bool(false)), Value::Boolean(false));
    assert_eq!(native_to_wire(&NativeValue::Integer(i64::MIN)), Value::Integer(i64::MIN));
    assert_eq!(native_to_wire(&NativeValue::Integer(i64::MAX)), Value::Integer(i64::MAX));
    assert_eq!(native_to_wire(&NativeValue::String(text("é"))), Value::String(text("é")));
    assert_eq!(
        native_to_wire(&NativeValue::Timestamp(text("2020-01-01T00:00:00Z"))),
        Value::Timestamp(text("2020-01-01T00:00:00Z"))
    );
}

#[test]
fn integer_and_double_stay_apart() {
    assert_eq!(native_to_wire(&NativeValue::Integer(1)), Value::Integer(1));
    assert_eq!(native_to_wire(&NativeValue::Double(1.0f64.to_bits())), Value::Double(1.0f64.to_bits()));
    assert_eq!(wire_to_native(&Value::Integer(1), &Shape::Double), Err(MappingError::ShapeMismatch));
    assert_eq!(wire_to_native(&Value::Double(1.0f64.to_bits()), &Shape::Integer), Err(MappingError::ShapeMismatch));
}

#[test]
fn double_keeps_its_bits() {
    for x in [0.0f64, -0.0, 1.5, f64::INFINITY, f64::NEG_INFINITY, f64::NAN, f64::MIN_POSITIVE] {
        let wire = native_to_wire(&NativeValue::Double(x.to_bits()));
        assert_eq!(wire, Value::Double(x.to_bits()));
        assert_eq!(wire_to_native(&wire, &Shape::Double), Ok(NativeValue::Double(x.to_bits())));
    }
}

#[test]
fn composite_native_value_maps_structurally() {
    assert_eq!(native_to_wire(&sample_native()), sample_wire());
}

#[test]
fn round_trip_gives_the_value_back() {
    let values = vec![
        NativeValue::Null,
        NativeValue::Bool(true),
        NativeValue::Integer(0),
        NativeValue::Double(2.25f64.to_bits()),
        NativeValue::Timestamp(text("1996-12-19T16:39:57-08:00")),
        NativeValue::String(text("")),
        NativeValue::Array(vec![]),
        NativeValue::Object(vec![]),
        sample_native(),
    ];
    for value in &values {
        assert_eq!(wire_to_native(&native_to_wire(value), &Shape::Any).as_ref(), Ok(value));
    }
}

#[test]
fn round_trip_with_the_shape_of_the_value() {
    let value = NativeValue::Object(vec![
        (text("a"), NativeValue::Array(vec![NativeValue::Integer(1), NativeValue::Integer(2)])),
        (text("b"), NativeValue::Array(vec![])),
    ]);
    let shape = Shape::Object(Box::new(Shape::Array(Box::new(Shape::Integer))));
    assert_eq!(wire_to_native(&native_to_wire(&value), &shape), Ok(value));
}

#[test]
fn wire_integer_into_string_shape_is_a_mismatch() {
    assert_eq!(wire_to_native(&Value::Integer(5), &Shape::String), Err(MappingError::ShapeMismatch));
}

#[test]
fn each_scalar_shape_takes_only_its_kind() {
    let wires = [
        (Value::Null, Shape::Null),
        (Value::Boolean(true), Shape::Bool),
        (Value::Integer(3), Shape::Integer),
        (Value::Double(3), Shape::Double),
        (Value::Timestamp(text("t")), Shape::Timestamp),
        (Value::String(text("s")), Shape::String),
    ];
    for (i, (wire, _)) in wires.iter().enumerate() {
        for (j, (_, shape)) in wires.iter().enumerate() {
            assert_eq!(has_shape(wire, shape), i == j, "wire {:?} shape {:?}", wire, shape);
            assert_eq!(wire_to_native(wire, shape).is_ok(), i == j);
        }
        assert!(has_shape(wire, &Shape::Any));
    }
}

#[test]
fn timestamp_is_not_taken_for_a_string() {
    assert_eq!(
        wire_to_native(&Value::Timestamp(text("2020-01-01T00:00:00Z")), &Shape::String),
        Err(MappingError::ShapeMismatch)
    );
    assert_eq!(
        wire_to_native(&Value::Timestamp(text("2020-01-01T00:00:00Z")), &Shape::Timestamp),
        Ok(NativeValue::Timestamp(text("2020-01-01T00:00:00Z")))
    );
}

#[test]
fn array_shape_asks_every_item() {
    let shape = Shape::Array(Box::new(Shape::Integer));
    let good = Value::Array(vec![Value::Integer(1), Value::Integer(2)]);
    let bad = Value::Array(vec![Value::Integer(1), Value::String(text("2"))]);
    assert_eq!(
        wire_to_native(&good, &shape),
        Ok(NativeValue::Array(vec![NativeValue::Integer(1), NativeValue::Integer(2)]))
    );
    assert_eq!(wire_to_native(&bad, &shape), Err(MappingError::ShapeMismatch));
    assert_eq!(wire_to_native(&Value::Array(vec![]), &shape), Ok(NativeValue::Array(vec![])));
    assert_eq!(wire_to_native(&Value::Integer(1), &shape), Err(MappingError::ShapeMismatch));
    assert_eq!(wire_to_native(&Value::Object(vec![]), &shape), Err(MappingError::ShapeMismatch));
}

#[test]
fn object_shape_asks_every_value() {
    let shape = Shape::Object(Box::new(Shape::Bool));
    let good = Value::Object(vec![(text("x"), Value::Boolean(true)), (text("y"), Value::Boolean(false))]);
    let bad = Value::Object(vec![(text("x"), Value::Boolean(true)), (text("y"), Value::Null)]);
    assert_eq!(
        wire_to_native(&good, &shape),
        Ok(NativeValue::Object(vec![
            (text("x"), NativeValue::Bool(true)),
            (text("y"), NativeValue::Bool(false)),
        ]))
    );
    assert_eq!(wire_to_native(&bad, &shape), Err(MappingError::ShapeMismatch));
    assert_eq!(wire_to_native(&Value::Array(vec![]), &shape), Err(MappingError::ShapeMismatch));
}

#[test]
fn optional_shape_takes_null_or_the_inner_shape() {
    let shape = Shape::Optional(Box::new(Shape::Integer));
    assert_eq!(wire_to_native(&Value::Null, &shape), Ok(NativeValue::Null));
    assert_eq!(wire_to_native(&Value::Integer(7), &shape), Ok(NativeValue::Integer(7)));
    assert_eq!(wire_to_native(&Value::String(text("7")), &shape), Err(MappingError::ShapeMismatch));
    let nested = Shape::Array(Box::new(Shape::Optional(Box::new(Shape::Optional(Box::new(Shape::Bool))))));
    assert!(has_shape(&Value::Array(vec![Value::Null, Value::Boolean(true)]), &nested));
    assert!(!has_shape(&Value::Array(vec![Value::Null, Value::Integer(1)]), &nested));
}

fn person() -> Shape {
    Shape::Record(vec![
        (text("name"), Shape::String),
        (text("age"), Shape::Integer),
        (text("nick"), Shape::Optional(Box::new(Shape::String))),
    ])
}

#[test]
fn record_shape_asks_each_listed_field() {
    let full = Value::Object(vec![
        (text("age"), Value::Integer(30)),
        (text("nick"), Value::String(text("sam"))),
        (text("name"), Value::String(text("Sam Weiss"))),
    ]);
    assert_eq!(
        wire_to_native(&full, &person()),
        Ok(NativeValue::Object(vec![
            (text("age"), NativeValue::Integer(30)),
            (text("nick"), NativeValue::String(text("sam"))),
            (text("name"), NativeValue::String(text("Sam Weiss"))),
        ]))
    );
    let wrong_kind = Value::Object(vec![(text("name"), Value::Integer(5)), (text("age"), Value::Integer(30))]);
    assert_eq!(wire_to_native(&wrong_kind, &person()), Err(MappingError::ShapeMismatch));
    let wrong_nick = Value::Object(vec![
        (text("name"), Value::String(text("x"))),
        (text("age"), Value::Integer(30)),
        (text("nick"), Value::Integer(1)),
    ]);
    assert_eq!(wire_to_native(&wrong_nick, &person()), Err(MappingError::ShapeMismatch));
}

#[test]
fn record_shape_lets_optional_fields_be_missing_or_null() {
    let without = Value::Object(vec![(text("name"), Value::String(text("x"))), (text("age"), Value::Integer(1))]);
    assert!(has_shape(&without, &person()));
    let with_null = Value::Object(vec![
        (text("name"), Value::String(text("x"))),
        (text("nick"), Value::Null),
        (text("age"), Value::Integer(1)),
    ]);
    assert!(has_shape(&with_null, &person()));
    let missing_required = Value::Object(vec![(text("name"), Value::String(text("x")))]);
    assert!(!has_shape(&missing_required, &person()));
    assert_eq!(wire_to_native(&missing_required, &person()), Err(MappingError::ShapeMismatch));
    assert!(!has_shape(&Value::Object(vec![]), &person()));
}

#[test]
fn record_shape_allows_other_keys_and_reads_the_first_of_twins() {
    let extra = Value::Object(vec![
        (text("extra"), Value::Array(vec![])),
        (text("name"), Value::String(text("x"))),
        (text("age"), Value::Integer(1)),
    ]);
    assert!(has_shape(&extra, &person()));
    let shape = Shape::Record(vec![(text("a"), Shape::Integer)]);
    let first_fits = Value::Object(vec![(text("a"), Value::Integer(1)), (text("a"), Value::String(text("x")))]);
    let first_fails = Value::Object(vec![(text("a"), Value::String(text("x"))), (text("a"), Value::Integer(1))]);
    assert!(has_shape(&first_fits, &shape));
    assert!(!has_shape(&first_fails, &shape));
}

#[test]
fn record_shape_takes_maps_only() {
    assert!(has_shape(&Value::Object(vec![]), &Shape::Record(vec![])));
    assert!(has_shape(&sample_wire(), &Shape::Record(vec![])));
    assert!(!has_shape(&Value::Array(vec![]), &Shape::Record(vec![])));
    assert!(!has_shape(&Value::Null, &Shape::Record(vec![])));
    let nested = Shape::Record(vec![(
        text("nested"),
        Shape::Record(vec![(text("deep"), Shape::Object(Box::new(Shape::Any)))]),
    )]);
    assert!(has_shape(&sample_wire(), &nested));
    assert_eq!(wire_to_native(&native_to_wire(&sample_native()), &nested), Ok(sample_native()));
}

#[test]
fn kinds_without_native_counterpart_are_refused() {
    let unsupported = [
        Value::Bytes(text("AQID")),
        Value::Reference(text("projects/p/databases/(default)/documents/c/d")),
        Value::GeoPoint(1.0f64.to_bits(), 2.0f64.to_bits()),
    ];
    for wire in &unsupported {
        assert!(!is_supported(wire));
        assert_eq!(wire_to_native(wire, &Shape::Any), Err(MappingError::UnsupportedKind));
        assert_eq!(wire_to_native(wire, &Shape::String), Err(MappingError::UnsupportedKind));
    }
}

#[test]
fn unsupported_kind_deep_inside_is_found() {
    let wire = Value::Object(vec![
        (text("ok"), Value::Integer(1)),
        (text("list"), Value::Array(vec![Value::Null, Value::Object(vec![(text("blob"), Value::Bytes(text("")))])])),
    ]);
    assert!(!is_supported(&wire));
    assert_eq!(wire_to_native(&wire, &Shape::Any), Err(MappingError::UnsupportedKind));
    assert_eq!(wire_to_native(&wire, &Shape::Integer), Err(MappingError::UnsupportedKind));
    assert!(is_supported(&sample_wire()));
}

#[test]
fn native_map_becomes_a_document() {
    let document = pod_to_document(&sample_native()).unwrap();
    assert_eq!(document.name, "");
    assert_eq!(document.create_time, None);
    assert_eq!(document.update_time, None);
    assert_eq!(Value::Object(document.fields.unwrap()), sample_wire());
}

#[test]
fn empty_native_map_becomes_a_document_with_no_entries() {
    let document = pod_to_document(&NativeValue::Object(vec![])).unwrap();
    assert_eq!(document.fields, Some(vec![]));
}

#[test]
fn native_value_that_is_no_map_is_no_document() {
    for pod in [NativeValue::Null, NativeValue::Integer(1), NativeValue::Array(vec![]), NativeValue::String(text("x"))] {
        assert_eq!(pod_to_document(&pod), Err(MappingError::ShapeMismatch));
    }
}

#[test]
fn document_becomes_the_native_map_of_its_fields() {
    let document = Document {
        name: text("projects/p/databases/(default)/documents/c/d"),
        fields: Some(vec![(text("n"), Value::Integer(3)), (text("s"), Value::String(text("x")))]),
        create_time: Some(text("2020-01-01T00:00:00Z")),
        update_time: None,
    };
    assert_eq!(
        document_to_pod(document, &Shape::Any),
        Ok(NativeValue::Object(vec![
            (text("n"), NativeValue::Integer(3)),
            (text("s"), NativeValue::String(text("x"))),
        ]))
    );
}

#[test]
fn document_without_fields_is_an_empty_map() {
    let document = Document { name: text("n"), fields: None, create_time: None, update_time: None };
    assert_eq!(document_to_pod(document, &Shape::Object(Box::new(Shape::Integer))), Ok(NativeValue::Object(vec![])));
    let document = Document { name: text("n"), fields: None, create_time: None, update_time: None };
    assert_eq!(document_to_pod(document, &Shape::Array(Box::new(Shape::Any))), Err(MappingError::ShapeMismatch));
}

#[test]
fn document_with_unexpected_field_shape_is_refused() {
    let fields = || Some(vec![(text("n"), Value::Integer(3)), (text("s"), Value::String(text("x")))]);
    let document = Document { name: text("n"), fields: fields(), create_time: None, update_time: None };
    assert_eq!(
        document_to_pod(document, &Shape::Object(Box::new(Shape::Integer))),
        Err(MappingError::ShapeMismatch)
    );
    let document = Document {
        name: text("n"),
        fields: Some(vec![(text("g"), Value::GeoPoint(0, 0))]),
        create_time: None,
        update_time: None,
    };
    assert_eq!(document_to_pod(document, &Shape::Any), Err(MappingError::UnsupportedKind));
}

#[test]
fn written_document_reads_back_as_the_same_map() {
    let document = pod_to_document(&sample_native()).unwrap();
    assert_eq!(document_to_pod(document, &Shape::Any), Ok(sample_native()));
}

#[test]
fn mapping_error_becomes_an_error_for_the_resource() {
    assert_eq!(
        mapping_failure(MappingError::UnsupportedKind, "docs/a"),
        FirebaseError {
            kind: ErrorKind::Mapping,
            message: text("The value is of a kind that has no native counterpart"),
            status: None,
            resource: text("docs/a"),
        }
    );
    assert_eq!(
        mapping_failure(MappingError::ShapeMismatch, ""),
        FirebaseError {
            kind: ErrorKind::Mapping,
            message: text("The value is not of the expected shape"),
            status: None,
            resource: text(""),
        }
    );
    assert!(!mapping_failure(MappingError::ShapeMismatch, "").is_transient());
}
