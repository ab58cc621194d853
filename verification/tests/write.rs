use firestore_db_and_auth::documents;
use firestore_db_and_auth::documents::write::{
    assemble_write_result, create, document_id_of, merge_parameters, update_mask, write_result, Timestamp,
    WriteOptions, WriteResult,
};
use firestore_db_and_auth::values::pod_to_document;
use firestore_db_and_auth::dto::{Document, Value};
use firestore_db_and_auth::errors::{ErrorKind, FirebaseError};
use firestore_db_and_auth::http::{Method, Payload};
use firestore_db_and_auth::values::NativeValue;

fn pod(fields: &[(&str, NativeValue)]) -> NativeValue {
    NativeValue::Object(fields.iter().map(|(k, v)| (k.to_string(), copy(v))).collect())
}

fn copy(value: &NativeValue) -> NativeValue {
    match value {
        NativeValue::Null => NativeValue::Null,
        NativeValue::Bool(b) => NativeValue::Bool(*b),
        NativeValue::Integer(i) => NativeValue::Integer(*i),
        NativeValue::Double(d) => NativeValue::Double(*d),
        NativeValue::Timestamp(t) => NativeValue::Timestamp(t.clone()),
        NativeValue::String(s) => NativeValue::String(s.clone()),
        NativeValue::Array(items) => NativeValue::Array(items.iter().map(copy).collect()),
        NativeValue::Object(entries) => {
            NativeValue::Object(entries.iter().map(|(k, v)| (k.clone(), copy(v))).collect())
        }
    }
}

fn answered(name: &str, create_time: Option<&str>, update_time: Option<&str>) -> Document {
    Document {
        name: name.to_string(),
        fields: None,
        create_time: create_time.map(str::to_string),
        update_time: update_time.map(str::to_string),
    }
}

const BASE: &str = "https://firestore.googleapis.com/v1/projects/p/databases/(default)/documents/";

#[test]
fn write_options_default_to_overwrite() {
    assert_eq!(WriteOptions::default(), WriteOptions { merge: false });
}

#[test]
fn write_with_id_patches_the_document() {
    let document = pod(&[("a_string", NativeValue::String("abcd".to_string())), ("an_int", NativeValue::Integer(14))]);
    let request = documents::write::write("p", "tests", Some("service_test"), &document, WriteOptions::default()).unwrap();
    assert_eq!(request.method, Method::Patch);
    assert_eq!(request.url, format!("{}tests/service_test", BASE));
    assert_eq!(request.resource, "service_test");
    assert_eq!(
        request.payload,
        Payload::Document(Document {
            name: String::new(),
            fields: Some(vec![
                ("a_string".to_string(), Value::String("abcd".to_string())),
                ("an_int".to_string(), Value::Integer(14)),
            ]),
            create_time: None,
            update_time: None,
        })
    );
}

#[test]
fn write_without_id_posts_to_the_collection() {
    let request = documents::write::write("p", "a/nested/collection", None, &pod(&[]), WriteOptions::default()).unwrap();
    assert_eq!(request.method, Method::Post);
    assert_eq!(request.url, format!("{}a/nested/collection?", BASE));
    assert_eq!(request.resource, "");
}

#[test]
fn merge_names_only_the_fields_that_are_written() {
    let outgoing = pod(&[("a", NativeValue::Integer(16))]);
    let request = documents::write::write("p", "tests", Some("service_test"), &outgoing, WriteOptions { merge: true }).unwrap();
    assert_eq!(request.method, Method::Patch);
    assert_eq!(
        request.url,
        format!("{}tests/service_test?currentDocument.exists=true&updateMask.fieldPaths=a", BASE)
    );
    let parameters: Vec<&str> = request.url.split(['?', '&']).skip(1).collect();
    let masked: Vec<&str> =
        parameters.iter().filter_map(|p| p.strip_prefix("updateMask.fieldPaths=")).collect();
    assert_eq!(masked, vec!["a"]);
    assert!(!masked.contains(&"b"));
    match request.payload {
        Payload::Document(document) => {
            assert_eq!(document.fields, Some(vec![("a".to_string(), Value::Integer(16))]))
        }
        other => panic!("no document: {:?}", other),
    }
}

#[test]
fn update_mask_holds_the_written_fields_and_no_others() {
    let outgoing = pod_to_document(&pod(&[("a", NativeValue::Integer(16))])).unwrap();
    assert_eq!(update_mask(&outgoing), vec!["a".to_string()]);
    let outgoing = pod_to_document(&pod(&[
        ("a", NativeValue::Null),
        ("b", NativeValue::Object(vec![("c".to_string(), NativeValue::Integer(1))])),
    ]))
    .unwrap();
    assert_eq!(update_mask(&outgoing), vec!["a".to_string(), "b".to_string()]);
    assert_eq!(update_mask(&answered("n", None, None)), Vec::<String>::new());
    assert_eq!(update_mask(&pod_to_document(&pod(&[])).unwrap()), Vec::<String>::new());
}

#[test]
fn merge_parameters_name_each_field_of_the_mask() {
    assert_eq!(merge_parameters(&vec![]), "?currentDocument.exists=true");
    assert_eq!(
        merge_parameters(&vec!["a".to_string()]),
        "?currentDocument.exists=true&updateMask.fieldPaths=a"
    );
    assert_eq!(
        merge_parameters(&vec!["x.y".to_string(), "".to_string(), "z".to_string()]),
        "?currentDocument.exists=true&updateMask.fieldPaths=x.y&updateMask.fieldPaths=&updateMask.fieldPaths=z"
    );
}

#[test]
fn merge_names_every_written_field_once_and_in_order() {
    let outgoing = pod(&[
        ("first", NativeValue::Integer(1)),
        ("second", NativeValue::Null),
        ("third", NativeValue::Array(vec![])),
    ]);
    let request = documents::write::write("p", "tests", Some("d"), &outgoing, WriteOptions { merge: true }).unwrap();
    assert_eq!(
        request.url,
        format!(
            "{}tests/d?currentDocument.exists=true&updateMask.fieldPaths=first&updateMask.fieldPaths=second&updateMask.fieldPaths=third",
            BASE
        )
    );
}

#[test]
fn merge_of_an_empty_document_asks_only_for_existence() {
    let request = documents::write::write("p", "tests", Some("d"), &pod(&[]), WriteOptions { merge: true }).unwrap();
    assert_eq!(request.url, format!("{}tests/d?currentDocument.exists=true", BASE));
}

#[test]
fn merge_without_id_appends_to_the_collection_address() {
    let request = documents::write::write("p", "tests", None, &pod(&[("a", NativeValue::Null)]), WriteOptions { merge: true }).unwrap();
    assert_eq!(request.method, Method::Post);
    assert_eq!(request.url, format!("{}tests??currentDocument.exists=true&updateMask.fieldPaths=a", BASE));
}

#[test]
fn overwrite_carries_no_mask() {
    let request =
        documents::write::write("p", "tests", Some("d"), &pod(&[("a", NativeValue::Integer(1))]), WriteOptions { merge: false }).unwrap();
    assert!(!request.url.contains("updateMask"));
    assert!(!request.url.contains("currentDocument"));
}

#[test]
fn write_of_a_value_that_is_no_map_is_refused() {
    let expected = |resource: &str| FirebaseError {
        kind: ErrorKind::Mapping,
        message: "The value is not of the expected shape".to_string(),
        status: None,
        resource: resource.to_string(),
    };
    assert_eq!(
        documents::write::write("p", "tests", Some("d"), &NativeValue::Integer(1), WriteOptions::default()),
        Err(expected("d"))
    );
    assert_eq!(
        documents::write::write("p", "tests", None, &NativeValue::Array(vec![]), WriteOptions { merge: true }),
        Err(expected(""))
    );
    assert_eq!(create("p", "tests", "d", &NativeValue::Null), Err(expected("d")));
}

#[test]
fn create_posts_with_the_document_id_as_parameter() {
    let request = create("p", "tests", "new_doc", &pod(&[("n", NativeValue::Integer(1))])).unwrap();
    assert_eq!(request.method, Method::Post);
    assert_eq!(request.url, format!("{}tests?documentId=new_doc", BASE));
    assert_eq!(request.resource, "new_doc");
    match request.payload {
        Payload::Document(document) => {
            assert_eq!(document.fields, Some(vec![("n".to_string(), Value::Integer(1))]))
        }
        other => panic!("no document: {:?}", other),
    }
}

#[test]
fn document_id_is_the_final_component_of_the_name() {
    assert_eq!(
        document_id_of("projects/p/databases/(default)/documents/tests/service_test"),
        Some("service_test".to_string())
    );
    assert_eq!(document_id_of("single"), Some("single".to_string()));
    assert_eq!(document_id_of("/rooted"), Some("rooted".to_string()));
    assert_eq!(document_id_of("a/b/"), Some("b".to_string()));
    assert_eq!(document_id_of("a/b//"), Some("b".to_string()));
    assert_eq!(document_id_of("a//b"), Some("b".to_string()));
    assert_eq!(document_id_of("a/b/."), Some("b".to_string()));
    assert_eq!(document_id_of("a/b/.//"), Some("b".to_string()));
    assert_eq!(document_id_of("./a"), Some("a".to_string()));
    assert_eq!(document_id_of("a/.b"), Some(".b".to_string()));
    assert_eq!(document_id_of("a/b."), Some("b.".to_string()));
    assert_eq!(document_id_of("a/..."), Some("...".to_string()));
    assert_eq!(document_id_of("tests/naïve🙂"), Some("naïve🙂".to_string()));
}

#[test]
fn name_without_final_component_has_no_document_id() {
    for name in ["", "/", "//", ".", "./", "/.", "..", "a/..", "a/../", "a/.././", "../."] {
        assert_eq!(document_id_of(name), None, "name {:?}", name);
    }
}

#[test]
fn document_id_agrees_with_the_file_name_of_a_path() {
    let names = [
        "", "/", ".", "..", "a", "a/", "/a", "a/b", "a//b", "a/./b", "a/b/.", "a/b/..", "a/../b", "./a", "../a",
        "a/.b", "a/b.", "a/...", ".../", "a b/c d", "ä/ö", "/./", "//a//", "a/.//.", "..a", "a..", "a/..b/",
    ];
    for name in names {
        let expected = std::path::Path::new(name).file_name().and_then(|f| f.to_str()).map(str::to_string);
        assert_eq!(document_id_of(name), expected, "name {:?}", name);
    }
}

#[test]
fn write_result_reads_id_and_times() {
    let document = answered(
        "projects/p/databases/(default)/documents/tests/service_test",
        Some("2020-01-01T00:00:00Z"),
        Some("1996-12-19T16:39:57.25-08:00"),
    );
    assert_eq!(
        write_result(&document),
        Ok(WriteResult {
            create_time: Some(Timestamp { seconds: 1_577_836_800, nanos: 0 }),
            update_time: Some(Timestamp { seconds: 851_042_397, nanos: 250_000_000 }),
            document_id: "service_test".to_string(),
        })
    );
}

#[test]
fn write_result_times_are_absent_when_the_document_has_none() {
    let document = answered("tests/d", None, None);
    assert_eq!(
        write_result(&document),
        Ok(WriteResult { create_time: None, update_time: None, document_id: "d".to_string() })
    );
    let document = answered("tests/d", None, Some("1970-01-01T00:00:00.000000001Z"));
    assert_eq!(
        write_result(&document),
        Ok(WriteResult {
            create_time: None,
            update_time: Some(Timestamp { seconds: 0, nanos: 1 }),
            document_id: "d".to_string(),
        })
    );
}

#[test]
fn write_result_reads_times_before_1970_and_with_offsets() {
    let document = answered("d", Some("1969-12-31T23:59:59Z"), Some("2020-01-01T01:00:00+01:00"));
    assert_eq!(
        write_result(&document),
        Ok(WriteResult {
            create_time: Some(Timestamp { seconds: -1, nanos: 0 }),
            update_time: Some(Timestamp { seconds: 1_577_836_800, nanos: 0 }),
            document_id: "d".to_string(),
        })
    );
}

#[test]
fn write_result_reads_a_leap_second() {
    let document = answered("d", Some("2016-12-31T23:59:60Z"), Some("2016-12-31T23:59:60.5Z"));
    assert_eq!(
        write_result(&document),
        Ok(WriteResult {
            create_time: Some(Timestamp { seconds: 1_483_228_799, nanos: 1_000_000_000 }),
            update_time: Some(Timestamp { seconds: 1_483_228_799, nanos: 1_500_000_000 }),
            document_id: "d".to_string(),
        })
    );
}

#[test]
fn write_result_without_document_id_is_a_path_error() {
    for name in ["", "tests/..", "/"] {
        assert_eq!(
            write_result(&answered(name, Some("not a date"), None)),
            Err(FirebaseError {
                kind: ErrorKind::Path,
                message: "Resulting documents 'name' field is not a valid path".to_string(),
                status: None,
                resource: name.to_string(),
            })
        );
    }
}

#[test]
fn write_result_with_malformed_create_time_is_a_parse_error() {
    for text in ["", "yesterday", "2020-01-01", "2020-01-01T00:00:00", "2020-13-01T00:00:00Z"] {
        assert_eq!(
            write_result(&answered("tests/d", Some(text), Some("also bad"))),
            Err(FirebaseError {
                kind: ErrorKind::Parse,
                message: "Failed to parse rfc3339 date from 'create_time' field".to_string(),
                status: None,
                resource: "tests/d".to_string(),
            })
        );
    }
}

#[test]
fn write_result_with_malformed_update_time_is_a_parse_error() {
    assert_eq!(
        write_result(&answered("tests/d", Some("2020-01-01T00:00:00Z"), Some("2020-01-01 00:00:00"))),
        Err(FirebaseError {
            kind: ErrorKind::Parse,
            message: "Failed to parse rfc3339 date from 'update_time' field".to_string(),
            status: None,
            resource: "tests/d".to_string(),
        })
    );
    assert_eq!(
        write_result(&answered("tests/d", None, Some("tomorrow"))).unwrap_err().message,
        "Failed to parse rfc3339 date from 'update_time' field"
    );
}

#[test]
fn write_result_is_assembled_from_its_parts() {
    let instant = Timestamp { seconds: 5, nanos: 6 };
    assert_eq!(
        assemble_write_result("n/d", Some("d".to_string()), Some(Some(instant)), None),
        Ok(WriteResult { create_time: Some(instant), update_time: None, document_id: "d".to_string() })
    );
    assert_eq!(
        assemble_write_result("n/d", None, Some(None), Some(None)).unwrap_err().kind,
        ErrorKind::Path
    );
    assert_eq!(
        assemble_write_result("n/d", Some("d".to_string()), Some(None), Some(None)).unwrap_err().message,
        "Failed to parse rfc3339 date from 'create_time' field"
    );
    assert_eq!(
        assemble_write_result("n/d", Some("d".to_string()), None, Some(None)).unwrap_err().message,
        "Failed to parse rfc3339 date from 'update_time' field"
    );
}
