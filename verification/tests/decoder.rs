use image_processor::batch::Next;
use image_processor::config::ConfigError;
use image_processor::decoder::{decode, decode_record, StructuralError};
use image_processor::flow::Request;
use image_processor::invocation::{begin, InvocationError};
use image_processor::json::Json;
use image_processor::model::ObjectRef;

fn to_json(value: &serde_json::Value) -> Json {
    match value {
        serde_json::Value::Null => Json::Null,
        serde_json::Value::Bool(b) => Json::Bool(*b),
        serde_json::Value::Number(n) => Json::Number(n.to_string()),
        serde_json::Value::String(s) => Json::Text(s.clone()),
        serde_json::Value::Array(items) => Json::Array(items.iter().map(to_json).collect()),
        serde_json::Value::Object(members) => {
            Json::Object(members.iter().map(|(k, v)| (k.clone(), to_json(v))).collect())
        }
    }
}

fn parse(text: &str) -> Json {
    to_json(&serde_json::from_str::<serde_json::Value>(text).expect("well-formed JSON"))
}

fn object(members: Vec<(&str, Json)>) -> Json {
    Json::Object(members.into_iter().map(|(k, v)| (k.to_string(), v)).collect())
}

fn record(bucket: &str, key: &str) -> Json {
    object(vec![(
        "s3",
        object(vec![
            ("bucket", object(vec![("name", Json::Text(bucket.to_string()))])),
            ("object", object(vec![("key", Json::Text(key.to_string()))])),
        ]),
    )])
}

const NOTIFICATION: &str = r#"{
  "Records": [
    {
      "eventVersion": "2.1",
      "eventSource": "aws:s3",
      "awsRegion": "eu-west-1",
      "eventTime": "2024-05-01T12:00:00.000Z",
      "eventName": "ObjectCreated:Put",
      "s3": {
        "s3SchemaVersion": "1.0",
        "configurationId": "upload",
        "bucket": { "name": "faces-in", "arn": "arn:aws:s3:::faces-in" },
        "object": { "key": "staff/alice.jpg", "size": 48213, "eTag": "abc" }
      }
    },
    {
      "s3": {
        "object": { "size": 1.5, "key": "staff/bob.jpg" },
        "bucket": { "name": "faces-in" }
      }
    }
  ]
}"#;

#[test]
fn decodes_a_notification_in_document_order() {
    let batch = decode(&parse(NOTIFICATION)).expect("a batch");
    assert_eq!(
        batch,
        vec![
            ObjectRef::new("faces-in", "staff/alice.jpg"),
            ObjectRef::new("faces-in", "staff/bob.jpg")
        ]
    );
}

#[test]
fn decodes_an_empty_batch() {
    assert_eq!(decode(&parse(r#"{"Records": []}"#)), Ok(vec![]));
}

#[test]
fn payload_without_records_is_refused() {
    assert_eq!(decode(&parse("{}")), Err(StructuralError::NoRecords));
    assert_eq!(decode(&parse(r#"{"records": []}"#)), Err(StructuralError::NoRecords));
    assert_eq!(decode(&parse(r#"{"Records": {}}"#)), Err(StructuralError::NoRecords));
    assert_eq!(decode(&parse(r#"{"Records": "none"}"#)), Err(StructuralError::NoRecords));
    assert_eq!(decode(&parse("[]")), Err(StructuralError::NoRecords));
    assert_eq!(decode(&parse("null")), Err(StructuralError::NoRecords));
    assert_eq!(decode(&Json::Bool(true)), Err(StructuralError::NoRecords));
    assert_eq!(decode(&Json::Number("3".to_string())), Err(StructuralError::NoRecords));
}

#[test]
fn first_malformed_record_is_reported() {
    let event = object(vec![(
        "Records",
        Json::Array(vec![
            record("b", "k0"),
            object(vec![("s3", object(vec![("bucket", object(vec![]))]))]),
            Json::Null,
        ]),
    )]);
    assert_eq!(decode(&event), Err(StructuralError::MalformedRecord { index: 1 }));
}

#[test]
fn record_needs_texts_for_bucket_name_and_key() {
    assert_eq!(decode_record(&record("b", "k")), Some(ObjectRef::new("b", "k")));
    assert_eq!(decode_record(&record("", "")), Some(ObjectRef::new("", "")));
    assert_eq!(decode_record(&Json::Null), None);
    assert_eq!(decode_record(&object(vec![])), None);
    assert_eq!(decode_record(&object(vec![("s3", Json::Array(vec![]))])), None);
    let number_as_key = parse(r#"{"s3": {"bucket": {"name": "b"}, "object": {"key": 7}}}"#);
    assert_eq!(decode_record(&number_as_key), None);
    let null_name = parse(r#"{"s3": {"bucket": {"name": null}, "object": {"key": "k"}}}"#);
    assert_eq!(decode_record(&null_name), None);
    let no_object = parse(r#"{"s3": {"bucket": {"name": "b"}}}"#);
    assert_eq!(decode_record(&no_object), None);
    let no_bucket = parse(r#"{"s3": {"object": {"key": "k"}}}"#);
    assert_eq!(decode_record(&no_bucket), None);
}

#[test]
fn member_lookup() {
    let value = parse(r#"{"a": "x", "b": [1, true], "c": {"d": null}}"#);
    assert_eq!(value.get("a"), Some(&Json::Text("x".to_string())));
    assert_eq!(value.get_text("a"), Some(&"x".to_string()));
    assert_eq!(value.get_text("b"), None);
    assert_eq!(
        value.get_array("b"),
        Some(&vec![Json::Number("1".to_string()), Json::Bool(true)])
    );
    assert_eq!(value.get_array("a"), None);
    assert_eq!(value.get("z"), None);
    assert_eq!(value.get("c").and_then(|c| c.get("d")), Some(&Json::Null));
    assert_eq!(Json::Text("a".to_string()).get("a"), None);
    let twice = Json::Object(vec![
        ("k".to_string(), Json::Bool(false)),
        ("k".to_string(), Json::Bool(true)),
    ]);
    assert_eq!(twice.get("k"), Some(&Json::Bool(false)));
}

#[test]
fn structural_error_messages() {
    assert_eq!(StructuralError::NoRecords.message(), "Malformed event: no array under `Records`");
    assert_eq!(
        StructuralError::MalformedRecord { index: 12 }.message(),
        "Malformed event: no bucket name or object key in record 12"
    );
}

#[test]
fn missing_collection_fails_the_invocation() {
    let started = begin(None, Some("people".to_string()), &parse(NOTIFICATION));
    match started {
        Err(e) => {
            assert_eq!(e, InvocationError::Configuration(ConfigError::MissingCollection));
            assert_eq!(e.message(), "Environment variable RECOGNITION_COLLECTION not set");
        }
        Ok(_) => panic!("the invocation must fail"),
    }
}

#[test]
fn missing_table_fails_the_invocation() {
    let started = begin(Some("faces".to_string()), None, &parse(NOTIFICATION));
    match started {
        Err(e) => {
            assert_eq!(e, InvocationError::Configuration(ConfigError::MissingTable));
            assert_eq!(e.message(), "Environment variable RECORD_TABLE not set");
        }
        Ok(_) => panic!("the invocation must fail"),
    }
}

#[test]
fn configuration_is_looked_at_before_the_payload() {
    match begin(None, None, &Json::Null) {
        Err(e) => assert_eq!(e, InvocationError::Configuration(ConfigError::MissingCollection)),
        Ok(_) => panic!("the invocation must fail"),
    }
}

#[test]
fn malformed_payload_fails_the_invocation() {
    match begin(Some("faces".to_string()), Some("people".to_string()), &parse(r#"{"Records": [3]}"#))
    {
        Err(e) => {
            assert_eq!(
                e,
                InvocationError::Structure(StructuralError::MalformedRecord { index: 0 })
            );
            assert_eq!(e.message(), "Malformed event: no bucket name or object key in record 0");
        }
        Ok(_) => panic!("the invocation must fail"),
    }
}

#[test]
fn invocation_begins_with_the_first_lookup() {
    let started =
        begin(Some("faces".to_string()), Some("people".to_string()), &parse(NOTIFICATION));
    match started {
        Ok((run, turn)) => {
            assert!(!run.is_complete());
            assert!(!turn.settled);
            match turn.next {
                Next::Call(Request::FetchMetadata(object)) => {
                    assert_eq!(object, ObjectRef::new("faces-in", "staff/alice.jpg"))
                }
                other => panic!("unexpected {:?}", other),
            }
        }
        Err(e) => panic!("unexpected {:?}", e),
    }
}

#[test]
fn client_failure_message_is_its_cause() {
    let e = InvocationError::ClientInit { cause: "no credentials".to_string() };
    assert_eq!(e.message(), "no credentials");
}
