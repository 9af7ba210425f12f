use image_processor::batch::{acknowledgement, BatchResult, BatchRun, Next, RecordOutcome, Turn};
use image_processor::config::Config;
use image_processor::errors::{FaceField, PerRecordError};
use image_processor::flow::{Enrolled, Reply, Request};
use image_processor::model::{AttributeValue, FaceRecord, ObjectMetadata, ObjectRef, PutRequest};
use image_processor::strmap::StrMap;

fn settings() -> Config {
    Config { collection_id: "faces".to_string(), table_name: "people".to_string() }
}

fn metadata(pairs: &[(&str, &str)]) -> ObjectMetadata {
    let mut m = StrMap::new();
    for (k, v) in pairs {
        m.insert(k.to_string(), v.to_string());
    }
    m
}

fn face(id: &str, confidence: f32) -> FaceRecord {
    FaceRecord::with_face(Some(id.to_string()), Some(confidence.to_string()))
}

fn text(s: &str) -> AttributeValue {
    AttributeValue::S(s.to_string())
}

fn expect_fetch(turn: Turn) -> ObjectRef {
    match turn.next {
        Next::Call(Request::FetchMetadata(object)) => object,
        other => panic!("expected a metadata lookup, got {:?}", other),
    }
}

fn expect_put(turn: Turn) -> PutRequest {
    match turn.next {
        Next::Call(Request::PutRecord(request)) => request,
        other => panic!("expected a write, got {:?}", other),
    }
}

fn expect_acknowledgement(turn: Turn) -> BatchResult {
    match turn.next {
        Next::Acknowledge(result) => result,
        other => panic!("expected the acknowledgement, got {:?}", other),
    }
}

fn success() -> BatchResult {
    BatchResult { status_code: 200, body: "Processing complete".to_string() }
}

#[test]
fn one_record_is_enrolled() {
    let object = ObjectRef::new("photos", "alice.jpg");
    let (run, turn) = BatchRun::start(settings(), vec![object.clone()]);
    assert!(!turn.settled);
    assert_eq!(expect_fetch(turn), object);

    let (run, turn) =
        run.advance_at(Reply::Metadata(Ok(Some(metadata(&[("person_id", "alice")])))), None);
    assert!(!turn.settled);
    match turn.next {
        Next::Call(Request::IndexFace(request)) => {
            assert_eq!(request.collection_id, "faces");
            assert_eq!(request.image, object);
            assert_eq!(request.external_image_id, "alice");
            assert_eq!(request.max_faces, 1);
        }
        other => panic!("expected a detection, got {:?}", other),
    }

    let (run, turn) =
        run.advance_at(Reply::Detection(Ok(vec![face("f1", 99.2)])), Some(1_700_000_000));
    assert!(!turn.settled);
    let put = expect_put(turn);
    assert_eq!(put.table_name, "people");
    assert_eq!(put.item.len(), 5);
    assert_eq!(put.item.get("PersonId"), Some(&text("alice")));
    assert_eq!(put.item.get("FaceId"), Some(&text("f1")));
    assert_eq!(put.item.get("Confidence"), Some(&AttributeValue::N("99.2".to_string())));
    assert_eq!(put.item.get("CreatedAt"), Some(&text("1700000000")));
    assert_eq!(put.item.get("LastUpdatedAt"), Some(&text("1700000000")));

    let (run, turn) = run.advance_at(Reply::Write(Ok(())), None);
    assert!(turn.settled);
    assert_eq!(expect_acknowledgement(turn), success());
    assert!(run.is_complete());
    assert_eq!(run.failed(), 0);
    assert_eq!(
        run.outcomes(),
        &vec![RecordOutcome {
            object,
            result: Ok(Enrolled { person_id: "alice".to_string(), face_id: "f1".to_string() }),
        }]
    );
}

#[test]
fn failed_record_does_not_stop_the_batch() {
    let first = ObjectRef::new("photos", "unnamed.jpg");
    let second = ObjectRef::new("photos", "carol.jpg");
    let (run, turn) = BatchRun::start(settings(), vec![first.clone(), second.clone()]);
    assert_eq!(expect_fetch(turn), first);

    let (run, turn) =
        run.advance_at(Reply::Metadata(Ok(Some(metadata(&[("team", "eng")])))), None);
    assert!(turn.settled);
    assert_eq!(expect_fetch(turn), second);

    let (run, _) =
        run.advance_at(Reply::Metadata(Ok(Some(metadata(&[("person_id", "carol")])))), None);
    let (run, turn) = run.advance_at(Reply::Detection(Ok(vec![face("f2", 87.5)])), Some(42));
    let put = expect_put(turn);
    assert_eq!(put.item.get("PersonId"), Some(&text("carol")));
    let (run, turn) = run.advance_at(Reply::Write(Ok(())), None);
    assert_eq!(expect_acknowledgement(turn), success());

    assert_eq!(run.failed(), 1);
    assert_eq!(
        run.outcomes(),
        &vec![
            RecordOutcome {
                object: first,
                result: Err(PerRecordError::MissingIdentityKey { key: "unnamed.jpg".to_string() }),
            },
            RecordOutcome {
                object: second,
                result: Ok(Enrolled {
                    person_id: "carol".to_string(),
                    face_id: "f2".to_string()
                }),
            },
        ]
    );
}

#[test]
fn other_metadata_passes_through() {
    let (run, _) = BatchRun::start(settings(), vec![ObjectRef::new("photos", "bob.jpg")]);
    let (run, _) = run.advance_at(
        Reply::Metadata(Ok(Some(metadata(&[("person_id", "bob"), ("team", "eng")])))),
        None,
    );
    let (_, turn) = run.advance_at(Reply::Detection(Ok(vec![face("f3", 91.0)])), Some(1234));
    let put = expect_put(turn);
    assert_eq!(put.item.len(), 6);
    assert_eq!(put.item.get("team"), Some(&text("eng")));
    assert_eq!(put.item.get("PersonId"), Some(&text("bob")));
    assert_eq!(put.item.get("FaceId"), Some(&text("f3")));
    assert_eq!(put.item.get("Confidence"), Some(&AttributeValue::N("91".to_string())));
    assert_eq!(put.item.get("CreatedAt"), Some(&text("1234")));
    assert_eq!(put.item.get("LastUpdatedAt"), Some(&text("1234")));
    assert_eq!(put.item.get("person_id"), None);
}

#[test]
fn no_face_means_no_write() {
    let object = ObjectRef::new("photos", "landscape.jpg");
    let (run, _) = BatchRun::start(settings(), vec![object.clone()]);
    let (run, _) =
        run.advance_at(Reply::Metadata(Ok(Some(metadata(&[("person_id", "dave")])))), None);
    let (run, turn) = run.advance_at(Reply::Detection(Ok(vec![])), Some(5));
    assert!(turn.settled);
    assert_eq!(expect_acknowledgement(turn), success());
    assert_eq!(
        run.outcomes(),
        &vec![RecordOutcome { object, result: Err(PerRecordError::NoFaceDetected) }]
    );
    assert_eq!(run.failed(), 1);
}

#[test]
fn empty_batch_is_acknowledged_at_once() {
    let (run, turn) = BatchRun::start(settings(), vec![]);
    assert!(!turn.settled);
    assert_eq!(expect_acknowledgement(turn), success());
    assert!(run.is_complete());
    assert!(run.outcomes().is_empty());
}

#[test]
fn every_record_is_settled_once_whatever_happens() {
    let batch = vec![
        ObjectRef::new("b", "one"),
        ObjectRef::new("b", "two"),
        ObjectRef::new("b", "three"),
        ObjectRef::new("b", "four"),
    ];
    let (run, turn) = BatchRun::start(settings(), batch.clone());
    assert_eq!(expect_fetch(turn), batch[0]);
    // one: the store does not answer
    let (run, turn) = run.advance_at(Reply::Metadata(Err("timeout".to_string())), None);
    assert_eq!(expect_fetch(turn), batch[1]);
    // two: the detector fails
    let (run, _) =
        run.advance_at(Reply::Metadata(Ok(Some(metadata(&[("person_id", "p2")])))), None);
    let (run, turn) = run.advance_at(Reply::Detection(Err("throttled".to_string())), None);
    assert_eq!(expect_fetch(turn), batch[2]);
    // three: the write fails
    let (run, _) =
        run.advance_at(Reply::Metadata(Ok(Some(metadata(&[("person_id", "p3")])))), None);
    let (run, _) = run.advance_at(Reply::Detection(Ok(vec![face("f", 50.0)])), Some(1));
    let (run, turn) = run.advance_at(Reply::Write(Err("no such table".to_string())), None);
    assert_eq!(expect_fetch(turn), batch[3]);
    // four: enrolled
    let (run, _) =
        run.advance_at(Reply::Metadata(Ok(Some(metadata(&[("person_id", "p4")])))), None);
    let (run, _) = run.advance_at(Reply::Detection(Ok(vec![face("g", 60.0)])), Some(2));
    let (run, turn) = run.advance_at(Reply::Write(Ok(())), None);
    assert_eq!(expect_acknowledgement(turn), success());

    let outcomes = run.outcomes();
    assert_eq!(outcomes.len(), 4);
    for i in 0..4 {
        assert_eq!(outcomes[i].object, batch[i]);
    }
    assert_eq!(outcomes[0].result, Err(PerRecordError::StoreRead { cause: "timeout".to_string() }));
    assert_eq!(
        outcomes[1].result,
        Err(PerRecordError::Recognition { cause: "throttled".to_string() })
    );
    assert_eq!(
        outcomes[2].result,
        Err(PerRecordError::StoreWrite { cause: "no such table".to_string() })
    );
    assert_eq!(
        outcomes[3].result,
        Ok(Enrolled { person_id: "p4".to_string(), face_id: "g".to_string() })
    );
    assert_eq!(run.failed(), 3);
}

#[test]
fn batch_is_acknowledged_even_when_every_record_fails() {
    let (run, _) =
        BatchRun::start(settings(), vec![ObjectRef::new("b", "x"), ObjectRef::new("b", "y")]);
    let (run, turn) = run.advance_at(Reply::Metadata(Ok(None)), None);
    assert!(turn.settled);
    let (run, turn) = run.advance_at(Reply::Metadata(Ok(None)), None);
    assert!(turn.settled);
    assert_eq!(expect_acknowledgement(turn), success());
    assert_eq!(run.failed(), 2);
    assert_eq!(run.outcomes()[0].result, Err(PerRecordError::NoMetadata));
    assert_eq!(run.outcomes()[1].result, Err(PerRecordError::NoMetadata));
}

#[test]
fn missing_identity_key_goes_straight_to_the_next_record() {
    let (run, _) =
        BatchRun::start(settings(), vec![ObjectRef::new("b", "x"), ObjectRef::new("b", "y")]);
    let (_, turn) = run.advance_at(Reply::Metadata(Ok(Some(metadata(&[])))), Some(9));
    assert!(turn.settled);
    match turn.next {
        Next::Call(Request::FetchMetadata(object)) => assert_eq!(object, ObjectRef::new("b", "y")),
        other => panic!("expected the next lookup, got {:?}", other),
    }
}

#[test]
fn only_the_first_face_is_used() {
    let (run, _) = BatchRun::start(settings(), vec![ObjectRef::new("b", "group.jpg")]);
    let (run, _) =
        run.advance_at(Reply::Metadata(Ok(Some(metadata(&[("person_id", "erin")])))), None);
    let (run, turn) = run.advance_at(
        Reply::Detection(Ok(vec![face("first", 70.0), face("second", 99.9)])),
        Some(77),
    );
    let put = expect_put(turn);
    assert_eq!(put.item.get("FaceId"), Some(&text("first")));
    assert_eq!(put.item.get("Confidence"), Some(&AttributeValue::N("70".to_string())));
    let (run, _) = run.advance_at(Reply::Write(Ok(())), None);
    assert_eq!(
        run.outcomes()[0].result,
        Ok(Enrolled { person_id: "erin".to_string(), face_id: "first".to_string() })
    );
}

#[test]
fn first_result_without_face_or_identifier_fails_the_record() {
    let (run, _) =
        BatchRun::start(settings(), vec![ObjectRef::new("b", "x"), ObjectRef::new("b", "y")]);
    let (run, _) =
        run.advance_at(Reply::Metadata(Ok(Some(metadata(&[("person_id", "p")])))), None);
    let (run, turn) = run.advance_at(
        Reply::Detection(Ok(vec![FaceRecord { face: None }, face("later", 99.0)])),
        Some(1),
    );
    assert!(turn.settled);
    let (run, _) =
        run.advance_at(Reply::Metadata(Ok(Some(metadata(&[("person_id", "q")])))), None);
    let (run, turn) = run.advance_at(
        Reply::Detection(Ok(vec![FaceRecord::with_face(None, Some("88.1".to_string()))])),
        Some(1),
    );
    assert!(turn.settled);
    assert_eq!(
        run.outcomes()[0].result,
        Err(PerRecordError::DataIntegrity { missing: FaceField::Face })
    );
    assert_eq!(
        run.outcomes()[1].result,
        Err(PerRecordError::DataIntegrity { missing: FaceField::FaceId })
    );
}

#[test]
fn unreadable_clock_fails_the_record_without_a_write() {
    let (run, _) = BatchRun::start(settings(), vec![ObjectRef::new("b", "x")]);
    let (run, _) =
        run.advance_at(Reply::Metadata(Ok(Some(metadata(&[("person_id", "p")])))), None);
    let (run, turn) = run.advance_at(Reply::Detection(Ok(vec![face("f", 1.0)])), None);
    assert!(turn.settled);
    assert_eq!(expect_acknowledgement(turn), success());
    assert_eq!(run.outcomes()[0].result, Err(PerRecordError::Clock));
}

#[test]
fn reply_of_the_wrong_kind_fails_the_record() {
    let (run, _) =
        BatchRun::start(settings(), vec![ObjectRef::new("b", "x"), ObjectRef::new("b", "y")]);
    let (run, turn) = run.advance_at(Reply::Write(Ok(())), None);
    assert!(turn.settled);
    assert_eq!(expect_fetch(turn), ObjectRef::new("b", "y"));
    let (run, _) =
        run.advance_at(Reply::Metadata(Ok(Some(metadata(&[("person_id", "p")])))), None);
    let (run, turn) = run.advance_at(Reply::Metadata(Ok(None)), None);
    assert!(turn.settled);
    assert_eq!(expect_acknowledgement(turn), success());
    assert_eq!(run.outcomes()[0].result, Err(PerRecordError::UnexpectedReply));
    assert_eq!(run.outcomes()[1].result, Err(PerRecordError::UnexpectedReply));
}

#[test]
fn complete_run_stays_complete() {
    let (run, _) = BatchRun::start(settings(), vec![ObjectRef::new("b", "x")]);
    let (run, _) = run.advance_at(Reply::Metadata(Ok(None)), None);
    assert!(run.is_complete());
    let (run, turn) = run.advance_at(Reply::Metadata(Ok(None)), None);
    assert!(!turn.settled);
    assert_eq!(expect_acknowledgement(turn), success());
    assert_eq!(run.outcomes().len(), 1);
}

#[test]
fn advance_stamps_both_times_with_one_reading_of_the_clock() {
    let (run, _) = BatchRun::start(settings(), vec![ObjectRef::new("b", "x")]);
    let (run, _) = run.advance(Reply::Metadata(Ok(Some(metadata(&[("person_id", "p")])))));
    let (_, turn) = run.advance(Reply::Detection(Ok(vec![face("f", 12.5)])));
    let put = expect_put(turn);
    let created = put.item.get("CreatedAt").cloned();
    let updated = put.item.get("LastUpdatedAt").cloned();
    assert_eq!(created, updated);
    match created {
        Some(AttributeValue::S(stamp)) => {
            let seconds: u64 = stamp.parse().expect("a decimal numeral");
            assert!(seconds > 1_600_000_000);
            assert_eq!(seconds.to_string(), stamp);
        }
        other => panic!("expected a text, got {:?}", other),
    }
}

#[test]
fn acknowledgement_is_fixed() {
    assert_eq!(acknowledgement(), success());
}

#[test]
fn metadata_cannot_replace_what_the_pipeline_writes() {
    let (run, _) = BatchRun::start(settings(), vec![ObjectRef::new("photos", "alice.jpg")]);
    let (run, turn) = run.advance_at(
        Reply::Metadata(Ok(Some(metadata(&[
            ("person_id", "alice"),
            ("PersonId", "mallory"),
            ("FaceId", "other"),
            ("CreatedAt", "1"),
            ("Confidence", "sure"),
            ("team", "eng"),
        ])))),
        None,
    );
    match turn.next {
        Next::Call(Request::IndexFace(request)) => assert_eq!(request.external_image_id, "alice"),
        other => panic!("expected a detection, got {:?}", other),
    }
    let (run, turn) =
        run.advance_at(Reply::Detection(Ok(vec![face("f1", 99.2)])), Some(1_700_000_000));
    let put = expect_put(turn);
    assert_eq!(put.item.len(), 6);
    assert_eq!(put.item.get("PersonId"), Some(&text("alice")));
    assert_eq!(put.item.get("FaceId"), Some(&text("f1")));
    assert_eq!(put.item.get("Confidence"), Some(&AttributeValue::N("99.2".to_string())));
    assert_eq!(put.item.get("CreatedAt"), Some(&text("1700000000")));
    assert_eq!(put.item.get("LastUpdatedAt"), Some(&text("1700000000")));
    assert_eq!(put.item.get("team"), Some(&text("eng")));
    let (run, _) = run.advance_at(Reply::Write(Ok(())), None);
    assert_eq!(
        run.outcomes()[0].result,
        Ok(Enrolled { person_id: "alice".to_string(), face_id: "f1".to_string() })
    );
}
