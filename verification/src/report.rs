//! The lines that a run gives its caller to log.

use crate::batch::{OutcomeView, RecordOutcome};
use crate::errors::message_text;
use crate::model::{ObjectRef, ObjectRefView};
use vstd::prelude::*;
use vstd::string::*;

verus! {

/// How grave a notice is.
#[derive(Debug, Clone, Copy, PartialEq, Eq, Structural)]
pub enum Level {
    Info,
    Error,
}

/// The address of a stored object: the scheme, the bucket, a slash, the key.
pub open spec fn uri_text(object: ObjectRefView) -> Seq<char> {
    "s3://"@ + object.bucket + "/"@ + object.key
}

/// Writes the address of a stored object.
pub fn object_uri(object: &ObjectRef) -> (uri: String)
    ensures
        uri@ == uri_text(object@),
{
    let mut uri = "s3://".to_owned();
    uri.append(object.bucket.as_str());
    uri.append("/");
    uri.append(object.key.as_str());
    uri
}

/// The notice that the work on an object begins.
pub fn processing_notice(object: &ObjectRef) -> (line: String)
    ensures
        line@ == "Processing image: "@ + uri_text(object@),
{
    let mut line = "Processing image: ".to_owned();
    let uri = object_uri(object);
    line.append(uri.as_str());
    line
}

/// The text of the notice of how a record ended: an enrollment names the
/// subject and the face; a failure names the object and the cause.
pub open spec fn outcome_text(outcome: OutcomeView) -> Seq<char> {
    match outcome.result {
        Ok(enrolled) => "Successfully enrolled person '"@ + enrolled.person_id
            + "' with FaceId '"@ + enrolled.face_id + "'"@,
        Err(e) => "Error processing record: "@ + uri_text(outcome.object) + ". Details: "@
            + message_text(e),
    }
}

/// The level of the notice of how a record ended.
pub open spec fn outcome_level(outcome: OutcomeView) -> Level {
    match outcome.result {
        Ok(enrolled) => Level::Info,
        Err(e) => Level::Error,
    }
}

/// The notice of how a record ended.
pub fn outcome_notice(outcome: &RecordOutcome) -> (notice: (Level, String))
    ensures
        notice.0 == outcome_level(outcome@),
        notice.1@ == outcome_text(outcome@),
{
    match &outcome.result {
        Ok(enrolled) => {
            let mut line = "Successfully enrolled person '".to_owned();
            line.append(enrolled.person_id.as_str());
            line.append("' with FaceId '");
            line.append(enrolled.face_id.as_str());
            line.append("'");
            (Level::Info, line)
        },
        Err(e) => {
            let mut line = "Error processing record: ".to_owned();
            let uri = object_uri(&outcome.object);
            line.append(uri.as_str());
            line.append(". Details: ");
            let cause = e.message();
            line.append(cause.as_str());
            (Level::Error, line)
        },
    }
}

} // verus!
