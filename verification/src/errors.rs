//! Why one record of a batch was not enrolled.

use vstd::prelude::*;
use vstd::string::*;

verus! {

/// The part that a detector result lacks.
#[derive(Debug, Clone, Copy, PartialEq, Eq, Structural)]
pub enum FaceField {
    /// The result holds no face at all.
    Face,
    /// The face holds no identifier.
    FaceId,
}

/// A failure that ends the work on one record and on that record only.
#[derive(Debug, PartialEq, Eq)]
pub enum PerRecordError {
    /// The metadata lookup failed: the object is missing or the store did
    /// not answer.
    StoreRead { cause: String },
    /// The object carries no metadata.
    NoMetadata,
    /// The metadata lacks the identity key; `key` names the object.
    MissingIdentityKey { key: String },
    /// The call of the recognition service failed.
    Recognition { cause: String },
    /// The detector reported no face.
    NoFaceDetected,
    /// The detector's first result lacks a required part.
    DataIntegrity { missing: FaceField },
    /// The clock stands before the start of the epoch, so that the time
    /// since then cannot be told.
    Clock,
    /// The store refused the write.
    StoreWrite { cause: String },
    /// A reply came that does not answer the call that was pending.
    UnexpectedReply,
}

/// The view of a [`PerRecordError`].
pub enum ErrorView {
    StoreRead { cause: Seq<char> },
    NoMetadata,
    MissingIdentityKey { key: Seq<char> },
    Recognition { cause: Seq<char> },
    NoFaceDetected,
    DataIntegrity { missing: FaceField },
    Clock,
    StoreWrite { cause: Seq<char> },
    UnexpectedReply,
}

impl View for PerRecordError {
    type V = ErrorView;

    open spec fn view(&self) -> ErrorView {
        match self {
            PerRecordError::StoreRead { cause } => ErrorView::StoreRead { cause: cause@ },
            PerRecordError::NoMetadata => ErrorView::NoMetadata,
            PerRecordError::MissingIdentityKey { key } => ErrorView::MissingIdentityKey {
                key: key@,
            },
            PerRecordError::Recognition { cause } => ErrorView::Recognition { cause: cause@ },
            PerRecordError::NoFaceDetected => ErrorView::NoFaceDetected,
            PerRecordError::DataIntegrity { missing } => ErrorView::DataIntegrity {
                missing: *missing,
            },
            PerRecordError::Clock => ErrorView::Clock,
            PerRecordError::StoreWrite { cause } => ErrorView::StoreWrite { cause: cause@ },
            PerRecordError::UnexpectedReply => ErrorView::UnexpectedReply,
        }
    }
}

/// The text that describes an error.
pub open spec fn message_text(e: ErrorView) -> Seq<char> {
    match e {
        ErrorView::StoreRead { cause } => cause,
        ErrorView::NoMetadata => "No metadata found"@,
        ErrorView::MissingIdentityKey { key } => "Missing 'person_id' in S3 metadata for "@ + key,
        ErrorView::Recognition { cause } => cause,
        ErrorView::NoFaceDetected => "No face detected or quality too low."@,
        ErrorView::DataIntegrity { missing } => match missing {
            FaceField::Face => "No face data in record"@,
            FaceField::FaceId => "No FaceId in face data"@,
        },
        ErrorView::Clock => "second time provided was later than self"@,
        ErrorView::StoreWrite { cause } => cause,
        ErrorView::UnexpectedReply => "Reply does not answer the pending call"@,
    }
}

impl PerRecordError {
    /// The text that describes this error.
    pub fn message(&self) -> (text: String)
        ensures
            text@ == message_text(self@),
    {
        match self {
            PerRecordError::StoreRead { cause } => cause.clone(),
            PerRecordError::NoMetadata => "No metadata found".to_owned(),
            PerRecordError::MissingIdentityKey { key } => {
                let mut text = "Missing 'person_id' in S3 metadata for ".to_owned();
                text.append(key.as_str());
                text
            },
            PerRecordError::Recognition { cause } => cause.clone(),
            PerRecordError::NoFaceDetected => "No face detected or quality too low.".to_owned(),
            PerRecordError::DataIntegrity { missing } => match missing {
                FaceField::Face => "No face data in record".to_owned(),
                FaceField::FaceId => "No FaceId in face data".to_owned(),
            },
            PerRecordError::Clock => "second time provided was later than self".to_owned(),
            PerRecordError::StoreWrite { cause } => cause.clone(),
            PerRecordError::UnexpectedReply => "Reply does not answer the pending call".to_owned(),
        }
    }
}

} // verus!
