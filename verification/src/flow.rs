//! The enrollment of one stored object, as steps between remote calls.
//!
//! The caller makes the calls. After each one it hands the reply to the
//! step function, which either names the next call or settles the record.

use crate::config::{Config, ConfigView};
use crate::enroll::{
    assemble_record, identity_in, identity_of, index_request, index_request_for, put_request,
    put_request_for, record_of, select_face, selected_face,
};
use crate::errors::{ErrorView, PerRecordError};
use crate::model::{
    faces_view, FaceRecord, FaceRecordView, IndexRequest, IndexRequestView, ObjectMetadata,
    ObjectRef, ObjectRefView, PutRequest, PutRequestView,
};
use vstd::prelude::*;

verus! {

/// A call that the pipeline asks its caller to make.
#[derive(Debug)]
pub enum Request {
    /// Look up the metadata of a stored object, without its content.
    FetchMetadata(ObjectRef),
    /// Index the face in a stored image.
    IndexFace(IndexRequest),
    /// Write a record.
    PutRecord(PutRequest),
}

/// The view of a [`Request`].
pub enum RequestView {
    FetchMetadata(ObjectRefView),
    IndexFace(IndexRequestView),
    PutRecord(PutRequestView),
}

impl View for Request {
    type V = RequestView;

    open spec fn view(&self) -> RequestView {
        match self {
            Request::FetchMetadata(object) => RequestView::FetchMetadata(object@),
            Request::IndexFace(request) => RequestView::IndexFace(request@),
            Request::PutRecord(request) => RequestView::PutRecord(request@),
        }
    }
}

/// What the object store answered: the metadata, `None` where the object
/// carries none, or the cause of the failure.
pub type MetadataReply = Result<Option<ObjectMetadata>, String>;

/// What the recognition service answered: its results for the image, or the
/// cause of the failure.
pub type DetectionReply = Result<Vec<FaceRecord>, String>;

/// What the record store answered to a write.
pub type WriteReply = Result<(), String>;

/// The answer to a [`Request`].
#[derive(Debug)]
pub enum Reply {
    Metadata(MetadataReply),
    Detection(DetectionReply),
    Write(WriteReply),
}

/// The view of a [`Reply`].
pub enum ReplyView {
    Metadata(Result<Option<Map<Seq<char>, Seq<char>>>, Seq<char>>),
    Detection(Result<Seq<FaceRecordView>, Seq<char>>),
    Write(Result<(), Seq<char>>),
}

/// The view of a [`MetadataReply`].
pub open spec fn metadata_reply_view(reply: MetadataReply) -> Result<
    Option<Map<Seq<char>, Seq<char>>>,
    Seq<char>,
> {
    match reply {
        Ok(Some(metadata)) => Ok(Some(metadata@)),
        Ok(None) => Ok(None),
        Err(cause) => Err(cause@),
    }
}

/// The view of a [`DetectionReply`].
pub open spec fn detection_reply_view(reply: DetectionReply) -> Result<
    Seq<FaceRecordView>,
    Seq<char>,
> {
    match reply {
        Ok(faces) => Ok(faces_view(faces@)),
        Err(cause) => Err(cause@),
    }
}

/// The view of a [`WriteReply`].
pub open spec fn write_reply_view(reply: WriteReply) -> Result<(), Seq<char>> {
    match reply {
        Ok(done) => Ok(()),
        Err(cause) => Err(cause@),
    }
}

impl View for Reply {
    type V = ReplyView;

    open spec fn view(&self) -> ReplyView {
        match self {
            Reply::Metadata(reply) => ReplyView::Metadata(metadata_reply_view(*reply)),
            Reply::Detection(reply) => ReplyView::Detection(detection_reply_view(*reply)),
            Reply::Write(reply) => ReplyView::Write(write_reply_view(*reply)),
        }
    }
}

/// A finished enrollment.
#[derive(Debug, PartialEq, Eq)]
pub struct Enrolled {
    pub person_id: String,
    pub face_id: String,
}

/// The view of an [`Enrolled`].
pub struct EnrolledView {
    pub person_id: Seq<char>,
    pub face_id: Seq<char>,
}

impl View for Enrolled {
    type V = EnrolledView;

    open spec fn view(&self) -> EnrolledView {
        EnrolledView { person_id: self.person_id@, face_id: self.face_id@ }
    }
}

/// The view of how one record ended.
pub open spec fn result_view(result: Result<Enrolled, PerRecordError>) -> Result<
    EnrolledView,
    ErrorView,
> {
    match result {
        Ok(enrolled) => Ok(enrolled@),
        Err(e) => Err(e@),
    }
}

/// The call that one record is waiting on.
#[derive(Debug)]
pub enum Phase {
    /// The metadata lookup is pending.
    AwaitingMetadata,
    /// The detection is pending, for the subject that the metadata names.
    AwaitingDetection { person_id: String, metadata: ObjectMetadata },
    /// The write is pending.
    AwaitingWrite { person_id: String, face_id: String },
}

/// The view of a [`Phase`].
pub enum PhaseView {
    AwaitingMetadata,
    AwaitingDetection { person_id: Seq<char>, metadata: Map<Seq<char>, Seq<char>> },
    AwaitingWrite { person_id: Seq<char>, face_id: Seq<char> },
}

impl View for Phase {
    type V = PhaseView;

    open spec fn view(&self) -> PhaseView {
        match self {
            Phase::AwaitingMetadata => PhaseView::AwaitingMetadata,
            Phase::AwaitingDetection { person_id, metadata } => PhaseView::AwaitingDetection {
                person_id: person_id@,
                metadata: metadata@,
            },
            Phase::AwaitingWrite { person_id, face_id } => PhaseView::AwaitingWrite {
                person_id: person_id@,
                face_id: face_id@,
            },
        }
    }
}

/// What a reply leads to: the next call of the same record, or its end.
#[derive(Debug)]
pub enum RecordStep {
    Proceed(Phase, Request),
    Settle(Result<Enrolled, PerRecordError>),
}

/// The view of a [`RecordStep`].
pub enum RecordStepView {
    Proceed(PhaseView, RequestView),
    Settle(Result<EnrolledView, ErrorView>),
}

impl View for RecordStep {
    type V = RecordStepView;

    open spec fn view(&self) -> RecordStepView {
        match self {
            RecordStep::Proceed(phase, request) => RecordStepView::Proceed(phase@, request@),
            RecordStep::Settle(result) => RecordStepView::Settle(result_view(*result)),
        }
    }
}

/// What follows the metadata lookup. A failed lookup, an object without
/// metadata and metadata without the identity key each end the record; else
/// the detector is asked to index the object's face for that subject.
pub open spec fn after_metadata_spec(
    config: ConfigView,
    object: ObjectRefView,
    reply: Result<Option<Map<Seq<char>, Seq<char>>>, Seq<char>>,
) -> RecordStepView {
    match reply {
        Err(cause) => RecordStepView::Settle(Err(ErrorView::StoreRead { cause })),
        Ok(None) => RecordStepView::Settle(Err(ErrorView::NoMetadata)),
        Ok(Some(metadata)) => match identity_in(metadata) {
            None => RecordStepView::Settle(
                Err(ErrorView::MissingIdentityKey { key: object.key }),
            ),
            Some(person_id) => RecordStepView::Proceed(
                PhaseView::AwaitingDetection { person_id, metadata },
                RequestView::IndexFace(
                    index_request_for(object, person_id, config.collection_id),
                ),
            ),
        },
    }
}

/// Decides what follows the metadata lookup.
pub fn after_metadata(config: &Config, object: &ObjectRef, reply: MetadataReply) -> (step:
    RecordStep)
    ensures
        step@ == after_metadata_spec(config@, object@, metadata_reply_view(reply)),
{
    match reply {
        Err(cause) => RecordStep::Settle(Err(PerRecordError::StoreRead { cause })),
        Ok(None) => RecordStep::Settle(Err(PerRecordError::NoMetadata)),
        Ok(Some(metadata)) => match identity_of(&metadata) {
            None => RecordStep::Settle(
                Err(PerRecordError::MissingIdentityKey { key: object.key.clone() }),
            ),
            Some(person_id) => {
                let request = index_request(
                    object,
                    person_id.as_str(),
                    config.collection_id.as_str(),
                );
                RecordStep::Proceed(
                    Phase::AwaitingDetection { person_id, metadata },
                    Request::IndexFace(request),
                )
            },
        },
    }
}

/// What follows the detection. A failed call, no result, a first result
/// without a face or without an identifier, and a clock that cannot be read
/// each end the record; else the record of the first result is written,
/// stamped with `now`.
pub open spec fn after_detection_spec(
    config: ConfigView,
    person_id: Seq<char>,
    metadata: Map<Seq<char>, Seq<char>>,
    reply: Result<Seq<FaceRecordView>, Seq<char>>,
    now: Option<u64>,
) -> RecordStepView {
    match reply {
        Err(cause) => RecordStepView::Settle(Err(ErrorView::Recognition { cause })),
        Ok(faces) => match selected_face(faces) {
            Err(e) => RecordStepView::Settle(Err(e)),
            Ok((face_id, confidence)) => match now {
                None => RecordStepView::Settle(Err(ErrorView::Clock)),
                Some(seconds) => RecordStepView::Proceed(
                    PhaseView::AwaitingWrite { person_id, face_id },
                    RequestView::PutRecord(
                        put_request_for(
                            config.table_name,
                            record_of(person_id, face_id, confidence, seconds as nat, metadata),
                        ),
                    ),
                ),
            },
        },
    }
}

/// Decides what follows the detection, with `now` as the clock's reading.
pub fn after_detection(
    config: &Config,
    person_id: String,
    metadata: ObjectMetadata,
    reply: DetectionReply,
    now: Option<u64>,
) -> (step: RecordStep)
    ensures
        step@ == after_detection_spec(
            config@,
            person_id@,
            metadata@,
            detection_reply_view(reply),
            now,
        ),
{
    match reply {
        Err(cause) => RecordStep::Settle(Err(PerRecordError::Recognition { cause })),
        Ok(faces) => match select_face(&faces) {
            Err(e) => RecordStep::Settle(Err(e)),
            Ok((face_id, confidence)) => match now {
                None => RecordStep::Settle(Err(PerRecordError::Clock)),
                Some(seconds) => {
                    let record = assemble_record(
                        person_id.clone(),
                        face_id.clone(),
                        confidence,
                        seconds,
                        &metadata,
                    );
                    let request = put_request(config.table_name.as_str(), &record);
                    RecordStep::Proceed(
                        Phase::AwaitingWrite { person_id, face_id },
                        Request::PutRecord(request),
                    )
                },
            },
        },
    }
}

/// What follows the write: the record is enrolled, or the write failed.
pub open spec fn after_write_spec(
    person_id: Seq<char>,
    face_id: Seq<char>,
    reply: Result<(), Seq<char>>,
) -> RecordStepView {
    match reply {
        Err(cause) => RecordStepView::Settle(Err(ErrorView::StoreWrite { cause })),
        Ok(done) => RecordStepView::Settle(Ok(EnrolledView { person_id, face_id })),
    }
}

/// Decides what follows the write.
pub fn after_write(person_id: String, face_id: String, reply: WriteReply) -> (step: RecordStep)
    ensures
        step@ == after_write_spec(person_id@, face_id@, write_reply_view(reply)),
{
    match reply {
        Err(cause) => RecordStep::Settle(Err(PerRecordError::StoreWrite { cause })),
        Ok(done) => RecordStep::Settle(Ok(Enrolled { person_id, face_id })),
    }
}

/// What a reply leads to in a given phase. A reply that does not answer the
/// pending call ends the record.
pub open spec fn record_step_spec(
    config: ConfigView,
    object: ObjectRefView,
    phase: PhaseView,
    reply: ReplyView,
    now: Option<u64>,
) -> RecordStepView {
    match (phase, reply) {
        (PhaseView::AwaitingMetadata, ReplyView::Metadata(answer)) => after_metadata_spec(
            config,
            object,
            answer,
        ),
        (
            PhaseView::AwaitingDetection { person_id, metadata },
            ReplyView::Detection(answer),
        ) => after_detection_spec(config, person_id, metadata, answer, now),
        (PhaseView::AwaitingWrite { person_id, face_id }, ReplyView::Write(answer)) => {
            after_write_spec(person_id, face_id, answer)
        },
        _ => RecordStepView::Settle(Err(ErrorView::UnexpectedReply)),
    }
}

/// Takes one record one step further: from the phase it is in and the reply
/// that has come to the next call or to the record's end. `now` is the
/// clock's reading; it is looked at only where a record gets its time stamp.
pub fn record_step(
    config: &Config,
    object: &ObjectRef,
    phase: Phase,
    reply: Reply,
    now: Option<u64>,
) -> (step: RecordStep)
    ensures
        step@ == record_step_spec(config@, object@, phase@, reply@, now),
{
    match phase {
        Phase::AwaitingMetadata => match reply {
            Reply::Metadata(answer) => after_metadata(config, object, answer),
            _ => RecordStep::Settle(Err(PerRecordError::UnexpectedReply)),
        },
        Phase::AwaitingDetection { person_id, metadata } => match reply {
            Reply::Detection(answer) => after_detection(config, person_id, metadata, answer, now),
            _ => RecordStep::Settle(Err(PerRecordError::UnexpectedReply)),
        },
        Phase::AwaitingWrite { person_id, face_id } => match reply {
            Reply::Write(answer) => after_write(person_id, face_id, answer),
            _ => RecordStep::Settle(Err(PerRecordError::UnexpectedReply)),
        },
    }
}

} // verus!
