//! What holds of every run of the pipeline, proved from the definitions of
//! its steps.

use crate::batch::{
    acknowledged, advance_spec, opening, start_spec, NextView, OutcomeView, RunView,
};
use crate::config::ConfigView;
use crate::enroll::{
    identity_in, index_request_for, is_reserved, item_of, lemma_item_attributes,
    put_request_for, record_of, selected_face,
};
use crate::errors::ErrorView;
use crate::flow::{PhaseView, ReplyView, RequestView};
use crate::model::{
    AttributeView, FaceRecordView, ObjectRefView, CONFIDENCE_ATTRIBUTE, CREATED_AT_ATTRIBUTE,
    FACE_ID_ATTRIBUTE, IDENTITY_KEY, LAST_UPDATED_AT_ATTRIBUTE, PERSON_ID_ATTRIBUTE,
};
use crate::text::decimal;
use vstd::prelude::*;

verus! {

/// The state of a run after a sequence of replies, each with the clock's
/// reading at the time it came.
pub open spec fn run_after(run: RunView, replies: Seq<(ReplyView, Option<u64>)>) -> RunView
    decreases replies.len(),
{
    if replies.len() == 0 {
        run
    } else {
        advance_spec(run_after(run, replies.drop_last()), replies.last().0, replies.last().1).0
    }
}

/// A step keeps a run well formed and leaves its batch and its
/// configuration as they are.
pub proof fn law_step_keeps_run_well_formed(run: RunView, reply: ReplyView, now: Option<u64>)
    requires
        run.wf(),
    ensures
        advance_spec(run, reply, now).0.wf(),
        advance_spec(run, reply, now).0.batch == run.batch,
        advance_spec(run, reply, now).0.config == run.config,
{
}

/// Every step of a run that is not complete brings its end nearer, whatever
/// the reply: a record takes three replies at most.
pub proof fn law_step_makes_progress(run: RunView, reply: ReplyView, now: Option<u64>)
    requires
        run.wf(),
        !run.complete(),
    ensures
        advance_spec(run, reply, now).0.remaining() < run.remaining(),
{
}

/// Whatever replies come, the run stays well formed over the same batch.
pub proof fn law_run_stays_well_formed(run: RunView, replies: Seq<(ReplyView, Option<u64>)>)
    requires
        run.wf(),
    ensures
        run_after(run, replies).wf(),
        run_after(run, replies).batch == run.batch,
        run_after(run, replies).config == run.config,
        run_after(run, replies).remaining() + replies.len() <= run.remaining() || run_after(
            run,
            replies,
        ).complete(),
    decreases replies.len(),
{
    if replies.len() > 0 {
        let front = replies.drop_last();
        law_run_stays_well_formed(run, front);
        let middle = run_after(run, front);
        law_step_keeps_run_well_formed(middle, replies.last().0, replies.last().1);
        if !middle.complete() {
            law_step_makes_progress(middle, replies.last().0, replies.last().1);
        }
    }
}

/// A batch of N records is settled record by record: when the run is
/// complete it holds exactly N outcomes, the i-th for the i-th record,
/// however each record ended.
pub proof fn law_every_record_settled_once(
    config: ConfigView,
    batch: Seq<ObjectRefView>,
    replies: Seq<(ReplyView, Option<u64>)>,
)
    ensures
        ({
            let end = run_after(start_spec(config, batch).0, replies);
            &&& end.outcomes.len() <= batch.len()
            &&& forall|i: int|
                0 <= i < end.outcomes.len() ==> (#[trigger] end.outcomes[i]).object == batch[i]
            &&& end.complete() ==> end.outcomes.len() == batch.len()
        }),
{
    law_run_stays_well_formed(start_spec(config, batch).0, replies);
}

/// Whether the caller is told to look up a record's metadata, which is how
/// the enrollment of a record starts.
pub open spec fn starts_a_record(next: NextView) -> bool {
    next matches NextView::Call(RequestView::FetchMetadata(_))
}

/// How many records were started by the steps that a sequence of replies
/// led to.
pub open spec fn records_started(run: RunView, replies: Seq<(ReplyView, Option<u64>)>) -> nat
    decreases replies.len(),
{
    if replies.len() == 0 {
        0
    } else {
        let front = replies.drop_last();
        let turn = advance_spec(run_after(run, front), replies.last().0, replies.last().1).1;
        if starts_a_record(turn.next) {
            records_started(run, front) + 1
        } else {
            records_started(run, front)
        }
    }
}

/// How many records of a batch of `len` have been started when the cursor
/// stands at `cursor`: those before the cursor and the one at it.
pub open spec fn started_up_to(cursor: nat, len: nat) -> nat {
    if cursor < len {
        cursor + 1
    } else {
        len
    }
}

/// The steps of a run start the records one after the other: each step
/// that settles a record starts the next one, if there is one, and no other
/// step starts any.
pub proof fn law_records_start_in_turn(run: RunView, replies: Seq<(ReplyView, Option<u64>)>)
    requires
        run.wf(),
    ensures
        started_up_to(run.cursor, run.batch.len()) + records_started(run, replies)
            == started_up_to(run_after(run, replies).cursor, run.batch.len()),
    decreases replies.len(),
{
    if replies.len() > 0 {
        let front = replies.drop_last();
        law_records_start_in_turn(run, front);
        law_run_stays_well_formed(run, front);
    }
}

/// In a batch of N records the enrollment is started exactly N times, once
/// for each record and in the order of the batch, whatever becomes of any
/// of them.
pub proof fn law_every_record_started_once(
    config: ConfigView,
    batch: Seq<ObjectRefView>,
    replies: Seq<(ReplyView, Option<u64>)>,
)
    ensures
        ({
            let (run, turn) = start_spec(config, batch);
            let first: nat = if starts_a_record(turn.next) {
                1
            } else {
                0
            };
            let end = run_after(run, replies);
            &&& first + records_started(run, replies) <= batch.len()
            &&& end.complete() ==> first + records_started(run, replies) == batch.len()
        }),
{
    law_records_start_in_turn(start_spec(config, batch).0, replies);
    law_run_stays_well_formed(start_spec(config, batch).0, replies);
}

/// A run is complete after three replies for each record at the latest,
/// whatever the replies are.
pub proof fn law_batch_completes(
    config: ConfigView,
    batch: Seq<ObjectRefView>,
    replies: Seq<(ReplyView, Option<u64>)>,
)
    requires
        replies.len() >= 3 * batch.len(),
    ensures
        run_after(start_spec(config, batch).0, replies).complete(),
        run_after(start_spec(config, batch).0, replies).outcomes.len() == batch.len(),
{
    law_run_stays_well_formed(start_spec(config, batch).0, replies);
}

/// Every batch gets the same acknowledgement: a step that settles the last
/// record, and every step after it, answers with it.
pub proof fn law_acknowledgement_is_fixed(run: RunView, reply: ReplyView, now: Option<u64>)
    requires
        run.wf(),
    ensures
        advance_spec(run, reply, now).0.complete() ==> advance_spec(run, reply, now).1.next
            == NextView::Acknowledge(acknowledged()),
        advance_spec(run, reply, now).1.next is Acknowledge ==> advance_spec(
            run,
            reply,
            now,
        ).0.complete(),
{
}

/// Metadata without the identity key ends the record at once: the record is
/// settled as failed, and what follows is the next record's metadata lookup
/// or the acknowledgement, never a detection or a write.
pub proof fn law_missing_identity_ends_record(
    run: RunView,
    metadata: Map<Seq<char>, Seq<char>>,
    now: Option<u64>,
)
    requires
        run.wf(),
        !run.complete(),
        run.phase is AwaitingMetadata,
        !metadata.contains_key(IDENTITY_KEY@),
    ensures
        ({
            let (after, turn) = advance_spec(run, ReplyView::Metadata(Ok(Some(metadata))), now);
            let object = run.batch[run.cursor as int];
            &&& turn.settled
            &&& after.outcomes == run.outcomes.push(
                OutcomeView {
                    object,
                    result: Err(ErrorView::MissingIdentityKey { key: object.key }),
                },
            )
            &&& turn.next == opening(run.batch, run.cursor + 1)
            &&& !(turn.next matches NextView::Call(RequestView::IndexFace(_)))
            &&& !(turn.next matches NextView::Call(RequestView::PutRecord(_)))
        }),
{
}

/// A detection is asked for only in answer to metadata that names a
/// subject, and then for the current record and that subject.
pub proof fn law_detection_needs_identity(
    run: RunView,
    reply: ReplyView,
    now: Option<u64>,
)
    requires
        advance_spec(run, reply, now).1.next matches NextView::Call(RequestView::IndexFace(_)),
    ensures
        !run.complete(),
        run.phase is AwaitingMetadata,
        reply matches ReplyView::Metadata(Ok(Some(metadata))) && identity_in(metadata) is Some
            && advance_spec(run, reply, now).1.next == NextView::Call(
            RequestView::IndexFace(
                index_request_for(
                    run.batch[run.cursor as int],
                    identity_in(metadata)->Some_0,
                    run.config.collection_id,
                ),
            ),
        ),
{
}

/// A write is asked for only in answer to a detection whose first result
/// holds a face with an identifier, and what is written is the whole record
/// of that face.
pub proof fn law_write_needs_face(run: RunView, reply: ReplyView, now: Option<u64>)
    requires
        advance_spec(run, reply, now).1.next matches NextView::Call(RequestView::PutRecord(_)),
    ensures
        !run.complete(),
        now is Some,
        run.phase matches PhaseView::AwaitingDetection { person_id, metadata } && (
        reply matches ReplyView::Detection(Ok(faces)) && faces.len() >= 1 && (selected_face(
            faces,
        ) matches Ok((face_id, confidence)) && advance_spec(run, reply, now).1.next
            == NextView::Call(
            RequestView::PutRecord(
                put_request_for(
                    run.config.table_name,
                    record_of(person_id, face_id, confidence, now->Some_0 as nat, metadata),
                ),
            ),
        ))),
{
}

/// Whatever the object's metadata holds, the record that a step asks to be
/// written is keyed by the subject that the identity key named, holds the
/// face that was taken, and carries the one reading of the clock as both of
/// its times.
pub proof fn law_write_is_keyed_by_subject(run: RunView, reply: ReplyView, now: Option<u64>)
    requires
        advance_spec(run, reply, now).1.next matches NextView::Call(RequestView::PutRecord(_)),
    ensures
        now is Some,
        run.phase matches PhaseView::AwaitingDetection { person_id, metadata } && (
        advance_spec(run, reply, now).1.next matches NextView::Call(
            RequestView::PutRecord(request),
        ) && {
            &&& request.table_name == run.config.table_name
            &&& request.item[PERSON_ID_ATTRIBUTE@] == AttributeView::S(person_id)
            &&& request.item[CREATED_AT_ATTRIBUTE@] == AttributeView::S(
                decimal(now->Some_0 as nat),
            )
            &&& request.item[LAST_UPDATED_AT_ATTRIBUTE@] == request.item[CREATED_AT_ATTRIBUTE@]
            &&& request.item[FACE_ID_ATTRIBUTE@] is S
            &&& !request.item.contains_key(IDENTITY_KEY@)
        }),
{
    law_write_needs_face(run, reply, now);
    match (run.phase, reply) {
        (PhaseView::AwaitingDetection { person_id, metadata }, ReplyView::Detection(Ok(faces))) => {
            let (face_id, confidence) = selected_face(faces)->Ok_0;
            lemma_item_attributes(
                record_of(person_id, face_id, confidence, now->Some_0 as nat, metadata),
            );
        },
        _ => {},
    }
}

/// A detection without results ends the record without a write.
pub proof fn law_no_face_no_write(run: RunView, now: Option<u64>)
    requires
        run.wf(),
        !run.complete(),
        run.phase is AwaitingDetection,
    ensures
        ({
            let (after, turn) = advance_spec(run, ReplyView::Detection(Ok(Seq::empty())), now);
            &&& turn.settled
            &&& after.outcomes == run.outcomes.push(
                OutcomeView {
                    object: run.batch[run.cursor as int],
                    result: Err(ErrorView::NoFaceDetected),
                },
            )
            &&& turn.next == opening(run.batch, run.cursor + 1)
            &&& !(turn.next matches NextView::Call(RequestView::PutRecord(_)))
        }),
{
}

/// Of the detector's results only the first counts: results after it change
/// neither the face that is taken nor the step that follows.
pub proof fn law_first_face_only(run: RunView, faces: Seq<FaceRecordView>, now: Option<u64>)
    requires
        faces.len() >= 1,
    ensures
        selected_face(faces) == selected_face(seq![faces[0]]),
        advance_spec(run, ReplyView::Detection(Ok(faces)), now) == advance_spec(
            run,
            ReplyView::Detection(Ok(seq![faces[0]])),
            now,
        ),
{
}

/// A first enrollment has one time stamp: the record's time of creation is
/// its time of last update.
pub proof fn law_one_time_stamp(
    person_id: Seq<char>,
    face_id: Seq<char>,
    confidence: Option<Seq<char>>,
    now: nat,
    metadata: Map<Seq<char>, Seq<char>>,
)
    ensures
        record_of(person_id, face_id, confidence, now, metadata).created_at == record_of(
            person_id,
            face_id,
            confidence,
            now,
            metadata,
        ).last_updated_at,
        record_of(person_id, face_id, confidence, now, metadata).created_at == decimal(now),
{
}

/// The two time attributes that are written hold the same numeral, the
/// one reading of the clock, whatever the object's metadata holds.
pub proof fn law_written_times_equal(
    person_id: Seq<char>,
    face_id: Seq<char>,
    confidence: Option<Seq<char>>,
    now: nat,
    metadata: Map<Seq<char>, Seq<char>>,
)
    ensures
        ({
            let item = item_of(record_of(person_id, face_id, confidence, now, metadata));
            &&& item.contains_key(CREATED_AT_ATTRIBUTE@)
            &&& item.contains_key(LAST_UPDATED_AT_ATTRIBUTE@)
            &&& item[CREATED_AT_ATTRIBUTE@] == AttributeView::S(decimal(now))
            &&& item[LAST_UPDATED_AT_ATTRIBUTE@] == item[CREATED_AT_ATTRIBUTE@]
        }),
{
    lemma_item_attributes(record_of(person_id, face_id, confidence, now, metadata));
}

/// What is written is keyed by the subject that the identity key names and
/// holds the face that was taken, whatever else the object's metadata
/// holds; the confidence is written as a number exactly where the face has
/// one.
pub proof fn law_written_identity_is_the_subject(
    person_id: Seq<char>,
    face_id: Seq<char>,
    confidence: Option<Seq<char>>,
    now: nat,
    metadata: Map<Seq<char>, Seq<char>>,
)
    ensures
        ({
            let item = item_of(record_of(person_id, face_id, confidence, now, metadata));
            &&& item.contains_key(PERSON_ID_ATTRIBUTE@)
            &&& item[PERSON_ID_ATTRIBUTE@] == AttributeView::S(person_id)
            &&& item.contains_key(FACE_ID_ATTRIBUTE@)
            &&& item[FACE_ID_ATTRIBUTE@] == AttributeView::S(face_id)
            &&& item.contains_key(CONFIDENCE_ATTRIBUTE@) <==> confidence is Some
            &&& confidence matches Some(c) ==> item[CONFIDENCE_ATTRIBUTE@] == AttributeView::N(c)
        }),
{
    lemma_item_attributes(record_of(person_id, face_id, confidence, now, metadata));
}

/// The identity key is no attribute of what is written: it is the primary
/// key's value, and the pass-through leaves it out.
pub proof fn law_identity_key_excluded(
    person_id: Seq<char>,
    face_id: Seq<char>,
    confidence: Option<Seq<char>>,
    now: nat,
    metadata: Map<Seq<char>, Seq<char>>,
)
    ensures
        !record_of(person_id, face_id, confidence, now, metadata).extra.contains_key(
            IDENTITY_KEY@,
        ),
        !item_of(record_of(person_id, face_id, confidence, now, metadata)).contains_key(
            IDENTITY_KEY@,
        ),
{
    lemma_item_attributes(record_of(person_id, face_id, confidence, now, metadata));
}

/// A metadata entry is written exactly where its key is not reserved, and
/// then as a text attribute with the entry's own value.
pub proof fn law_metadata_passes_through(
    person_id: Seq<char>,
    face_id: Seq<char>,
    confidence: Option<Seq<char>>,
    now: nat,
    metadata: Map<Seq<char>, Seq<char>>,
    key: Seq<char>,
)
    requires
        !is_reserved(key),
    ensures
        item_of(record_of(person_id, face_id, confidence, now, metadata)).contains_key(key)
            <==> metadata.contains_key(key),
        metadata.contains_key(key) ==> item_of(
            record_of(person_id, face_id, confidence, now, metadata),
        )[key] == AttributeView::S(metadata[key]),
{
    lemma_item_attributes(record_of(person_id, face_id, confidence, now, metadata));
}

} // verus!
