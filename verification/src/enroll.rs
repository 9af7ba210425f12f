//! The decisions of one enrollment: which subject a stored object names,
//! what is asked of the detector, which of its results is taken, and which
//! record is written.

use crate::errors::{ErrorView, FaceField, PerRecordError};
use crate::model::{
    AttributeValue, AttributeView, EnrollmentRecord, FaceRecord, FaceRecordView, IndexRequest,
    IndexRequestView, Item, ObjectMetadata, ObjectRef, ObjectRefView, PutRequest, PutRequestView,
    RecordView, copy_text, faces_view, lemma_names_differ, text_opt, CONFIDENCE_ATTRIBUTE, CREATED_AT_ATTRIBUTE,
    FACE_ID_ATTRIBUTE, IDENTITY_KEY, LAST_UPDATED_AT_ATTRIBUTE, MAX_FACES, PERSON_ID_ATTRIBUTE,
};
use crate::strmap::{map_of, StrMap};
use crate::text::{decimal, format_decimal};
use vstd::prelude::*;

verus! {

/// The subject that the metadata names, if it names one.
pub open spec fn identity_in(metadata: Map<Seq<char>, Seq<char>>) -> Option<Seq<char>> {
    if metadata.contains_key(IDENTITY_KEY@) {
        Some(metadata[IDENTITY_KEY@])
    } else {
        None
    }
}

/// Reads the subject's identity out of an object's metadata.
pub fn identity_of(metadata: &ObjectMetadata) -> (identity: Option<String>)
    ensures
        text_opt(identity) == identity_in(metadata@),
{
    match metadata.get(IDENTITY_KEY) {
        Some(person_id) => Some(person_id.clone()),
        None => None,
    }
}

/// The request that indexes the face in `object` for `person_id`: the
/// detector reads the stored object itself, tags the face with the subject's
/// identity and reports one face at most.
pub open spec fn index_request_for(
    object: ObjectRefView,
    person_id: Seq<char>,
    collection_id: Seq<char>,
) -> IndexRequestView {
    IndexRequestView {
        collection_id,
        image: object,
        external_image_id: person_id,
        max_faces: MAX_FACES as int,
    }
}

/// Builds the request that indexes the face in `object` for `person_id`.
pub fn index_request(object: &ObjectRef, person_id: &str, collection_id: &str) -> (request:
    IndexRequest)
    ensures
        request@ == index_request_for(object@, person_id@, collection_id@),
        request@.max_faces == 1,
{
    IndexRequest {
        collection_id: collection_id.to_owned(),
        image: object.clone(),
        external_image_id: person_id.to_owned(),
        max_faces: MAX_FACES,
    }
}

/// The face that an enrollment takes from the detector's results: the
/// identifier and the confidence of the first result, whatever follows it.
pub open spec fn selected_face(faces: Seq<FaceRecordView>) -> Result<
    (Seq<char>, Option<Seq<char>>),
    ErrorView,
> {
    if faces.len() == 0 {
        Err(ErrorView::NoFaceDetected)
    } else {
        match faces[0].face {
            None => Err(ErrorView::DataIntegrity { missing: FaceField::Face }),
            Some(face) => match face.face_id {
                None => Err(ErrorView::DataIntegrity { missing: FaceField::FaceId }),
                Some(face_id) => Ok((face_id, face.confidence)),
            },
        }
    }
}

/// The view of what [`select_face`] returns.
pub open spec fn selection_view(r: Result<(String, Option<String>), PerRecordError>) -> Result<
    (Seq<char>, Option<Seq<char>>),
    ErrorView,
> {
    match r {
        Ok((face_id, confidence)) => Ok((face_id@, text_opt(confidence))),
        Err(e) => Err(e@),
    }
}

/// Takes the face to enroll from the detector's results.
pub fn select_face(faces: &Vec<FaceRecord>) -> (selection: Result<
    (String, Option<String>),
    PerRecordError,
>)
    ensures
        selection_view(selection) == selected_face(faces_view(faces@)),
{
    if faces.len() == 0 {
        return Err(PerRecordError::NoFaceDetected);
    }
    match &faces[0].face {
        None => Err(PerRecordError::DataIntegrity { missing: FaceField::Face }),
        Some(face) => match &face.face_id {
            None => Err(PerRecordError::DataIntegrity { missing: FaceField::FaceId }),
            Some(face_id) => Ok((face_id.clone(), copy_text(&face.confidence))),
        },
    }
}

/// Whether `key` is the name of one of the attributes that the pipeline
/// itself writes.
pub open spec fn is_attribute_name(key: Seq<char>) -> bool {
    ||| key == PERSON_ID_ATTRIBUTE@
    ||| key == FACE_ID_ATTRIBUTE@
    ||| key == CREATED_AT_ATTRIBUTE@
    ||| key == LAST_UPDATED_AT_ATTRIBUTE@
    ||| key == CONFIDENCE_ATTRIBUTE@
}

/// Whether a metadata entry under `key` is kept back from the record: the
/// identity key is, and so is every name of an attribute that the pipeline
/// itself writes.
pub open spec fn is_reserved(key: Seq<char>) -> bool {
    key == IDENTITY_KEY@ || is_attribute_name(key)
}

/// Tells whether a metadata entry under `key` is kept back from the record.
pub fn is_reserved_name(key: &str) -> (reserved: bool)
    ensures
        reserved == is_reserved(key@),
{
    let name = key.to_owned();
    name == IDENTITY_KEY.to_owned() || name == PERSON_ID_ATTRIBUTE.to_owned() || name
        == FACE_ID_ATTRIBUTE.to_owned() || name == CREATED_AT_ATTRIBUTE.to_owned() || name
        == LAST_UPDATED_AT_ATTRIBUTE.to_owned() || name == CONFIDENCE_ATTRIBUTE.to_owned()
}

/// The metadata that passes through to the record: every entry whose key is
/// not reserved, with its own value.
pub open spec fn pass_through_of(metadata: Map<Seq<char>, Seq<char>>) -> Map<
    Seq<char>,
    Seq<char>,
> {
    Map::new(
        |key: Seq<char>| metadata.contains_key(key) && !is_reserved(key),
        |key: Seq<char>| metadata[key],
    )
}

/// Copies the metadata that passes through to the record.
pub fn pass_through(metadata: &ObjectMetadata) -> (extra: StrMap<String>)
    ensures
        extra@ == pass_through_of(metadata@),
{
    let mut extra: StrMap<String> = StrMap::new();
    let n = metadata.len();
    let mut i: usize = 0;
    assert(metadata.listing().take(0) =~= Seq::empty());
    assert(extra@ =~= pass_through_of(map_of(metadata.listing().take(0))));
    while i < n
        invariant
            i <= n,
            n == metadata.listing().len(),
            extra@ == pass_through_of(map_of(metadata.listing().take(i as int))),
        decreases n - i,
    {
        let key = metadata.key_at(i);
        let value = metadata.value_at(i);
        let ghost before = map_of(metadata.listing().take(i as int));
        proof {
            let next = metadata.listing().take(i + 1);
            assert(next.drop_last() =~= metadata.listing().take(i as int));
            assert(next.last() == metadata.listing()[i as int]);
            assert(map_of(next) == before.insert(key@, value@));
        }
        if is_reserved_name(key.as_str()) {
            assert(pass_through_of(before.insert(key@, value@)) =~= extra@);
        } else {
            let ghost kept = extra@;
            extra.insert(key.clone(), value.clone());
            assert(pass_through_of(before.insert(key@, value@)) =~= kept.insert(key@, value@));
        }
        i += 1;
    }
    assert(metadata.listing().take(n as int) =~= metadata.listing());
    extra
}

/// The record of a first enrollment at `now` seconds: both times are the
/// same numeral, and the metadata passes through without its reserved
/// entries.
pub open spec fn record_of(
    person_id: Seq<char>,
    face_id: Seq<char>,
    confidence: Option<Seq<char>>,
    now: nat,
    metadata: Map<Seq<char>, Seq<char>>,
) -> RecordView {
    RecordView {
        identity_key: person_id,
        face_id,
        created_at: decimal(now),
        last_updated_at: decimal(now),
        confidence,
        extra: pass_through_of(metadata),
    }
}

/// Assembles the record of a first enrollment at `now` seconds.
pub fn assemble_record(
    person_id: String,
    face_id: String,
    confidence: Option<String>,
    now: u64,
    metadata: &ObjectMetadata,
) -> (record: EnrollmentRecord)
    ensures
        record@ == record_of(person_id@, face_id@, text_opt(confidence), now as nat, metadata@),
        record@.created_at == record@.last_updated_at,
        !record@.extra.contains_key(IDENTITY_KEY@),
        forall|key: Seq<char>| is_reserved(key) ==> !record@.extra.contains_key(key),
{
    let stamp = format_decimal(now);
    EnrollmentRecord {
        identity_key: person_id,
        face_id,
        created_at: stamp.clone(),
        last_updated_at: stamp,
        confidence,
        extra: pass_through(metadata),
    }
}

/// The attributes that every record has, whatever its metadata.
pub open spec fn fixed_attributes(record: RecordView) -> Map<Seq<char>, AttributeView> {
    let base = Map::<Seq<char>, AttributeView>::empty().insert(
        PERSON_ID_ATTRIBUTE@,
        AttributeView::S(record.identity_key),
    ).insert(FACE_ID_ATTRIBUTE@, AttributeView::S(record.face_id)).insert(
        CREATED_AT_ATTRIBUTE@,
        AttributeView::S(record.created_at),
    ).insert(LAST_UPDATED_AT_ATTRIBUTE@, AttributeView::S(record.last_updated_at));
    match record.confidence {
        Some(c) => base.insert(CONFIDENCE_ATTRIBUTE@, AttributeView::N(c)),
        None => base,
    }
}

/// The pass-through metadata as text attributes.
pub open spec fn extra_attributes(extra: Map<Seq<char>, Seq<char>>) -> Map<
    Seq<char>,
    AttributeView,
> {
    extra.map_values(|v: Seq<char>| AttributeView::S(v))
}

/// The attributes under which a record is written: the fixed ones, and one
/// text attribute for each further entry of the record whose key is not
/// reserved. No entry takes the place of a fixed attribute or stands under
/// the identity key.
pub open spec fn item_of(record: RecordView) -> Map<Seq<char>, AttributeView> {
    fixed_attributes(record).union_prefer_right(
        extra_attributes(pass_through_of(record.extra)),
    )
}

/// What the written attributes of any record hold: the subject's identity
/// as the primary key, the face identifier, the two times, the confidence
/// as a number exactly where the record has one, and nothing else under a
/// reserved name.
pub proof fn lemma_item_attributes(record: RecordView)
    ensures
        item_of(record).contains_key(PERSON_ID_ATTRIBUTE@),
        item_of(record)[PERSON_ID_ATTRIBUTE@] == AttributeView::S(record.identity_key),
        item_of(record).contains_key(FACE_ID_ATTRIBUTE@),
        item_of(record)[FACE_ID_ATTRIBUTE@] == AttributeView::S(record.face_id),
        item_of(record).contains_key(CREATED_AT_ATTRIBUTE@),
        item_of(record)[CREATED_AT_ATTRIBUTE@] == AttributeView::S(record.created_at),
        item_of(record).contains_key(LAST_UPDATED_AT_ATTRIBUTE@),
        item_of(record)[LAST_UPDATED_AT_ATTRIBUTE@] == AttributeView::S(
            record.last_updated_at,
        ),
        item_of(record).contains_key(CONFIDENCE_ATTRIBUTE@) <==> record.confidence is Some,
        record.confidence matches Some(c) ==> item_of(record)[CONFIDENCE_ATTRIBUTE@]
            == AttributeView::N(c),
        !item_of(record).contains_key(IDENTITY_KEY@),
        forall|key: Seq<char>|
            !is_reserved(key) ==> (#[trigger] item_of(record).contains_key(key)
                <==> record.extra.contains_key(key)),
        forall|key: Seq<char>|
            !is_reserved(key) && record.extra.contains_key(key) ==> #[trigger] item_of(
                record,
            )[key] == AttributeView::S(record.extra[key]),
{
    lemma_names_differ();
}

/// Lays a record out as the attributes to write.
pub fn to_item(record: &EnrollmentRecord) -> (item: Item)
    ensures
        item@ == item_of(record@),
        item@[PERSON_ID_ATTRIBUTE@] == AttributeView::S(record@.identity_key),
        item@[FACE_ID_ATTRIBUTE@] == AttributeView::S(record@.face_id),
        item@[CREATED_AT_ATTRIBUTE@] == AttributeView::S(record@.created_at),
        item@[LAST_UPDATED_AT_ATTRIBUTE@] == AttributeView::S(record@.last_updated_at),
        item@.contains_key(CONFIDENCE_ATTRIBUTE@) <==> record@.confidence is Some,
        record@.confidence matches Some(c) ==> item@[CONFIDENCE_ATTRIBUTE@] == AttributeView::N(
            c,
        ),
        !item@.contains_key(IDENTITY_KEY@),
{
    let mut item: Item = StrMap::new();
    item.insert(
        PERSON_ID_ATTRIBUTE.to_owned(),
        AttributeValue::S(record.identity_key.clone()),
    );
    item.insert(FACE_ID_ATTRIBUTE.to_owned(), AttributeValue::S(record.face_id.clone()));
    item.insert(CREATED_AT_ATTRIBUTE.to_owned(), AttributeValue::S(record.created_at.clone()));
    item.insert(
        LAST_UPDATED_AT_ATTRIBUTE.to_owned(),
        AttributeValue::S(record.last_updated_at.clone()),
    );
    match &record.confidence {
        Some(c) => {
            item.insert(CONFIDENCE_ATTRIBUTE.to_owned(), AttributeValue::N(c.clone()));
        },
        None => {},
    }
    let ghost fixed = fixed_attributes(record@);
    assert(item@ == fixed);
    let n = record.extra.len();
    let mut i: usize = 0;
    assert(record.extra.listing().take(0) =~= Seq::empty());
    assert(fixed.union_prefer_right(extra_attributes(pass_through_of(Map::empty()))) =~= fixed);
    while i < n
        invariant
            i <= n,
            n == record.extra.listing().len(),
            fixed == fixed_attributes(record@),
            item@ == fixed.union_prefer_right(
                extra_attributes(pass_through_of(map_of(record.extra.listing().take(i as int)))),
            ),
        decreases n - i,
    {
        let key = record.extra.key_at(i);
        let value = record.extra.value_at(i);
        let ghost before = map_of(record.extra.listing().take(i as int));
        proof {
            let next = record.extra.listing().take(i + 1);
            assert(next.drop_last() =~= record.extra.listing().take(i as int));
            assert(next.last() == record.extra.listing()[i as int]);
            assert(map_of(next) == before.insert(key@, value@));
        }
        if is_reserved_name(key.as_str()) {
            assert(item@ =~= fixed.union_prefer_right(
                extra_attributes(pass_through_of(before.insert(key@, value@))),
            ));
        } else {
            item.insert(key.clone(), AttributeValue::S(value.clone()));
            assert(item@ =~= fixed.union_prefer_right(
                extra_attributes(pass_through_of(before.insert(key@, value@))),
            ));
        }
        i += 1;
    }
    assert(record.extra.listing().take(n as int) =~= record.extra.listing());
    proof {
        lemma_item_attributes(record@);
    }
    item
}

/// The request that writes `record` to `table_name`.
pub open spec fn put_request_for(table_name: Seq<char>, record: RecordView) -> PutRequestView {
    PutRequestView { table_name, item: item_of(record) }
}

/// Builds the request that writes `record` to `table_name`.
pub fn put_request(table_name: &str, record: &EnrollmentRecord) -> (request: PutRequest)
    ensures
        request@ == put_request_for(table_name@, record@),
{
    PutRequest { table_name: table_name.to_owned(), item: to_item(record) }
}

} // verus!
