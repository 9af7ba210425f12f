//! The values that pass through the pipeline: references to stored objects,
//! their metadata, what the detector reports, the record that is persisted,
//! and the requests made of the remote services.

use crate::strmap::StrMap;
use vstd::prelude::*;

verus! {

/// The metadata key under which a stored object names its subject.
pub const IDENTITY_KEY: &'static str = "person_id";

/// The attribute that holds the subject's identity: the primary key.
pub const PERSON_ID_ATTRIBUTE: &'static str = "PersonId";

/// The attribute that holds the face identifier.
pub const FACE_ID_ATTRIBUTE: &'static str = "FaceId";

/// The attribute that holds the time of creation.
pub const CREATED_AT_ATTRIBUTE: &'static str = "CreatedAt";

/// The attribute that holds the time of the last update.
pub const LAST_UPDATED_AT_ATTRIBUTE: &'static str = "LastUpdatedAt";

/// The attribute that holds the detector's confidence.
pub const CONFIDENCE_ATTRIBUTE: &'static str = "Confidence";

/// How many faces the detector is asked to report for one image.
pub const MAX_FACES: i32 = 1;

/// The names above are pairwise different.
pub proof fn lemma_names_differ()
    ensures
        IDENTITY_KEY@ != PERSON_ID_ATTRIBUTE@,
        IDENTITY_KEY@ != FACE_ID_ATTRIBUTE@,
        IDENTITY_KEY@ != CREATED_AT_ATTRIBUTE@,
        IDENTITY_KEY@ != LAST_UPDATED_AT_ATTRIBUTE@,
        IDENTITY_KEY@ != CONFIDENCE_ATTRIBUTE@,
        PERSON_ID_ATTRIBUTE@ != FACE_ID_ATTRIBUTE@,
        PERSON_ID_ATTRIBUTE@ != CREATED_AT_ATTRIBUTE@,
        PERSON_ID_ATTRIBUTE@ != LAST_UPDATED_AT_ATTRIBUTE@,
        PERSON_ID_ATTRIBUTE@ != CONFIDENCE_ATTRIBUTE@,
        FACE_ID_ATTRIBUTE@ != CREATED_AT_ATTRIBUTE@,
        FACE_ID_ATTRIBUTE@ != LAST_UPDATED_AT_ATTRIBUTE@,
        FACE_ID_ATTRIBUTE@ != CONFIDENCE_ATTRIBUTE@,
        CREATED_AT_ATTRIBUTE@ != LAST_UPDATED_AT_ATTRIBUTE@,
        CREATED_AT_ATTRIBUTE@ != CONFIDENCE_ATTRIBUTE@,
        LAST_UPDATED_AT_ATTRIBUTE@ != CONFIDENCE_ATTRIBUTE@,
{
    reveal_strlit("person_id");
    reveal_strlit("PersonId");
    reveal_strlit("FaceId");
    reveal_strlit("CreatedAt");
    reveal_strlit("LastUpdatedAt");
    reveal_strlit("Confidence");
    assert(IDENTITY_KEY@.len() == 9 && IDENTITY_KEY@[0] == 'p');
    assert(PERSON_ID_ATTRIBUTE@.len() == 8);
    assert(FACE_ID_ATTRIBUTE@.len() == 6);
    assert(CREATED_AT_ATTRIBUTE@.len() == 9 && CREATED_AT_ATTRIBUTE@[0] == 'C');
    assert(LAST_UPDATED_AT_ATTRIBUTE@.len() == 13);
    assert(CONFIDENCE_ATTRIBUTE@.len() == 10);
}

/// The view of an optional text.
pub open spec fn text_opt(o: Option<String>) -> Option<Seq<char>> {
    match o {
        Some(s) => Some(s@),
        None => None,
    }
}

/// One stored object, by bucket and key.
#[derive(Debug, PartialEq, Eq)]
pub struct ObjectRef {
    pub bucket: String,
    pub key: String,
}

/// The view of an [`ObjectRef`].
pub struct ObjectRefView {
    pub bucket: Seq<char>,
    pub key: Seq<char>,
}

impl View for ObjectRef {
    type V = ObjectRefView;

    open spec fn view(&self) -> ObjectRefView {
        ObjectRefView { bucket: self.bucket@, key: self.key@ }
    }
}

impl Clone for ObjectRef {
    fn clone(&self) -> (copy: Self)
        ensures
            copy@ == self@,
    {
        ObjectRef { bucket: self.bucket.clone(), key: self.key.clone() }
    }
}

impl ObjectRef {
    /// The reference to the object `key` in `bucket`.
    pub fn new(bucket: &str, key: &str) -> (r: Self)
        ensures
            r@ == (ObjectRefView { bucket: bucket@, key: key@ }),
    {
        ObjectRef { bucket: bucket.to_owned(), key: key.to_owned() }
    }
}

/// The views of a sequence of object references.
pub open spec fn refs_view(refs: Seq<ObjectRef>) -> Seq<ObjectRefView> {
    Seq::new(refs.len(), |i: int| refs[i]@)
}

/// The user-defined metadata of a stored object.
pub type ObjectMetadata = StrMap<String>;

/// The attributes of one detected face. The confidence is held as the
/// decimal text of the detector's number.
#[derive(Debug, PartialEq, Eq)]
pub struct Face {
    pub face_id: Option<String>,
    pub confidence: Option<String>,
}

/// The view of a [`Face`].
pub struct FaceView {
    pub face_id: Option<Seq<char>>,
    pub confidence: Option<Seq<char>>,
}

impl View for Face {
    type V = FaceView;

    open spec fn view(&self) -> FaceView {
        FaceView { face_id: text_opt(self.face_id), confidence: text_opt(self.confidence) }
    }
}

/// A copy of an optional text.
pub fn copy_text(o: &Option<String>) -> (copy: Option<String>)
    ensures
        text_opt(copy) == text_opt(*o),
{
    match o {
        Some(s) => Some(s.clone()),
        None => None,
    }
}

impl Clone for Face {
    fn clone(&self) -> (copy: Self)
        ensures
            copy@ == self@,
    {
        Face { face_id: copy_text(&self.face_id), confidence: copy_text(&self.confidence) }
    }
}

/// One result of the detector for a submitted image.
#[derive(Debug, PartialEq, Eq)]
pub struct FaceRecord {
    pub face: Option<Face>,
}

/// The view of a [`FaceRecord`].
pub struct FaceRecordView {
    pub face: Option<FaceView>,
}

impl View for FaceRecord {
    type V = FaceRecordView;

    open spec fn view(&self) -> FaceRecordView {
        FaceRecordView {
            face: match self.face {
                Some(f) => Some(f@),
                None => None,
            },
        }
    }
}

impl Clone for FaceRecord {
    fn clone(&self) -> (copy: Self)
        ensures
            copy@ == self@,
    {
        FaceRecord {
            face: match &self.face {
                Some(f) => Some(f.clone()),
                None => None,
            },
        }
    }
}

impl FaceRecord {
    /// A result that carries a face with the given identifier and confidence.
    pub fn with_face(face_id: Option<String>, confidence: Option<String>) -> (r: Self)
        ensures
            r@ == (FaceRecordView {
                face: Some(
                    FaceView { face_id: text_opt(face_id), confidence: text_opt(confidence) },
                ),
            }),
    {
        FaceRecord { face: Some(Face { face_id, confidence }) }
    }
}

/// The views of a sequence of detector results.
pub open spec fn faces_view(faces: Seq<FaceRecord>) -> Seq<FaceRecordView> {
    Seq::new(faces.len(), |i: int| faces[i]@)
}

/// The value of one attribute of a persisted record: a text or a number,
/// the number held as its decimal text.
#[derive(Debug, PartialEq, Eq)]
pub enum AttributeValue {
    S(String),
    N(String),
}

/// The view of an [`AttributeValue`].
pub enum AttributeView {
    S(Seq<char>),
    N(Seq<char>),
}

impl View for AttributeValue {
    type V = AttributeView;

    open spec fn view(&self) -> AttributeView {
        match self {
            AttributeValue::S(s) => AttributeView::S(s@),
            AttributeValue::N(n) => AttributeView::N(n@),
        }
    }
}

impl Clone for AttributeValue {
    fn clone(&self) -> (copy: Self)
        ensures
            copy@ == self@,
    {
        match self {
            AttributeValue::S(s) => AttributeValue::S(s.clone()),
            AttributeValue::N(n) => AttributeValue::N(n.clone()),
        }
    }
}

/// The attributes of a record as they are written to the store.
pub type Item = StrMap<AttributeValue>;

/// The record of one enrollment, before it is laid out as attributes.
#[derive(Debug)]
pub struct EnrollmentRecord {
    pub identity_key: String,
    pub face_id: String,
    pub created_at: String,
    pub last_updated_at: String,
    pub confidence: Option<String>,
    pub extra: StrMap<String>,
}

/// The view of an [`EnrollmentRecord`].
pub struct RecordView {
    pub identity_key: Seq<char>,
    pub face_id: Seq<char>,
    pub created_at: Seq<char>,
    pub last_updated_at: Seq<char>,
    pub confidence: Option<Seq<char>>,
    pub extra: Map<Seq<char>, Seq<char>>,
}

impl View for EnrollmentRecord {
    type V = RecordView;

    open spec fn view(&self) -> RecordView {
        RecordView {
            identity_key: self.identity_key@,
            face_id: self.face_id@,
            created_at: self.created_at@,
            last_updated_at: self.last_updated_at@,
            confidence: text_opt(self.confidence),
            extra: self.extra@,
        }
    }
}

/// A request to index the face in one stored image.
#[derive(Debug)]
pub struct IndexRequest {
    pub collection_id: String,
    pub image: ObjectRef,
    pub external_image_id: String,
    pub max_faces: i32,
}

/// The view of an [`IndexRequest`].
pub struct IndexRequestView {
    pub collection_id: Seq<char>,
    pub image: ObjectRefView,
    pub external_image_id: Seq<char>,
    pub max_faces: int,
}

impl View for IndexRequest {
    type V = IndexRequestView;

    open spec fn view(&self) -> IndexRequestView {
        IndexRequestView {
            collection_id: self.collection_id@,
            image: self.image@,
            external_image_id: self.external_image_id@,
            max_faces: self.max_faces as int,
        }
    }
}

/// A request to write one record, replacing any record with the same
/// primary key.
#[derive(Debug)]
pub struct PutRequest {
    pub table_name: String,
    pub item: Item,
}

/// The view of a [`PutRequest`].
pub struct PutRequestView {
    pub table_name: Seq<char>,
    pub item: Map<Seq<char>, AttributeView>,
}

impl View for PutRequest {
    type V = PutRequestView;

    open spec fn view(&self) -> PutRequestView {
        PutRequestView { table_name: self.table_name@, item: self.item@ }
    }
}

} // verus!
