//! The decoding of a notification payload into the batch of objects that it
//! names.
//!
//! A payload is an object with an array under `Records`. Each record names
//! one object: the bucket as a text under `s3.bucket.name`, the key as a
//! text under `s3.object.key`. Other members are passed over.

use crate::json::Json;
use crate::model::{refs_view, ObjectRef, ObjectRefView};
use crate::text::{decimal, format_decimal};
use vstd::prelude::*;
use vstd::string::*;

verus! {

/// The member that holds the records of a payload.
pub const RECORDS_MEMBER: &'static str = "Records";

/// The member of a record that holds the notification of the object store.
pub const STORE_MEMBER: &'static str = "s3";

/// The member that describes the bucket.
pub const BUCKET_MEMBER: &'static str = "bucket";

/// The member of a bucket that holds its name.
pub const NAME_MEMBER: &'static str = "name";

/// The member that describes the object.
pub const OBJECT_MEMBER: &'static str = "object";

/// The member of an object that holds its key.
pub const KEY_MEMBER: &'static str = "key";

/// A payload that does not have the shape of a notification batch.
#[derive(Debug, Clone, Copy, PartialEq, Eq, Structural)]
pub enum StructuralError {
    /// The payload is no object with an array of records.
    NoRecords,
    /// The record at `index` does not name a bucket and a key.
    MalformedRecord { index: usize },
}

/// The text that describes a structural error.
pub open spec fn structural_text(e: StructuralError) -> Seq<char> {
    match e {
        StructuralError::NoRecords => "Malformed event: no array under `Records`"@,
        StructuralError::MalformedRecord { index } => "Malformed event: no bucket name or object key in record "@
            + decimal(index as nat),
    }
}

impl StructuralError {
    /// The text that describes this error.
    pub fn message(&self) -> (text: String)
        ensures
            text@ == structural_text(*self),
    {
        match self {
            StructuralError::NoRecords => "Malformed event: no array under `Records`".to_owned(),
            StructuralError::MalformedRecord { index } => {
                let mut text =
                    "Malformed event: no bucket name or object key in record ".to_owned();
                let position = format_decimal(*index as u64);
                text.append(position.as_str());
                text
            },
        }
    }
}

/// The object that a record names, where it names one.
pub open spec fn record_ref(record: Json) -> Option<ObjectRefView> {
    match record.field(STORE_MEMBER@) {
        None => None,
        Some(store) => match (store.field(BUCKET_MEMBER@), store.field(OBJECT_MEMBER@)) {
            (Some(bucket), Some(object)) => match (
                bucket.text_field(NAME_MEMBER@),
                object.text_field(KEY_MEMBER@),
            ) {
                (Some(name), Some(key)) => Some(ObjectRefView { bucket: name, key }),
                _ => None,
            },
            _ => None,
        },
    }
}

/// Every one of the first `n` records names an object.
pub open spec fn all_named(records: Seq<Json>, n: int) -> bool {
    forall|i: int| 0 <= i < n ==> (#[trigger] record_ref(records[i])) is Some
}

/// The objects that the records name, in the order of the records.
pub open spec fn named_refs(records: Seq<Json>) -> Seq<ObjectRefView> {
    Seq::new(records.len(), |i: int| record_ref(records[i])->Some_0)
}

/// What a payload decodes to: the batch of the objects that its records
/// name, in their order, or the first thing that is wrong with it.
pub open spec fn decoded(event: Json) -> Result<Seq<ObjectRefView>, StructuralError> {
    match event.array_field(RECORDS_MEMBER@) {
        None => Err(StructuralError::NoRecords),
        Some(records) => if all_named(records, records.len() as int) {
            Ok(named_refs(records))
        } else {
            Err(
                StructuralError::MalformedRecord {
                    index: (choose|i: int|
                        0 <= i < records.len() && record_ref(records[i]) is None && all_named(
                            records,
                            i,
                        )) as usize,
                },
            )
        },
    }
}

/// The view of what [`decode`] returns.
pub open spec fn decoding_view(r: Result<Vec<ObjectRef>, StructuralError>) -> Result<
    Seq<ObjectRefView>,
    StructuralError,
> {
    match r {
        Ok(batch) => Ok(refs_view(batch@)),
        Err(e) => Err(e),
    }
}

/// Reads the object that one record names.
pub fn decode_record(record: &Json) -> (named: Option<ObjectRef>)
    ensures
        match named {
            Some(object) => record_ref(*record) == Some(object@),
            None => record_ref(*record) is None,
        },
{
    let store = match record.get(STORE_MEMBER) {
        Some(store) => store,
        None => return None,
    };
    let bucket = match store.get(BUCKET_MEMBER) {
        Some(bucket) => bucket,
        None => return None,
    };
    let object = match store.get(OBJECT_MEMBER) {
        Some(object) => object,
        None => return None,
    };
    let name = match bucket.get_text(NAME_MEMBER) {
        Some(name) => name,
        None => return None,
    };
    let key = match object.get_text(KEY_MEMBER) {
        Some(key) => key,
        None => return None,
    };
    Some(ObjectRef { bucket: name.clone(), key: key.clone() })
}

/// Decodes a notification payload into its batch.
pub fn decode(event: &Json) -> (batch: Result<Vec<ObjectRef>, StructuralError>)
    ensures
        decoding_view(batch) == decoded(*event),
        batch matches Err(StructuralError::MalformedRecord { index }) ==> {
            let records = event.array_field(RECORDS_MEMBER@)->Some_0;
            &&& index < records.len()
            &&& record_ref(records[index as int]) is None
            &&& all_named(records, index as int)
        },
{
    let records = match event.get_array(RECORDS_MEMBER) {
        Some(records) => records,
        None => return Err(StructuralError::NoRecords),
    };
    let mut batch: Vec<ObjectRef> = Vec::new();
    let mut i: usize = 0;
    while i < records.len()
        invariant
            i <= records.len(),
            batch@.len() == i,
            event.array_field(RECORDS_MEMBER@) == Some(records@),
            all_named(records@, i as int),
            forall|j: int| 0 <= j < i ==> record_ref(records@[j]) == Some((#[trigger] batch@[j])@),
        decreases records.len() - i,
    {
        match decode_record(&records[i]) {
            Some(object) => batch.push(object),
            None => {
                proof {
                    lemma_first_unnamed(records@, i as int);
                }
                return Err(StructuralError::MalformedRecord { index: i });
            },
        }
        i += 1;
    }
    assert(refs_view(batch@) =~= named_refs(records@));
    Ok(batch)
}

/// The first record that names no object is the one that `decoded` reports.
proof fn lemma_first_unnamed(records: Seq<Json>, first: int)
    requires
        0 <= first < records.len(),
        record_ref(records[first]) is None,
        all_named(records, first),
    ensures
        !all_named(records, records.len() as int),
        (choose|i: int|
            0 <= i < records.len() && record_ref(records[i]) is None && all_named(records, i))
            == first,
{
    let chosen = choose|i: int|
        0 <= i < records.len() && record_ref(records[i]) is None && all_named(records, i);
    if chosen < first {
        assert(record_ref(records[chosen]) is Some);
    }
    if first < chosen {
        assert(record_ref(records[first]) is Some);
    }
}

} // verus!
