//! Batches of records in the shapes in which callers may hand them over, and
//! their normalization into vectors.
//!
//! Each record of a batch is normalized by itself, in the order of the
//! batch. The first record that is refused ends the work: its error is the
//! error of the batch, and what the records after it hold plays no part.

use crate::data_types::{metadata_view, Vector, VectorView};
use crate::dynamic::{fields_tree, DynamicField, FieldTree};
use crate::metadata::{Float32, MetadataMap, MetadataTree};
use crate::utils::conversions::joined;
use crate::utils::dynamic_conversions::{
    excess_keys, field_of, is_vector_key, lemma_excess_keys_first, lemma_mapping_id_not_empty,
    lemma_missing_id, unreadable_keys, vector_from_mapping, vector_outcome,
};
use crate::utils::errors::{
    message_of, record_prefix, record_prefix_string, ErrorView, PineconeClientError,
};
use vstd::prelude::*;
use vstd::string::*;

verus! {

/// One record of a batch, in the shape in which the caller gave it.
#[derive(Debug, PartialEq, Eq)]
pub enum UpsertRecord {
    /// A vector that is complete already.
    Vector(Vector),
    /// An id and the values.
    TwoTuple((String, Vec<Float32>)),
    /// An id, the values and the metadata.
    ThreeTuple((String, Vec<Float32>, MetadataMap)),
    /// A keyed mapping of the host.
    Dict(Vec<DynamicField>),
    /// A keyed mapping of the host with a key that is no text, so that its
    /// fields cannot be read.
    UnreadableDict,
    /// Anything else, as the text with which the host shows it.
    Other(String),
}

/// An [`UpsertRecord`] as a mathematical value.
pub enum RecordView {
    Vector(VectorView),
    TwoTuple(Seq<char>, Seq<Float32>),
    ThreeTuple(Seq<char>, Seq<Float32>, Seq<(Seq<char>, MetadataTree)>),
    Dict(Seq<FieldTree>),
    UnreadableDict,
    Other(Seq<char>),
}

impl View for UpsertRecord {
    type V = RecordView;

    open spec fn view(&self) -> RecordView {
        match *self {
            UpsertRecord::Vector(vector) => RecordView::Vector(vector@),
            UpsertRecord::TwoTuple(pair) => RecordView::TwoTuple(pair.0@, pair.1@),
            UpsertRecord::ThreeTuple(triple) => RecordView::ThreeTuple(
                triple.0@,
                triple.1@,
                triple.2@,
            ),
            UpsertRecord::Dict(fields) => RecordView::Dict(fields_tree(fields@)),
            UpsertRecord::UnreadableDict => RecordView::UnreadableDict,
            UpsertRecord::Other(text) => RecordView::Other(text@),
        }
    }
}

/// The views of the records of a batch, in its order.
pub open spec fn records_view(records: Seq<UpsertRecord>) -> Seq<RecordView> {
    Seq::new(records.len(), |i: int| records[i]@)
}

/// The views of vectors, in their order.
pub open spec fn vectors_view(vectors: Seq<Vector>) -> Seq<VectorView> {
    Seq::new(vectors.len(), |i: int| vectors[i]@)
}

/// The shapes that a record may have, as the message for one that has none
/// of them lists them.
pub open spec fn allowed_shapes() -> Seq<char> {
    ".\nAllowed types are: Vector; Tuple[str, List[float]]; Tuple[str, List[float], dict]; Dict[str, Any]"@
}

/// The error of a mapping as the error of the record at `position`: an error
/// that names a record names this one, and any other error becomes a value
/// error whose text names the record and then gives the error's message.
pub open spec fn at_position(e: ErrorView, position: nat) -> ErrorView {
    match e {
        ErrorView::UpsertKeyError { key, vec_num } => ErrorView::UpsertKeyError {
            key,
            vec_num: position,
        },
        ErrorView::UpsertValueError { key, vec_num, expected_type, actual } => {
            ErrorView::UpsertValueError { key, vec_num: position, expected_type, actual }
        },
        ErrorView::UpsertExcessKeysError { keys, vec_num } => ErrorView::UpsertExcessKeysError {
            keys,
            vec_num: position,
        },
        _ => ErrorView::ValueError(record_prefix(position) + message_of(e)),
    }
}

/// The error for a record at `position` whose id is the empty text.
pub open spec fn empty_id(position: nat) -> ErrorView {
    ErrorView::UpsertValueError {
        key: "id"@,
        vec_num: position,
        expected_type: "non-empty String"@,
        actual: "\"\""@,
    }
}

/// A vector as it is, if its id is not empty.
pub open spec fn with_id(vector: VectorView, position: nat) -> Result<VectorView, ErrorView> {
    if vector.id.len() == 0 {
        Err(empty_id(position))
    } else {
        Ok(vector)
    }
}

/// The vector for the record at `position`, or the error that refuses it. A
/// vector and a tuple give their fields as they are; a mapping is read; any
/// other shape is refused. In every shape an empty id is refused.
pub open spec fn normalized(record: RecordView, position: nat) -> Result<VectorView, ErrorView> {
    match record {
        RecordView::Vector(vector) => with_id(vector, position),
        RecordView::TwoTuple(id, values) => with_id(
            VectorView { id, values, sparse_values: None, metadata: None },
            position,
        ),
        RecordView::ThreeTuple(id, values, metadata) => with_id(
            VectorView { id, values, sparse_values: None, metadata: Some(metadata) },
            position,
        ),
        RecordView::Dict(fields) => match vector_from_mapping(fields) {
            Ok(vector) => Ok(vector),
            Err(e) => Err(at_position(e, position)),
        },
        RecordView::UnreadableDict => Err(at_position(unreadable_keys(), position)),
        RecordView::Other(text) => Err(
            ErrorView::ValueError(
                record_prefix(position) + "Found unexpected value: "@ + text + allowed_shapes(),
            ),
        ),
    }
}

/// The vectors for the records from place `from` on, or the error of the
/// first of them that is refused.
pub open spec fn converted(records: Seq<RecordView>, from: int) -> Result<
    Seq<VectorView>,
    ErrorView,
>
    decreases records.len() - from,
{
    if from < 0 || from >= records.len() {
        Ok(Seq::empty())
    } else {
        match normalized(records[from], from as nat) {
            Err(e) => Err(e),
            Ok(vector) => match converted(records, from + 1) {
                Err(e) => Err(e),
                Ok(rest) => Ok(seq![vector] + rest),
            },
        }
    }
}

/// A mapping that lacks `id` and has no key that it may not have is
/// refused, at whatever place of a batch it stands, for the missing key `id`
/// at that place.
pub proof fn lemma_missing_id_at(fields: Seq<FieldTree>, position: nat)
    requires
        forall|i: int| 0 <= i < fields.len() ==> is_vector_key(#[trigger] fields[i].key),
        field_of(fields, "id"@) is None,
    ensures
        normalized(RecordView::Dict(fields), position) == Err::<VectorView, ErrorView>(
            ErrorView::UpsertKeyError { key: "id"@, vec_num: position },
        ),
{
    lemma_missing_id(fields);
}

/// A mapping with a key that it may not have is refused for its excess keys
/// and for nothing else, whatever keys it lacks.
pub proof fn lemma_excess_keys_only(fields: Seq<FieldTree>, at: int, position: nat)
    requires
        0 <= at < fields.len(),
        !is_vector_key(fields[at].key),
    ensures
        normalized(RecordView::Dict(fields), position) == Err::<VectorView, ErrorView>(
            ErrorView::UpsertExcessKeysError {
                keys: excess_keys(fields, false, fields.len() as int),
                vec_num: position,
            },
        ),
        !(normalized(RecordView::Dict(fields), position)->Err_0 is UpsertKeyError),
{
    lemma_excess_keys_first(fields, at);
}

/// The vector of a record has an id that is not empty, whatever the shape
/// of the record.
pub proof fn lemma_id_not_empty(record: RecordView, position: nat)
    ensures
        normalized(record, position) matches Ok(vector) ==> vector.id.len() > 0,
{
    if let RecordView::Dict(fields) = record {
        lemma_mapping_id_not_empty(fields);
    }
}

/// Every vector of a batch has an id that is not empty.
pub proof fn lemma_ids_not_empty(records: Seq<RecordView>, from: int)
    requires
        0 <= from,
    ensures
        converted(records, from) matches Ok(vectors) ==> forall|i: int|
            0 <= i < vectors.len() ==> (#[trigger] vectors[i]).id.len() > 0,
    decreases records.len() - from,
{
    if from < records.len() {
        lemma_id_not_empty(records[from], from as nat);
        lemma_ids_not_empty(records, from + 1);
    }
}

/// A batch whose first refused record stands at `place` fails with the error
/// of that record.
pub proof fn lemma_first_refused(records: Seq<RecordView>, place: int)
    requires
        0 <= place < records.len(),
        forall|i: int| 0 <= i < place ==> (#[trigger] normalized(records[i], i as nat)) is Ok,
        normalized(records[place], place as nat) is Err,
    ensures
        converted(records, 0) == Err::<Seq<VectorView>, ErrorView>(
            normalized(records[place], place as nat)->Err_0,
        ),
{
    lemma_refused_from(records, place, 0);
}

proof fn lemma_refused_from(records: Seq<RecordView>, place: int, from: int)
    requires
        0 <= from <= place < records.len(),
        forall|i: int| 0 <= i < place ==> (#[trigger] normalized(records[i], i as nat)) is Ok,
        normalized(records[place], place as nat) is Err,
    ensures
        converted(records, from) == Err::<Seq<VectorView>, ErrorView>(
            normalized(records[place], place as nat)->Err_0,
        ),
    decreases place - from,
{
    if from < place {
        assert(normalized(records[from], from as nat) is Ok);
        lemma_refused_from(records, place, from + 1);
    }
}

/// What stands behind the first refused record of a batch plays no part:
/// two batches that agree up to and including that record fail alike.
pub proof fn lemma_later_records_ignored(
    records: Seq<RecordView>,
    others: Seq<RecordView>,
    place: int,
)
    requires
        0 <= place < records.len(),
        place < others.len(),
        forall|i: int| 0 <= i <= place ==> records[i] == others[i],
        forall|i: int| 0 <= i < place ==> (#[trigger] normalized(records[i], i as nat)) is Ok,
        normalized(records[place], place as nat) is Err,
    ensures
        converted(records, 0) == converted(others, 0),
{
    lemma_first_refused(records, place);
    assert forall|i: int| 0 <= i < place implies (#[trigger] normalized(others[i], i as nat))
        is Ok by {
        assert(normalized(records[i], i as nat) is Ok);
    }
    lemma_first_refused(others, place);
}

/// A batch without a refused record gives the vector of each record, in the
/// order of the batch.
pub proof fn lemma_all_accepted(records: Seq<RecordView>, from: int)
    requires
        0 <= from <= records.len(),
        forall|i: int|
            0 <= i < records.len() ==> (#[trigger] normalized(records[i], i as nat)) is Ok,
    ensures
        converted(records, from) == Ok::<Seq<VectorView>, ErrorView>(
            Seq::new(
                (records.len() - from) as nat,
                |i: int| normalized(records[from + i], (from + i) as nat)->Ok_0,
            ),
        ),
    decreases records.len() - from,
{
    let all = Seq::new(
        (records.len() - from) as nat,
        |i: int| normalized(records[from + i], (from + i) as nat)->Ok_0,
    );
    if from < records.len() {
        lemma_all_accepted(records, from + 1);
        let rest = Seq::new(
            (records.len() - (from + 1)) as nat,
            |i: int| normalized(records[from + 1 + i], (from + 1 + i) as nat)->Ok_0,
        );
        assert(normalized(records[from], from as nat) is Ok);
        assert(seq![normalized(records[from], from as nat)->Ok_0] + rest =~= all);
    } else {
        assert(all =~= Seq::<VectorView>::empty());
    }
}

/// Marks the error of a mapping as the error of the record at `position`.
pub fn error_at_position(e: PineconeClientError, position: usize) -> (r: PineconeClientError)
    ensures
        r@ == at_position(e@, position as nat),
{
    match e {
        PineconeClientError::UpsertKeyError { key, vec_num: _ } => {
            PineconeClientError::UpsertKeyError { key, vec_num: position }
        },
        PineconeClientError::UpsertValueError { key, vec_num: _, expected_type, actual } => {
            PineconeClientError::UpsertValueError { key, vec_num: position, expected_type, actual }
        },
        PineconeClientError::UpsertExcessKeysError { keys, vec_num: _ } => {
            PineconeClientError::UpsertExcessKeysError { keys, vec_num: position }
        },
        other => {
            let text = other.message();
            PineconeClientError::ValueError(record_prefix_string(position).concat(text.as_str()))
        },
    }
}

/// Hands a vector on if its id is not empty.
fn check_id(vector: Vector, position: usize) -> (r: Result<Vector, PineconeClientError>)
    ensures
        vector_outcome(r) == with_id(vector@, position as nat),
{
    if vector.id.as_str().is_empty() {
        return Err(
            PineconeClientError::UpsertValueError {
                key: String::from_str("id"),
                vec_num: position,
                expected_type: String::from_str("non-empty String"),
                actual: String::from_str("\"\""),
            },
        );
    }
    Ok(vector)
}

/// Normalizes the record at `position` of a batch.
pub fn normalize(record: UpsertRecord, position: usize) -> (r: Result<Vector, PineconeClientError>)
    ensures
        vector_outcome(r) == normalized(record@, position as nat),
        r matches Ok(vector) ==> vector.id@.len() > 0,
{
    proof {
        lemma_id_not_empty(record@, position as nat);
    }
    match record {
        UpsertRecord::Vector(vector) => check_id(vector, position),
        UpsertRecord::TwoTuple(pair) => check_id(
            Vector { id: pair.0, values: pair.1, sparse_values: None, metadata: None },
            position,
        ),
        UpsertRecord::ThreeTuple(triple) => {
            let r = Vector {
                id: triple.0,
                values: triple.1,
                sparse_values: None,
                metadata: Some(triple.2),
            };
            assert(metadata_view(r.metadata) == Some(triple.2@));
            check_id(r, position)
        },
        UpsertRecord::Dict(fields) => match Vector::try_from(&fields) {
            Ok(vector) => Ok(vector),
            Err(e) => Err(error_at_position(e, position)),
        },
        UpsertRecord::UnreadableDict => Err(
            error_at_position(
                PineconeClientError::ValueError(
                    String::from_str("Couldn't retrieve dictionary keys"),
                ),
                position,
            ),
        ),
        UpsertRecord::Other(text) => Err(
            PineconeClientError::ValueError(
                record_prefix_string(position).concat("Found unexpected value: ").concat(
                    text.as_str(),
                ).concat(
                    ".\nAllowed types are: Vector; Tuple[str, List[float]]; Tuple[str, List[float], dict]; Dict[str, Any]",
                ),
            ),
        ),
    }
}

/// Normalizes a batch: the vector of each record in the order of the batch,
/// or the error of the first record that is refused.
pub fn convert_upsert_enum_to_vectors(vectors: Vec<UpsertRecord>) -> (r: Result<
    Vec<Vector>,
    PineconeClientError,
>)
    ensures
        match r {
            Ok(done) => converted(records_view(vectors@), 0) == Ok::<Seq<VectorView>, ErrorView>(
                vectors_view(done@),
            ),
            Err(e) => converted(records_view(vectors@), 0) == Err::<Seq<VectorView>, ErrorView>(
                e@,
            ),
        },
        r matches Ok(done) ==> forall|i: int|
            0 <= i < done.len() ==> (#[trigger] done[i]).id@.len() > 0,
{
    let ghost all = vectors@;
    let ghost records = records_view(all);
    let mut vectors_to_upsert: Vec<Vector> = Vec::new();
    for record in rest: vectors
        invariant
            rest.seq() == all,
            records == records_view(all),
            vectors_to_upsert.len() == rest.index(),
            forall|j: int|
                0 <= j < vectors_to_upsert.len() ==> (#[trigger] vectors_to_upsert[j]).id@.len()
                    > 0,
            converted(records, 0) == joined(
                vectors_view(vectors_to_upsert@),
                converted(records, rest.index() as int),
            ),
    {
        let ghost done = vectors_view(vectors_to_upsert@);
        let i = vectors_to_upsert.len();
        assert(record == all[i as int]);
        assert(records[i as int] == record@);
        match normalize(record, i) {
            Err(e) => {
                return Err(e);
            },
            Ok(new_vec) => {
                vectors_to_upsert.push(new_vec);
                proof {
                    let after = converted(records, i + 1);
                    let now = vectors_view(vectors_to_upsert@);
                    assert(now =~= done.push(new_vec@));
                    if after is Ok {
                        assert(done + (seq![new_vec@] + after->Ok_0) =~= now + after->Ok_0);
                    }
                }
            },
        }
    }
    assert(vectors_view(vectors_to_upsert@) + Seq::<VectorView>::empty() =~= vectors_view(
        vectors_to_upsert@,
    ));
    Ok(vectors_to_upsert)
}

} // verus!
