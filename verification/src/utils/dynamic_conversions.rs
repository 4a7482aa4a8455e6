//! Records out of keyed mappings of the host: which keys a mapping may have,
//! which it must have, what shape each value must be of, and the error for
//! the first rule that a mapping breaks.

use crate::data_types::{SparseValues, SparseValuesView, Vector, VectorView};
use crate::dynamic::{fields_tree, items_tree, DynamicField, DynamicTree, DynamicValue, FieldTree};
use crate::keyed::inserted;
use crate::metadata::{Float32, MetadataTree};
use crate::text::same_text;
use crate::utils::conversions::{decode_struct, map_outcome, prost_struct_to_hashmap};
use crate::utils::errors::{message_of, ErrorView, PineconeClientError};
use crate::wire::{WireStruct, WireTree, WireValue};
use vstd::prelude::*;
use vstd::string::*;

verus! {

/// The keys that a vector mapping may have.
pub open spec fn is_vector_key(key: Seq<char>) -> bool {
    key == "id"@ || key == "values"@ || key == "sparse_values"@ || key == "metadata"@
}

/// The keys that a sparse values mapping may have.
pub open spec fn is_sparse_key(key: Seq<char>) -> bool {
    key == "indices"@ || key == "values"@
}

/// Whether a mapping of the kind in question may have this key.
pub open spec fn recognized(sparse: bool, key: Seq<char>) -> bool {
    if sparse {
        is_sparse_key(key)
    } else {
        is_vector_key(key)
    }
}

/// The keys among the first `upto` fields that the mapping may not have, in
/// the order of the fields.
pub open spec fn excess_keys(fields: Seq<FieldTree>, sparse: bool, upto: int) -> Seq<Seq<char>>
    decreases upto,
{
    if upto <= 0 {
        Seq::empty()
    } else {
        let before = excess_keys(fields, sparse, upto - 1);
        if recognized(sparse, fields[upto - 1].key) {
            before
        } else {
            before.push(fields[upto - 1].key)
        }
    }
}

/// The last of the first `upto` fields that has this key.
pub open spec fn find_field(fields: Seq<FieldTree>, key: Seq<char>, upto: int) -> Option<FieldTree>
    decreases upto,
{
    if upto <= 0 || upto > fields.len() {
        None
    } else if fields[upto - 1].key == key {
        Some(fields[upto - 1])
    } else {
        find_field(fields, key, upto - 1)
    }
}

/// The field that a mapping has under this key: of two fields with one key
/// the later one, as in [`wire_fields`].
pub open spec fn field_of(fields: Seq<FieldTree>, key: Seq<char>) -> Option<FieldTree> {
    find_field(fields, key, fields.len() as int)
}

/// What is wrong with a mapping whose keys cannot be read.
pub open spec fn unreadable_keys() -> ErrorView {
    ErrorView::ValueError("Couldn't retrieve dictionary keys"@)
}

/// A text, if the value is one.
pub open spec fn as_text(v: DynamicTree) -> Option<Seq<char>> {
    match v {
        DynamicTree::Text(text) => Some(text),
        _ => None,
    }
}

/// A list of 32-bit floats, if the value is a list of numbers.
pub open spec fn as_singles(v: DynamicTree) -> Option<Seq<Float32>> {
    match v {
        DynamicTree::List(items) => if forall|i: int|
            0 <= i < items.len() ==> (#[trigger] items[i]) is Number {
            Some(Seq::new(items.len(), |i: int| items[i]->Number_0.single))
        } else {
            None
        },
        _ => None,
    }
}

/// A list of indices, if the value is a list of numbers that are indices.
pub open spec fn as_indices(v: DynamicTree) -> Option<Seq<u32>> {
    match v {
        DynamicTree::List(items) => if forall|i: int|
            0 <= i < items.len() ==> (#[trigger] items[i]) is Number && items[i]->Number_0.index
                is Some {
            Some(Seq::new(items.len(), |i: int| items[i]->Number_0.index->0))
        } else {
            None
        },
        _ => None,
    }
}

/// The fields of a mapping, if the value is one.
pub open spec fn as_mapping(v: DynamicTree) -> Option<Seq<FieldTree>> {
    match v {
        DynamicTree::Mapping(fields) => Some(fields),
        _ => None,
    }
}

/// The wire value for a value of the host: null for null, a value without
/// kind for what the wire cannot carry, and else the kind that matches.
pub open spec fn wire_of(v: DynamicTree) -> WireTree
    decreases v, 0nat,
{
    match v {
        DynamicTree::Null => WireTree::Null,
        DynamicTree::Bool(flag) => WireTree::Flag(flag),
        DynamicTree::Number(number) => WireTree::Number(number.double.bits),
        DynamicTree::Text(text) => WireTree::Text(text),
        DynamicTree::List(items) => WireTree::List(
            Seq::new(
                items.len(),
                |i: int|
                    if 0 <= i < items.len() {
                        wire_of(items[i])
                    } else {
                        arbitrary()
                    },
            ),
        ),
        DynamicTree::Mapping(fields) => WireTree::Struct(wire_fields(fields, fields.len() as int)),
        DynamicTree::UnreadableMapping => WireTree::Empty,
        DynamicTree::Other => WireTree::Empty,
    }
}

/// The wire fields for the first `upto` fields of a mapping. Of two fields
/// with one key the later one stays.
pub open spec fn wire_fields(fields: Seq<FieldTree>, upto: int) -> Seq<(Seq<char>, WireTree)>
    decreases fields, upto,
{
    if upto <= 0 || upto > fields.len() {
        Seq::empty()
    } else {
        inserted(
            wire_fields(fields, upto - 1),
            fields[upto - 1].key,
            wire_of(fields[upto - 1].value),
        )
    }
}

/// The error of a sparse values mapping as the error of the vector mapping
/// that holds it: every key that it names stands behind `sparse_values: `.
pub open spec fn under_sparse(e: ErrorView) -> ErrorView {
    match e {
        ErrorView::UpsertKeyError { key, vec_num } => ErrorView::UpsertKeyError {
            key: "sparse_values: "@ + key,
            vec_num,
        },
        ErrorView::UpsertValueError { key, vec_num, expected_type, actual } => {
            ErrorView::UpsertValueError {
                key: "sparse_values: "@ + key,
                vec_num,
                expected_type,
                actual,
            }
        },
        ErrorView::UpsertExcessKeysError { keys, vec_num } => ErrorView::UpsertExcessKeysError {
            keys: Seq::new(keys.len(), |i: int| "sparse_values: "@ + keys[i]),
            vec_num,
        },
        _ => ErrorView::ValueError("Error in 'sparse_values: "@ + message_of(e)),
    }
}

/// The sparse values that a mapping describes, or the error for the first
/// rule that it breaks: no key but `indices` and `values`; `indices`, a list
/// of indices; `values`, a list of numbers.
pub open spec fn sparse_from_mapping(fields: Seq<FieldTree>) -> Result<
    SparseValuesView,
    ErrorView,
> {
    let excess = excess_keys(fields, true, fields.len() as int);
    if excess.len() > 0 {
        Err(ErrorView::UpsertExcessKeysError { keys: excess, vec_num: 0 })
    } else {
        match field_of(fields, "indices"@) {
            None => Err(ErrorView::UpsertKeyError { key: "indices"@, vec_num: 0 }),
            Some(found) => match as_indices(found.value) {
                None => Err(
                    ErrorView::UpsertValueError {
                        key: "indices"@,
                        vec_num: 0,
                        expected_type: "List[int]"@,
                        actual: found.rendering,
                    },
                ),
                Some(indices) => match field_of(fields, "values"@) {
                    None => Err(ErrorView::UpsertKeyError { key: "values"@, vec_num: 0 }),
                    Some(found) => match as_singles(found.value) {
                        None => Err(
                            ErrorView::UpsertValueError {
                                key: "values"@,
                                vec_num: 0,
                                expected_type: "List[float]"@,
                                actual: found.rendering,
                            },
                        ),
                        Some(values) => Ok(SparseValuesView { indices, values }),
                    },
                },
            },
        }
    }
}

/// The sparse part that a vector mapping describes: none without the key
/// `sparse_values`, and else what the mapping under that key describes. A
/// mapping whose keys cannot be read is refused for that.
pub open spec fn sparse_part(fields: Seq<FieldTree>) -> Result<
    Option<SparseValuesView>,
    ErrorView,
> {
    match field_of(fields, "sparse_values"@) {
        None => Ok(None),
        Some(found) => match found.value {
            DynamicTree::Mapping(inner) => match sparse_from_mapping(inner) {
                Ok(sparse) => Ok(Some(sparse)),
                Err(e) => Err(under_sparse(e)),
            },
            DynamicTree::UnreadableMapping => Err(under_sparse(unreadable_keys())),
            _ => Err(
                ErrorView::UpsertValueError {
                    key: "sparse_values"@,
                    vec_num: 0,
                    expected_type: "dict"@,
                    actual: found.rendering,
                },
            ),
        },
    }
}

/// The metadata that a vector mapping describes: none without the key
/// `metadata`, and else what the mapping under that key decodes to. A value
/// that does not decode gives a value error with the message of the codec.
pub open spec fn metadata_part(fields: Seq<FieldTree>) -> Result<
    Option<Seq<(Seq<char>, MetadataTree)>>,
    ErrorView,
> {
    match field_of(fields, "metadata"@) {
        None => Ok(None),
        Some(found) => match as_mapping(found.value) {
            None => Err(
                ErrorView::UpsertValueError {
                    key: "metadata"@,
                    vec_num: 0,
                    expected_type: "dict"@,
                    actual: found.rendering,
                },
            ),
            Some(inner) => match decode_struct(wire_fields(inner, inner.len() as int)) {
                Ok(entries) => Ok(Some(entries)),
                Err(e) => Err(ErrorView::ValueError(message_of(e))),
            },
        },
    }
}

/// The vector that a mapping describes, or the error for the first rule that
/// it breaks: no key but `id`, `values`, `sparse_values` and `metadata`;
/// `id`, a text that is not empty; `values`, a list of numbers; then the
/// sparse part; then the metadata. Every error is about record 0.
pub open spec fn vector_from_mapping(fields: Seq<FieldTree>) -> Result<VectorView, ErrorView> {
    let excess = excess_keys(fields, false, fields.len() as int);
    if excess.len() > 0 {
        Err(ErrorView::UpsertExcessKeysError { keys: excess, vec_num: 0 })
    } else {
        match field_of(fields, "id"@) {
            None => Err(ErrorView::UpsertKeyError { key: "id"@, vec_num: 0 }),
            Some(found) => match as_text(found.value) {
                None => Err(
                    ErrorView::UpsertValueError {
                        key: "id"@,
                        vec_num: 0,
                        expected_type: "String"@,
                        actual: found.rendering,
                    },
                ),
                Some(id) => if id.len() == 0 {
                    Err(
                        ErrorView::UpsertValueError {
                            key: "id"@,
                            vec_num: 0,
                            expected_type: "non-empty String"@,
                            actual: found.rendering,
                        },
                    )
                } else {
                    match field_of(fields, "values"@) {
                    None => Err(ErrorView::UpsertKeyError { key: "values"@, vec_num: 0 }),
                    Some(found) => match as_singles(found.value) {
                        None => Err(
                            ErrorView::UpsertValueError {
                                key: "values"@,
                                vec_num: 0,
                                expected_type: "List[float]"@,
                                actual: found.rendering,
                            },
                        ),
                        Some(values) => match sparse_part(fields) {
                            Err(e) => Err(e),
                            Ok(sparse_values) => match metadata_part(fields) {
                                Err(e) => Err(e),
                                Ok(metadata) => Ok(
                                    VectorView { id, values, sparse_values, metadata },
                                ),
                            },
                        },
                    },
                    }
                },
            },
        }
    }
}

/// The outcome of reading sparse values, as views.
pub open spec fn sparse_outcome(r: Result<SparseValues, PineconeClientError>) -> Result<
    SparseValuesView,
    ErrorView,
> {
    match r {
        Ok(sparse) => Ok(sparse@),
        Err(e) => Err(e@),
    }
}

/// The outcome of reading a vector, as views.
pub open spec fn vector_outcome(r: Result<Vector, PineconeClientError>) -> Result<
    VectorView,
    ErrorView,
> {
    match r {
        Ok(vector) => Ok(vector@),
        Err(e) => Err(e@),
    }
}

/// A mapping that lacks `id` and has no key that it may not have is refused
/// for the missing key `id`.
pub proof fn lemma_missing_id(fields: Seq<FieldTree>)
    requires
        forall|i: int| 0 <= i < fields.len() ==> is_vector_key(#[trigger] fields[i].key),
        field_of(fields, "id"@) is None,
    ensures
        vector_from_mapping(fields) == Err::<VectorView, ErrorView>(
            ErrorView::UpsertKeyError { key: "id"@, vec_num: 0 },
        ),
{
    lemma_no_excess(fields, false, fields.len() as int);
}

/// The vector that a mapping describes has an id that is not empty.
pub proof fn lemma_mapping_id_not_empty(fields: Seq<FieldTree>)
    ensures
        vector_from_mapping(fields) matches Ok(vector) ==> vector.id.len() > 0,
{
}

/// Fields whose keys are all recognized have no excess keys.
pub proof fn lemma_no_excess(fields: Seq<FieldTree>, sparse: bool, upto: int)
    requires
        upto <= fields.len(),
        forall|i: int| 0 <= i < upto ==> recognized(sparse, #[trigger] fields[i].key),
    ensures
        excess_keys(fields, sparse, upto).len() == 0,
    decreases upto,
{
    if upto > 0 {
        lemma_no_excess(fields, sparse, upto - 1);
    }
}

/// Fields of which one has an unrecognized key have excess keys.
pub proof fn lemma_some_excess(fields: Seq<FieldTree>, sparse: bool, upto: int, at: int)
    requires
        0 <= at < upto <= fields.len(),
        !recognized(sparse, fields[at].key),
    ensures
        excess_keys(fields, sparse, upto).len() > 0,
    decreases upto,
{
    if at < upto - 1 {
        lemma_some_excess(fields, sparse, upto - 1, at);
    }
}

/// A mapping with a key that it may not have is refused for its excess keys,
/// whatever else is wrong with it.
pub proof fn lemma_excess_keys_first(fields: Seq<FieldTree>, at: int)
    requires
        0 <= at < fields.len(),
        !is_vector_key(fields[at].key),
    ensures
        vector_from_mapping(fields) == Err::<VectorView, ErrorView>(
            ErrorView::UpsertExcessKeysError {
                keys: excess_keys(fields, false, fields.len() as int),
                vec_num: 0,
            },
        ),
{
    lemma_some_excess(fields, false, fields.len() as int, at);
}

fn vector_key(key: &str) -> (r: bool)
    ensures
        r == is_vector_key(key@),
{
    same_text(key, "id") || same_text(key, "values") || same_text(key, "sparse_values")
        || same_text(key, "metadata")
}

fn sparse_key(key: &str) -> (r: bool)
    ensures
        r == is_sparse_key(key@),
{
    same_text(key, "indices") || same_text(key, "values")
}

/// The keys of `dict` that a mapping of its kind may not have.
fn unexpected_keys(dict: &Vec<DynamicField>, sparse: bool) -> (r: Vec<String>)
    ensures
        r.deep_view() == excess_keys(fields_tree(dict@), sparse, dict.len() as int),
{
    let ghost fields = fields_tree(dict@);
    let mut excess: Vec<String> = Vec::new();
    let mut i: usize = 0;
    while i < dict.len()
        invariant
            i <= dict.len(),
            fields == fields_tree(dict@),
            excess.deep_view() == excess_keys(fields, sparse, i as int),
        decreases dict.len() - i,
    {
        let ghost before = excess.deep_view();
        let key = &dict[i].key;
        assert(fields[i as int].key == key@);
        let known = if sparse {
            sparse_key(key.as_str())
        } else {
            vector_key(key.as_str())
        };
        if !known {
            excess.push(key.clone());
            assert(excess.deep_view() =~= before.push(key@));
        }
        i = i + 1;
    }
    excess
}

/// The field that `dict` has under this key: the last one with it.
fn get_item<'a>(dict: &'a Vec<DynamicField>, key: &str) -> (r: Option<&'a DynamicField>)
    ensures
        match r {
            Some(found) => field_of(fields_tree(dict@), key@) == Some(found@),
            None => field_of(fields_tree(dict@), key@) is None,
        },
{
    let ghost fields = fields_tree(dict@);
    let mut i: usize = dict.len();
    while i > 0
        invariant
            i <= dict.len(),
            fields == fields_tree(dict@),
            field_of(fields, key@) == find_field(fields, key@, i as int),
        decreases i,
    {
        i = i - 1;
        assert(fields[i as int] == dict[i as int]@);
        if same_text(dict[i].key.as_str(), key) {
            return Some(&dict[i]);
        }
    }
    None
}

/// Reads a value as a list of 32-bit floats.
fn extract_singles(value: &DynamicValue) -> (r: Option<Vec<Float32>>)
    ensures
        match r {
            Some(singles) => as_singles(value@) == Some(singles@),
            None => as_singles(value@) is None,
        },
{
    match value {
        DynamicValue::List(items) => {
            let ghost trees = items_tree(items@);
            let mut singles: Vec<Float32> = Vec::new();
            let mut i: usize = 0;
            while i < items.len()
                invariant
                    i <= items.len(),
                    trees == items_tree(items@),
                    value@ == DynamicTree::List(trees),
                    singles.len() == i,
                    forall|j: int| 0 <= j < i ==> (#[trigger] trees[j]) is Number,
                    forall|j: int| 0 <= j < i ==> (#[trigger] singles[j]) == trees[j]->Number_0.single,
                decreases items.len() - i,
            {
                assert(trees[i as int] == items[i as int]@);
                match &items[i] {
                    DynamicValue::Number(number) => {
                        singles.push(number.single);
                    },
                    _ => {
                        assert(!(trees[i as int] is Number));
                        return None;
                    },
                }
                i = i + 1;
            }
            assert(singles@ =~= Seq::new(trees.len(), |i: int| trees[i]->Number_0.single));
            Some(singles)
        },
        _ => None,
    }
}

/// Reads a value as a list of indices.
fn extract_indices(value: &DynamicValue) -> (r: Option<Vec<u32>>)
    ensures
        match r {
            Some(indices) => as_indices(value@) == Some(indices@),
            None => as_indices(value@) is None,
        },
{
    match value {
        DynamicValue::List(items) => {
            let ghost trees = items_tree(items@);
            let mut indices: Vec<u32> = Vec::new();
            let mut i: usize = 0;
            while i < items.len()
                invariant
                    i <= items.len(),
                    trees == items_tree(items@),
                    value@ == DynamicTree::List(trees),
                    indices.len() == i,
                    forall|j: int|
                        0 <= j < i ==> (#[trigger] trees[j]) is Number && trees[j]->Number_0.index
                            is Some,
                    forall|j: int|
                        0 <= j < i ==> (#[trigger] indices[j]) == trees[j]->Number_0.index->0,
                decreases items.len() - i,
            {
                assert(trees[i as int] == items[i as int]@);
                match &items[i] {
                    DynamicValue::Number(number) => {
                        match number.index {
                            Some(index) => {
                                indices.push(index);
                            },
                            None => {
                                assert(trees[i as int]->Number_0.index is None);
                                return None;
                            },
                        }
                    },
                    _ => {
                        assert(!(trees[i as int] is Number));
                        return None;
                    },
                }
                i = i + 1;
            }
            assert(indices@ =~= Seq::new(trees.len(), |i: int| trees[i]->Number_0.index->0));
            Some(indices)
        },
        _ => None,
    }
}

impl DynamicValue {
    /// The wire value for this value.
    pub fn to_wire(&self) -> (w: WireValue)
        ensures
            w@ == wire_of(self@),
        decreases self@, 1nat,
    {
        match self {
            DynamicValue::Null => WireValue::NullValue,
            DynamicValue::Bool(flag) => WireValue::BoolValue(*flag),
            DynamicValue::Number(number) => WireValue::NumberValue(number.double),
            DynamicValue::Text(text) => WireValue::StringValue(text.clone()),
            DynamicValue::List(items) => {
                let ghost trees = self@->List_0;
                let mut encoded: Vec<WireValue> = Vec::new();
                let mut i: usize = 0;
                while i < items.len()
                    invariant
                        i <= items.len(),
                        self@ is List,
                        trees == self@->List_0,
                        trees == items_tree(items@),
                        encoded.len() == i,
                        forall|j: int| 0 <= j < i ==> (#[trigger] encoded[j])@ == wire_of(trees[j]),
                    decreases items.len() - i,
                {
                    proof {
                        assert(trees[i as int] == items[i as int]@);
                        assert(decreases_to!(self@ => self@->List_0));
                        assert(decreases_to!(trees => trees[i as int]));
                    }
                    encoded.push(items[i].to_wire());
                    i = i + 1;
                }
                let w = WireValue::ListValue(encoded);
                assert(w@->List_0 =~= wire_of(self@)->List_0);
                w
            },
            DynamicValue::Mapping(fields) => WireValue::StructValue(fields_to_wire(fields)),
            DynamicValue::UnreadableMapping => WireValue::Empty,
            DynamicValue::Other => WireValue::Empty,
        }
    }
}

/// The wire structure for the fields of a mapping.
pub fn fields_to_wire(dict: &Vec<DynamicField>) -> (r: WireStruct)
    ensures
        r@ == wire_fields(fields_tree(dict@), dict.len() as int),
    decreases DynamicTree::Mapping(fields_tree(dict@)), 0nat,
{
    let ghost fields = fields_tree(dict@);
    let mut out = WireStruct::new();
    let mut i: usize = 0;
    while i < dict.len()
        invariant
            i <= dict.len(),
            fields == fields_tree(dict@),
            out@ == wire_fields(fields, i as int),
        decreases dict.len() - i,
    {
        proof {
            assert(fields[i as int] == dict[i as int]@);
            assert(decreases_to!(DynamicTree::Mapping(fields) => DynamicTree::Mapping(
                fields,
            )->Mapping_0));
            assert(decreases_to!(fields => fields[i as int]));
            assert(decreases_to!(fields[i as int] => fields[i as int].value));
        }
        let encoded = dict[i].value.to_wire();
        out.insert(dict[i].key.clone(), encoded);
        i = i + 1;
    }
    out
}

/// Puts `sparse_values: ` before a key.
fn sparse_label(key: &str) -> (r: String)
    ensures
        r@ == "sparse_values: "@ + key@,
{
    String::from_str("sparse_values: ").concat(key)
}

/// Marks an error of a sparse values mapping as one of the vector mapping
/// that holds it.
pub fn error_under_sparse(e: PineconeClientError) -> (r: PineconeClientError)
    ensures
        r@ == under_sparse(e@),
{
    match e {
        PineconeClientError::UpsertKeyError { key, vec_num } => PineconeClientError::UpsertKeyError {
            key: sparse_label(key.as_str()),
            vec_num,
        },
        PineconeClientError::UpsertValueError { key, vec_num, expected_type, actual } => {
            PineconeClientError::UpsertValueError {
                key: sparse_label(key.as_str()),
                vec_num,
                expected_type,
                actual,
            }
        },
        PineconeClientError::UpsertExcessKeysError { keys, vec_num } => {
            let ghost before = keys.deep_view();
            let mut labelled: Vec<String> = Vec::new();
            let mut i: usize = 0;
            while i < keys.len()
                invariant
                    i <= keys.len(),
                    before == keys.deep_view(),
                    labelled.len() == i,
                    forall|j: int|
                        0 <= j < i ==> (#[trigger] labelled[j])@ == "sparse_values: "@ + before[j],
                decreases keys.len() - i,
            {
                assert(before[i as int] == keys[i as int]@);
                labelled.push(sparse_label(keys[i].as_str()));
                i = i + 1;
            }
            assert(labelled.deep_view() =~= Seq::new(
                before.len(),
                |i: int| "sparse_values: "@ + before[i],
            ));
            PineconeClientError::UpsertExcessKeysError { keys: labelled, vec_num }
        },
        other => {
            let text = other.message();
            PineconeClientError::ValueError(
                String::from_str("Error in 'sparse_values: ").concat(text.as_str()),
            )
        },
    }
}

impl SparseValues {
    /// Reads sparse values out of a mapping of the host.
    pub fn try_from(dict: &Vec<DynamicField>) -> (r: Result<SparseValues, PineconeClientError>)
        ensures
            sparse_outcome(r) == sparse_from_mapping(fields_tree(dict@)),
    {
        let excess = unexpected_keys(dict, true);
        if excess.len() > 0 {
            return Err(PineconeClientError::UpsertExcessKeysError { keys: excess, vec_num: 0 });
        }
        let indices = match get_item(dict, "indices") {
            None => {
                return Err(
                    PineconeClientError::UpsertKeyError {
                        key: String::from_str("indices"),
                        vec_num: 0,
                    },
                );
            },
            Some(found) => match extract_indices(&found.value) {
                None => {
                    return Err(
                        PineconeClientError::UpsertValueError {
                            key: String::from_str("indices"),
                            vec_num: 0,
                            expected_type: String::from_str("List[int]"),
                            actual: found.rendering.clone(),
                        },
                    );
                },
                Some(indices) => indices,
            },
        };
        let values = match get_item(dict, "values") {
            None => {
                return Err(
                    PineconeClientError::UpsertKeyError {
                        key: String::from_str("values"),
                        vec_num: 0,
                    },
                );
            },
            Some(found) => match extract_singles(&found.value) {
                None => {
                    return Err(
                        PineconeClientError::UpsertValueError {
                            key: String::from_str("values"),
                            vec_num: 0,
                            expected_type: String::from_str("List[float]"),
                            actual: found.rendering.clone(),
                        },
                    );
                },
                Some(values) => values,
            },
        };
        Ok(SparseValues { indices, values })
    }
}

/// The sparse part of a vector mapping.
fn read_sparse_part(dict: &Vec<DynamicField>) -> (r: Result<
    Option<SparseValues>,
    PineconeClientError,
>)
    ensures
        match r {
            Ok(sparse) => sparse_part(fields_tree(dict@)) == Ok::<
                Option<SparseValuesView>,
                ErrorView,
            >(crate::data_types::sparse_view(sparse)),
            Err(e) => sparse_part(fields_tree(dict@)) == Err::<
                Option<SparseValuesView>,
                ErrorView,
            >(e@),
        },
{
    match get_item(dict, "sparse_values") {
        None => Ok(None),
        Some(found) => match &found.value {
            DynamicValue::Mapping(inner) => match SparseValues::try_from(inner) {
                Ok(sparse) => Ok(Some(sparse)),
                Err(e) => Err(error_under_sparse(e)),
            },
            DynamicValue::UnreadableMapping => Err(
                error_under_sparse(
                    PineconeClientError::ValueError(
                        String::from_str("Couldn't retrieve dictionary keys"),
                    ),
                ),
            ),
            _ => Err(
                PineconeClientError::UpsertValueError {
                    key: String::from_str("sparse_values"),
                    vec_num: 0,
                    expected_type: String::from_str("dict"),
                    actual: found.rendering.clone(),
                },
            ),
        },
    }
}

/// The metadata of a vector mapping.
fn read_metadata_part(dict: &Vec<DynamicField>) -> (r: Result<
    Option<crate::metadata::MetadataMap>,
    PineconeClientError,
>)
    ensures
        match r {
            Ok(metadata) => metadata_part(fields_tree(dict@)) == Ok::<
                Option<Seq<(Seq<char>, MetadataTree)>>,
                ErrorView,
            >(crate::data_types::metadata_view(metadata)),
            Err(e) => metadata_part(fields_tree(dict@)) == Err::<
                Option<Seq<(Seq<char>, MetadataTree)>>,
                ErrorView,
            >(e@),
        },
{
    match get_item(dict, "metadata") {
        None => Ok(None),
        Some(found) => match &found.value {
            DynamicValue::Mapping(inner) => {
                let wire = fields_to_wire(inner);
                let decoded = prost_struct_to_hashmap(&wire);
                assert(map_outcome(decoded) == decode_struct(wire@));
                match decoded {
                    Ok(metadata) => Ok(Some(metadata)),
                    Err(e) => Err(PineconeClientError::ValueError(e.message())),
                }
            },
            _ => Err(
                PineconeClientError::UpsertValueError {
                    key: String::from_str("metadata"),
                    vec_num: 0,
                    expected_type: String::from_str("dict"),
                    actual: found.rendering.clone(),
                },
            ),
        },
    }
}

impl Vector {
    /// Reads a vector out of a mapping of the host.
    pub fn try_from(dict: &Vec<DynamicField>) -> (r: Result<Vector, PineconeClientError>)
        ensures
            vector_outcome(r) == vector_from_mapping(fields_tree(dict@)),
            r matches Ok(vector) ==> vector.id@.len() > 0,
    {
        let excess = unexpected_keys(dict, false);
        if excess.len() > 0 {
            return Err(PineconeClientError::UpsertExcessKeysError { keys: excess, vec_num: 0 });
        }
        let id = match get_item(dict, "id") {
            None => {
                return Err(
                    PineconeClientError::UpsertKeyError { key: String::from_str("id"), vec_num: 0 },
                );
            },
            Some(found) => match &found.value {
                DynamicValue::Text(text) => {
                    if text.as_str().is_empty() {
                        return Err(
                            PineconeClientError::UpsertValueError {
                                key: String::from_str("id"),
                                vec_num: 0,
                                expected_type: String::from_str("non-empty String"),
                                actual: found.rendering.clone(),
                            },
                        );
                    }
                    text.clone()
                },
                _ => {
                    return Err(
                        PineconeClientError::UpsertValueError {
                            key: String::from_str("id"),
                            vec_num: 0,
                            expected_type: String::from_str("String"),
                            actual: found.rendering.clone(),
                        },
                    );
                },
            },
        };
        let values = match get_item(dict, "values") {
            None => {
                return Err(
                    PineconeClientError::UpsertKeyError {
                        key: String::from_str("values"),
                        vec_num: 0,
                    },
                );
            },
            Some(found) => match extract_singles(&found.value) {
                None => {
                    return Err(
                        PineconeClientError::UpsertValueError {
                            key: String::from_str("values"),
                            vec_num: 0,
                            expected_type: String::from_str("List[float]"),
                            actual: found.rendering.clone(),
                        },
                    );
                },
                Some(values) => values,
            },
        };
        let sparse_values = match read_sparse_part(dict) {
            Err(e) => {
                return Err(e);
            },
            Ok(sparse_values) => sparse_values,
        };
        let metadata = match read_metadata_part(dict) {
            Err(e) => {
                return Err(e);
            },
            Ok(metadata) => metadata,
        };
        Ok(Vector { id, values, sparse_values, metadata })
    }
}

} // verus!
