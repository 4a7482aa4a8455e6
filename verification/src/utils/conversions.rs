//! The metadata codec: metadata values to wire values and back.
//!
//! Encoding is total. Decoding fails on a wire value that is null or has no
//! kind, wherever it stands in the tree. The error then says what was found
//! and, level by level from the inside out, in what it was found; and it
//! names the keys under which it was found, the outermost first.

use crate::keyed::{keys_of, lemma_inserted_appends};
use crate::metadata::{MetadataMap, MetadataTree, MetadataValue};
use crate::utils::errors::{ErrorView, PineconeClientError};
use crate::wire::{WireStruct, WireTree, WireValue};
use vstd::prelude::*;
use vstd::string::*;

verus! {

/// The error for a value that failed inside a list: its label says so, and
/// the keys that it names stay.
pub open spec fn in_list(e: ErrorView) -> ErrorView {
    match e {
        ErrorView::MetadataValueError { val_type } => ErrorView::MetadataValueError {
            val_type: val_type + " value in a list"@,
        },
        ErrorView::MetadataError { key, val_type } => ErrorView::MetadataError {
            key,
            val_type: val_type + " value in a list"@,
        },
        _ => e,
    }
}

/// The error for a value that failed inside a dictionary, under `key`: its
/// label says so, and it names `key`, before the keys that it names already.
pub open spec fn in_dict(key: Seq<char>, e: ErrorView) -> ErrorView {
    match e {
        ErrorView::MetadataValueError { val_type } => ErrorView::MetadataError {
            key,
            val_type: val_type + " value in a dict"@,
        },
        ErrorView::MetadataError { key: inner, val_type } => ErrorView::MetadataError {
            key: key + ": "@ + inner,
            val_type: val_type + " value in a dict"@,
        },
        _ => e,
    }
}

/// The error for a value that failed as the value of the top-level key
/// `key`: it names `key`, before the keys that it names already.
pub open spec fn under_key(key: Seq<char>, e: ErrorView) -> ErrorView {
    match e {
        ErrorView::MetadataValueError { val_type } => ErrorView::MetadataError { key, val_type },
        ErrorView::MetadataError { key: inner, val_type } => ErrorView::MetadataError {
            key: key + ": "@ + inner,
            val_type,
        },
        _ => e,
    }
}

/// The keys that an error of the codec names, if it names any.
pub open spec fn key_path(e: ErrorView) -> Option<Seq<char>> {
    match e {
        ErrorView::MetadataError { key, .. } => Some(key),
        _ => None,
    }
}

/// The wire value for a metadata value: variant by variant, lists in their
/// order, dictionaries with their keys.
pub open spec fn encode(v: MetadataTree) -> WireTree
    decreases v,
{
    match v {
        MetadataTree::Text(text) => WireTree::Text(text),
        MetadataTree::Flag(flag) => WireTree::Flag(flag),
        MetadataTree::Number(bits) => WireTree::Number(bits),
        MetadataTree::List(items) => WireTree::List(
            Seq::new(
                items.len(),
                |i: int|
                    if 0 <= i < items.len() {
                        encode(items[i])
                    } else {
                        arbitrary()
                    },
            ),
        ),
        MetadataTree::Dict(entries) => WireTree::Struct(encode_entries(entries)),
    }
}

/// The wire fields for the entries of a metadata map.
pub open spec fn encode_entries(entries: Seq<(Seq<char>, MetadataTree)>) -> Seq<
    (Seq<char>, WireTree),
>
    decreases entries,
{
    Seq::new(
        entries.len(),
        |i: int|
            if 0 <= i < entries.len() {
                (entries[i].0, encode(entries[i].1))
            } else {
                arbitrary()
            },
    )
}

/// The metadata value for a wire value, or the error of the first value in
/// it, in the order of the tree, that has none.
pub open spec fn decode(w: WireTree) -> Result<MetadataTree, ErrorView>
    decreases w, 0nat,
{
    match w {
        WireTree::Empty => Err(ErrorView::MetadataValueError { val_type: "empty"@ }),
        WireTree::Null => Err(ErrorView::MetadataValueError { val_type: "None"@ }),
        WireTree::Number(bits) => Ok(MetadataTree::Number(bits)),
        WireTree::Text(text) => Ok(MetadataTree::Text(text)),
        WireTree::Flag(flag) => Ok(MetadataTree::Flag(flag)),
        WireTree::List(items) => match decode_items(items, 0) {
            Ok(values) => Ok(MetadataTree::List(values)),
            Err(e) => Err(in_list(e)),
        },
        WireTree::Struct(fields) => match decode_fields(fields, 0) {
            Ok(entries) => Ok(MetadataTree::Dict(entries)),
            Err((key, e)) => Err(in_dict(key, e)),
        },
    }
}

/// The metadata values for the wire values from place `from` on, or the
/// error of the first that has none.
pub open spec fn decode_items(items: Seq<WireTree>, from: int) -> Result<
    Seq<MetadataTree>,
    ErrorView,
>
    decreases items, items.len() - from,
{
    if from < 0 || from >= items.len() {
        Ok(Seq::empty())
    } else {
        match decode(items[from]) {
            Err(e) => Err(e),
            Ok(value) => match decode_items(items, from + 1) {
                Err(e) => Err(e),
                Ok(rest) => Ok(seq![value] + rest),
            },
        }
    }
}

/// The metadata entries for the wire fields from place `from` on, or the
/// name and the error of the first field whose value has none.
pub open spec fn decode_fields(fields: Seq<(Seq<char>, WireTree)>, from: int) -> Result<
    Seq<(Seq<char>, MetadataTree)>,
    (Seq<char>, ErrorView),
>
    decreases fields, fields.len() - from,
{
    if from < 0 || from >= fields.len() {
        Ok(Seq::empty())
    } else {
        match decode(fields[from].1) {
            Err(e) => Err((fields[from].0, e)),
            Ok(value) => match decode_fields(fields, from + 1) {
                Err(failure) => Err(failure),
                Ok(rest) => Ok(seq![(fields[from].0, value)] + rest),
            },
        }
    }
}

/// The metadata map for the fields of a wire structure, or the error of the
/// first field whose value has none, naming that field.
pub open spec fn decode_struct(fields: Seq<(Seq<char>, WireTree)>) -> Result<
    Seq<(Seq<char>, MetadataTree)>,
    ErrorView,
> {
    match decode_fields(fields, 0) {
        Ok(entries) => Ok(entries),
        Err((key, e)) => Err(under_key(key, e)),
    }
}

/// The outcome of decoding one value, with value and error as trees.
pub open spec fn value_outcome(r: Result<MetadataValue, PineconeClientError>) -> Result<
    MetadataTree,
    ErrorView,
> {
    match r {
        Ok(value) => Ok(value@),
        Err(e) => Err(e@),
    }
}

/// The outcome of decoding a map, with map and error as trees.
pub open spec fn map_outcome(r: Result<MetadataMap, PineconeClientError>) -> Result<
    Seq<(Seq<char>, MetadataTree)>,
    ErrorView,
> {
    match r {
        Ok(map) => Ok(map@),
        Err(e) => Err(e@),
    }
}

/// Decoding what was encoded gives the value back.
pub proof fn lemma_decode_encode(v: MetadataTree)
    ensures
        decode(encode(v)) == Ok::<MetadataTree, ErrorView>(v),
    decreases v, 0nat,
{
    match v {
        MetadataTree::List(items) => {
            lemma_decode_encoded_items(items, 0);
            assert(items.subrange(0, items.len() as int) =~= items);
        },
        MetadataTree::Dict(entries) => {
            lemma_decode_encoded_entries(entries, 0);
            assert(entries.subrange(0, entries.len() as int) =~= entries);
        },
        _ => {},
    }
}

/// Decoding the encoded items of a list from `from` on gives those items.
proof fn lemma_decode_encoded_items(items: Seq<MetadataTree>, from: int)
    requires
        0 <= from <= items.len(),
    ensures
        decode_items(encode(MetadataTree::List(items))->List_0, from) == Ok::<
            Seq<MetadataTree>,
            ErrorView,
        >(items.subrange(from, items.len() as int)),
    decreases items, items.len() - from,
{
    if from < items.len() {
        lemma_decode_encode(items[from]);
        lemma_decode_encoded_items(items, from + 1);
        assert(seq![items[from]] + items.subrange(from + 1, items.len() as int)
            =~= items.subrange(from, items.len() as int));
    } else {
        assert(items.subrange(from, items.len() as int) =~= Seq::<MetadataTree>::empty());
    }
}

/// Decoding the encoded entries of a map from `from` on gives those entries.
proof fn lemma_decode_encoded_entries(entries: Seq<(Seq<char>, MetadataTree)>, from: int)
    requires
        0 <= from <= entries.len(),
    ensures
        decode_fields(encode_entries(entries), from) == Ok::<
            Seq<(Seq<char>, MetadataTree)>,
            (Seq<char>, ErrorView),
        >(entries.subrange(from, entries.len() as int)),
    decreases entries, entries.len() - from,
{
    if from < entries.len() {
        lemma_decode_encode(entries[from].1);
        lemma_decode_encoded_entries(entries, from + 1);
        assert(seq![(entries[from].0, entries[from].1)] + entries.subrange(
            from + 1,
            entries.len() as int,
        ) =~= entries.subrange(from, entries.len() as int));
    } else {
        assert(entries.subrange(from, entries.len() as int) =~= Seq::<
            (Seq<char>, MetadataTree),
        >::empty());
    }
}

/// Decoding the encoded entries of a metadata map gives the map back.
pub proof fn lemma_decode_struct_encode(entries: Seq<(Seq<char>, MetadataTree)>)
    ensures
        decode_struct(encode_entries(entries)) == Ok::<Seq<(Seq<char>, MetadataTree)>, ErrorView>(
            entries,
        ),
{
    lemma_decode_encoded_entries(entries, 0);
    assert(entries.subrange(0, entries.len() as int) =~= entries);
}

/// A value that does not decode fails with an error of the codec: one
/// without a key where the value failed outside every dictionary, and one
/// that names keys where it failed inside one.
pub proof fn lemma_decode_error(w: WireTree)
    ensures
        decode(w) matches Err(e) ==> e is MetadataValueError || e is MetadataError,
    decreases w, 0nat,
{
    match w {
        WireTree::List(items) => {
            lemma_decode_items_error(items, 0);
        },
        WireTree::Struct(fields) => {
            lemma_decode_fields_error(fields, 0);
        },
        _ => {},
    }
}

proof fn lemma_decode_items_error(items: Seq<WireTree>, from: int)
    requires
        0 <= from,
    ensures
        decode_items(items, from) matches Err(e) ==> e is MetadataValueError || e
            is MetadataError,
    decreases items, items.len() - from,
{
    if from < items.len() {
        lemma_decode_error(items[from]);
        lemma_decode_items_error(items, from + 1);
    }
}

proof fn lemma_decode_fields_error(fields: Seq<(Seq<char>, WireTree)>, from: int)
    requires
        0 <= from,
    ensures
        decode_fields(fields, from) matches Err(failure) ==> failure.1 is MetadataValueError
            || failure.1 is MetadataError,
    decreases fields, fields.len() - from,
{
    if from < fields.len() {
        lemma_decode_error(fields[from].1);
        lemma_decode_fields_error(fields, from + 1);
    }
}

/// A structure whose field does not decode fails with an error that names
/// the field first: by itself where the value under it failed outside every
/// dictionary, and else before the keys under which it failed.
pub proof fn lemma_decode_struct_names_key(fields: Seq<(Seq<char>, WireTree)>)
    ensures
        decode_struct(fields) matches Err(e) ==> {
            &&& decode_fields(fields, 0) matches Err(failure)
            &&& e is MetadataError
            &&& key_path(e) == Some(
                match key_path(failure.1) {
                    Some(inner) => failure.0 + ": "@ + inner,
                    None => failure.0,
                },
            )
        },
{
    lemma_decode_fields_error(fields, 0);
}

/// Marks an error as one that came up inside a list.
pub fn error_in_list(e: PineconeClientError) -> (r: PineconeClientError)
    ensures
        r@ == in_list(e@),
{
    match e {
        PineconeClientError::MetadataValueError { val_type } => {
            PineconeClientError::MetadataValueError { val_type: val_type.concat(" value in a list") }
        },
        PineconeClientError::MetadataError { key, val_type } => {
            PineconeClientError::MetadataError { key, val_type: val_type.concat(" value in a list") }
        },
        other => other,
    }
}

/// Marks an error as one that came up inside a dictionary, under `key`.
pub fn error_in_dict(key: &str, e: PineconeClientError) -> (r: PineconeClientError)
    ensures
        r@ == in_dict(key@, e@),
{
    match e {
        PineconeClientError::MetadataValueError { val_type } => {
            PineconeClientError::MetadataError {
                key: String::from_str(key),
                val_type: val_type.concat(" value in a dict"),
            }
        },
        PineconeClientError::MetadataError { key: inner, val_type } => {
            PineconeClientError::MetadataError {
                key: String::from_str(key).concat(": ").concat(inner.as_str()),
                val_type: val_type.concat(" value in a dict"),
            }
        },
        other => other,
    }
}

/// Marks an error as one that came up in the value of the top-level key `key`.
pub fn error_under_key(key: &str, e: PineconeClientError) -> (r: PineconeClientError)
    ensures
        r@ == under_key(key@, e@),
{
    match e {
        PineconeClientError::MetadataValueError { val_type } => PineconeClientError::MetadataError {
            key: String::from_str(key),
            val_type,
        },
        PineconeClientError::MetadataError { key: inner, val_type } => {
            PineconeClientError::MetadataError {
                key: String::from_str(key).concat(": ").concat(inner.as_str()),
                val_type,
            }
        },
        other => other,
    }
}

impl MetadataValue {
    /// Encodes this value for the wire.
    pub fn to_wire(&self) -> (w: WireValue)
        ensures
            w@ == encode(self@),
        decreases self@, 1nat,
    {
        match self {
            MetadataValue::StringVal(text) => WireValue::StringValue(text.clone()),
            MetadataValue::NumberVal(number) => WireValue::NumberValue(*number),
            MetadataValue::BoolVal(flag) => WireValue::BoolValue(*flag),
            MetadataValue::ListVal(items) => {
                let ghost trees = self@->List_0;
                let mut encoded: Vec<WireValue> = Vec::new();
                let mut i: usize = 0;
                while i < items.len()
                    invariant
                        i <= items.len(),
                        self@ is List,
                        trees == self@->List_0,
                        trees.len() == items.len(),
                        forall|j: int| 0 <= j < items.len() ==> trees[j] == (#[trigger] items[j])@,
                        encoded.len() == i,
                        forall|j: int| 0 <= j < i ==> (#[trigger] encoded[j])@ == encode(trees[j]),
                    decreases items.len() - i,
                {
                    proof {
                        assert(decreases_to!(self@ => self@->List_0));
                        assert(decreases_to!(trees => trees[i as int]));
                    }
                    encoded.push(items[i].to_wire());
                    i = i + 1;
                }
                let w = WireValue::ListValue(encoded);
                assert(w@->List_0 =~= encode(self@)->List_0);
                w
            },
            MetadataValue::DictVal(map) => WireValue::StructValue(hashmap_to_prost_struct(map)),
        }
    }

    /// Decodes a wire value.
    pub fn from_wire(val: &WireValue) -> (r: Result<MetadataValue, PineconeClientError>)
        ensures
            value_outcome(r) == decode(val@),
        decreases val@, 1nat,
    {
        match val {
            WireValue::Empty => Err(
                PineconeClientError::MetadataValueError { val_type: String::from_str("empty") },
            ),
            WireValue::NullValue => Err(
                PineconeClientError::MetadataValueError { val_type: String::from_str("None") },
            ),
            WireValue::NumberValue(number) => Ok(MetadataValue::NumberVal(*number)),
            WireValue::StringValue(text) => Ok(MetadataValue::StringVal(text.clone())),
            WireValue::BoolValue(flag) => Ok(MetadataValue::BoolVal(*flag)),
            WireValue::ListValue(items) => {
                let ghost trees = val@->List_0;
                let mut inners: Vec<MetadataValue> = Vec::new();
                let mut i: usize = 0;
                while i < items.len()
                    invariant
                        i <= items.len(),
                        val@ is List,
                        trees == val@->List_0,
                        trees.len() == items.len(),
                        forall|j: int| 0 <= j < items.len() ==> trees[j] == (#[trigger] items[j])@,
                        decode_items(trees, 0) == joined(
                            MetadataValue::ListVal(inners)@->List_0,
                            decode_items(trees, i as int),
                        ),
                    decreases items.len() - i,
                {
                    let ghost done = MetadataValue::ListVal(inners)@->List_0;
                    match MetadataValue::from_wire(&items[i]) {
                        Err(e) => {
                            return Err(error_in_list(e));
                        },
                        Ok(new_val) => {
                            inners.push(new_val);
                            proof {
                                let rest = decode_items(trees, i + 1);
                                let now = MetadataValue::ListVal(inners)@->List_0;
                                assert(now =~= done.push(new_val@));
                                if rest is Ok {
                                    assert(done + (seq![new_val@] + rest->Ok_0) =~= now
                                        + rest->Ok_0);
                                }
                            }
                        },
                    }
                    i = i + 1;
                }
                let r = MetadataValue::ListVal(inners);
                assert(r@->List_0 + Seq::<MetadataTree>::empty() =~= r@->List_0);
                Ok(r)
            },
            WireValue::StructValue(fields) => {
                match fields_from_wire(fields) {
                    Ok(map) => Ok(MetadataValue::DictVal(map)),
                    Err((key, e)) => Err(error_in_dict(key.as_str(), e)),
                }
            },
        }
    }
}

/// What decoding gives in all when `done` is decoded already and `rest` is
/// the outcome for what follows.
pub open spec fn joined<T, E>(done: Seq<T>, rest: Result<Seq<T>, E>) -> Result<Seq<T>, E> {
    match rest {
        Ok(more) => Ok(done + more),
        Err(e) => Err(e),
    }
}

/// The outcome of decoding fields, with entries and error as trees.
pub open spec fn fields_outcome(r: Result<MetadataMap, (String, PineconeClientError)>) -> Result<
    Seq<(Seq<char>, MetadataTree)>,
    (Seq<char>, ErrorView),
> {
    match r {
        Ok(map) => Ok(map@),
        Err((key, e)) => Err((key@, e@)),
    }
}

/// Decodes the fields of a structure in the order of their names. On the
/// first field that fails, returns its name and the error of its value.
fn fields_from_wire(fields: &WireStruct) -> (r: Result<MetadataMap, (String, PineconeClientError)>)
    ensures
        fields_outcome(r) == decode_fields(fields@, 0),
    decreases WireTree::Struct(fields@), 0nat,
{
    let mut inners = MetadataMap::new();
    let n = fields.len();
    let mut i: usize = 0;
    while i < n
        invariant
            i <= n,
            n == fields@.len(),
            crate::keyed::ascending(keys_of(fields@)),
            inners@.len() == i,
            forall|j: int| 0 <= j < i ==> (#[trigger] inners@[j]).0 == fields@[j].0,
            decode_fields(fields@, 0) == joined(inners@, decode_fields(fields@, i as int)),
        decreases n - i,
    {
        let ghost done = inners@;
        match fields.entry_at(i) {
            None => {
                assert(false);
            },
            Some((k, v)) => {
                proof {
                    assert(decreases_to!(WireTree::Struct(fields@) => WireTree::Struct(
                        fields@,
                    )->Struct_0));
                    assert(decreases_to!(fields@ => fields@[i as int]));
                    assert(decreases_to!(fields@[i as int] => fields@[i as int].1));
                }
                match MetadataValue::from_wire(v) {
                    Err(e) => {
                        return Err((k.clone(), e));
                    },
                    Ok(new_val) => {
                        proof {
                            assert forall|j: int| 0 <= j < done.len() implies crate::text::text_lt(
                                (#[trigger] done[j]).0,
                                k@,
                            ) by {
                                assert(keys_of(fields@)[j] == fields@[j].0);
                                assert(keys_of(fields@)[i as int] == fields@[i as int].0);
                            }
                            lemma_inserted_appends(done, k@, new_val@);
                        }
                        inners.insert(k.clone(), new_val);
                        proof {
                            let rest = decode_fields(fields@, i + 1);
                            if rest is Ok {
                                assert(done + (seq![(k@, new_val@)] + rest->Ok_0) =~= inners@
                                    + rest->Ok_0);
                            }
                        }
                    },
                }
            },
        }
        i = i + 1;
    }
    assert(inners@ + Seq::<(Seq<char>, MetadataTree)>::empty() =~= inners@);
    Ok(inners)
}

/// Encodes a metadata map as the fields of a wire structure.
pub fn hashmap_to_prost_struct(dict: &MetadataMap) -> (fields: WireStruct)
    ensures
        fields@ == encode_entries(dict@),
    decreases MetadataTree::Dict(dict@), 0nat,
{
    let mut fields = WireStruct::new();
    let n = dict.len();
    let mut i: usize = 0;
    while i < n
        invariant
            i <= n,
            n == dict@.len(),
            crate::keyed::ascending(keys_of(dict@)),
            fields@ == encode_entries(dict@).subrange(0, i as int),
        decreases n - i,
    {
        let ghost done = fields@;
        match dict.entry_at(i) {
            None => {
                assert(false);
            },
            Some((k, v)) => {
                proof {
                    assert(decreases_to!(MetadataTree::Dict(dict@) => MetadataTree::Dict(
                        dict@,
                    )->Dict_0));
                    assert(decreases_to!(dict@ => dict@[i as int]));
                    assert(decreases_to!(dict@[i as int] => dict@[i as int].1));
                }
                let encoded = v.to_wire();
                proof {
                    assert forall|j: int| 0 <= j < done.len() implies crate::text::text_lt(
                        (#[trigger] done[j]).0,
                        k@,
                    ) by {
                        assert(keys_of(dict@)[j] == dict@[j].0);
                        assert(keys_of(dict@)[i as int] == dict@[i as int].0);
                    }
                    lemma_inserted_appends(done, k@, encoded@);
                }
                fields.insert(k.clone(), encoded);
                assert(fields@ =~= encode_entries(dict@).subrange(0, i + 1));
            },
        }
        i = i + 1;
    }
    assert(encode_entries(dict@).subrange(0, n as int) =~= encode_entries(dict@));
    fields
}

/// Decodes the fields of a wire structure as a metadata map. An error names
/// the field whose value it is about.
pub fn prost_struct_to_hashmap(dict: &WireStruct) -> (r: Result<MetadataMap, PineconeClientError>)
    ensures
        map_outcome(r) == decode_struct(dict@),
{
    match fields_from_wire(dict) {
        Ok(fields) => Ok(fields),
        Err((key, e)) => Err(error_under_key(key.as_str(), e)),
    }
}

} // verus!
