use client_sdk::data_types::{SparseValues, Vector};
use client_sdk::dynamic::{DynamicField, DynamicNumber, DynamicValue};
use client_sdk::metadata::{Float32, Float64, MetadataMap, MetadataValue};
use client_sdk::upsert::{
    convert_upsert_enum_to_vectors, error_at_position, normalize, UpsertRecord,
};
use client_sdk::utils::dynamic_conversions::{error_under_sparse, fields_to_wire};
use client_sdk::utils::errors::PineconeClientError;
use client_sdk::wire::WireValue;

fn single(x: f32) -> Float32 {
    Float32 { bits: x.to_bits() }
}

fn float(x: f64) -> DynamicValue {
    DynamicValue::Number(DynamicNumber {
        double: Float64 { bits: x.to_bits() },
        single: single(x as f32),
        index: None,
    })
}

fn whole(x: u32) -> DynamicValue {
    DynamicValue::Number(DynamicNumber {
        double: Float64 { bits: (x as f64).to_bits() },
        single: single(x as f32),
        index: Some(x),
    })
}

fn text(s: &str) -> DynamicValue {
    DynamicValue::Text(s.to_string())
}

fn field(key: &str, value: DynamicValue, rendering: &str) -> DynamicField {
    DynamicField { key: key.to_string(), value, rendering: rendering.to_string() }
}

fn id_field() -> DynamicField {
    field("id", text("v1"), "'v1'")
}

fn values_field() -> DynamicField {
    field("values", DynamicValue::List(vec![float(1.0), float(2.0)]), "[1.0, 2.0]")
}

const SHAPES: &str = ".\nAllowed types are: Vector; Tuple[str, List[float]]; Tuple[str, List[float], dict]; Dict[str, Any]";

#[test]
fn mapping_with_unequal_sparse_lengths_is_taken() {
    let sparse = DynamicValue::Mapping(vec![
        field("indices", DynamicValue::List(vec![whole(1)]), "[1]"),
        field("values", DynamicValue::List(vec![float(0.5), float(0.5)]), "[0.5, 0.5]"),
    ]);
    let record = vec![id_field(), values_field(), field("sparse_values", sparse, "{...}")];
    let expected = Vector {
        id: "v1".to_string(),
        values: vec![single(1.0), single(2.0)],
        sparse_values: Some(SparseValues {
            indices: vec![1],
            values: vec![single(0.5), single(0.5)],
        }),
        metadata: None,
    };
    assert_eq!(Vector::try_from(&record), Ok(expected.clone()));
    assert_eq!(normalize(UpsertRecord::Dict(record), 9), Ok(expected));
}

#[test]
fn mapping_with_whole_numbers_as_values() {
    let record =
        vec![field("values", DynamicValue::List(vec![whole(3), float(0.25)]), "[3, 0.25]"), id_field()];
    assert_eq!(
        Vector::try_from(&record),
        Ok(Vector {
            id: "v1".to_string(),
            values: vec![single(3.0), single(0.25)],
            sparse_values: None,
            metadata: None
        })
    );
}

#[test]
fn mapping_with_metadata() {
    let metadata = DynamicValue::Mapping(vec![
        field("year", whole(1869), "1869"),
        field("genre", DynamicValue::List(vec![text("novel")]), "['novel']"),
        field("year", whole(1870), "1870"),
        field("read", DynamicValue::Bool(false), "False"),
    ]);
    let record = vec![id_field(), values_field(), field("metadata", metadata, "{...}")];
    let mut expected = MetadataMap::new();
    expected.insert(
        "genre".to_string(),
        MetadataValue::ListVal(vec![MetadataValue::StringVal("novel".to_string())]),
    );
    expected.insert("read".to_string(), MetadataValue::BoolVal(false));
    expected.insert(
        "year".to_string(),
        MetadataValue::NumberVal(Float64 { bits: 1870.0f64.to_bits() }),
    );
    assert_eq!(Vector::try_from(&record).unwrap().metadata, Some(expected));
}

#[test]
fn missing_id_names_the_position() {
    let record = vec![values_field()];
    assert_eq!(
        Vector::try_from(&record),
        Err(PineconeClientError::UpsertKeyError { key: "id".to_string(), vec_num: 0 })
    );
    assert_eq!(
        normalize(UpsertRecord::Dict(vec![values_field()]), 17),
        Err(PineconeClientError::UpsertKeyError { key: "id".to_string(), vec_num: 17 })
    );
}

#[test]
fn missing_values_names_the_position() {
    assert_eq!(
        normalize(UpsertRecord::Dict(vec![id_field()]), 2),
        Err(PineconeClientError::UpsertKeyError { key: "values".to_string(), vec_num: 2 })
    );
}

#[test]
fn empty_mapping_misses_id() {
    assert_eq!(
        normalize(UpsertRecord::Dict(vec![]), 0),
        Err(PineconeClientError::UpsertKeyError { key: "id".to_string(), vec_num: 0 })
    );
}

#[test]
fn excess_keys_come_before_missing_keys() {
    let record = vec![
        field("vals", DynamicValue::Null, "None"),
        values_field(),
        field("ID", text("v1"), "'v1'"),
    ];
    assert_eq!(
        normalize(UpsertRecord::Dict(record), 4),
        Err(PineconeClientError::UpsertExcessKeysError {
            keys: vec!["vals".to_string(), "ID".to_string()],
            vec_num: 4
        })
    );
}

#[test]
fn excess_keys_come_before_wrong_types() {
    let record = vec![field("id", DynamicValue::Null, "None"), field("extra", text("x"), "'x'")];
    assert_eq!(
        Vector::try_from(&record),
        Err(PineconeClientError::UpsertExcessKeysError {
            keys: vec!["extra".to_string()],
            vec_num: 0
        })
    );
}

#[test]
fn wrong_type_of_id() {
    let record = vec![field("id", whole(7), "7"), values_field()];
    assert_eq!(
        normalize(UpsertRecord::Dict(record), 1),
        Err(PineconeClientError::UpsertValueError {
            key: "id".to_string(),
            vec_num: 1,
            expected_type: "String".to_string(),
            actual: "7".to_string()
        })
    );
}

#[test]
fn wrong_type_of_values() {
    for (value, rendering) in [
        (text("abc"), "'abc'"),
        (DynamicValue::List(vec![float(1.0), text("x")]), "[1.0, 'x']"),
        (DynamicValue::List(vec![DynamicValue::Bool(true)]), "[True]"),
        (DynamicValue::Null, "None"),
        (DynamicValue::Other, "<object>"),
    ] {
        let record = vec![id_field(), field("values", value, rendering)];
        assert_eq!(
            normalize(UpsertRecord::Dict(record), 5),
            Err(PineconeClientError::UpsertValueError {
                key: "values".to_string(),
                vec_num: 5,
                expected_type: "List[float]".to_string(),
                actual: rendering.to_string()
            })
        );
    }
}

#[test]
fn empty_list_of_values_is_taken() {
    let record = vec![id_field(), field("values", DynamicValue::List(vec![]), "[]")];
    assert_eq!(Vector::try_from(&record).unwrap().values, vec![]);
}

#[test]
fn wrong_type_of_sparse_values() {
    let record =
        vec![id_field(), values_field(), field("sparse_values", DynamicValue::List(vec![]), "[]")];
    assert_eq!(
        normalize(UpsertRecord::Dict(record), 3),
        Err(PineconeClientError::UpsertValueError {
            key: "sparse_values".to_string(),
            vec_num: 3,
            expected_type: "dict".to_string(),
            actual: "[]".to_string()
        })
    );
}

#[test]
fn errors_of_sparse_values_carry_its_name() {
    let sparse = DynamicValue::Mapping(vec![field(
        "values",
        DynamicValue::List(vec![float(0.5)]),
        "[0.5]",
    )]);
    let record = vec![id_field(), values_field(), field("sparse_values", sparse, "{...}")];
    assert_eq!(
        normalize(UpsertRecord::Dict(record), 6),
        Err(PineconeClientError::UpsertKeyError {
            key: "sparse_values: indices".to_string(),
            vec_num: 6
        })
    );

    let sparse = DynamicValue::Mapping(vec![
        field("indices", DynamicValue::List(vec![float(1.5)]), "[1.5]"),
        field("values", DynamicValue::List(vec![float(0.5)]), "[0.5]"),
    ]);
    let record = vec![id_field(), values_field(), field("sparse_values", sparse, "{...}")];
    assert_eq!(
        normalize(UpsertRecord::Dict(record), 6),
        Err(PineconeClientError::UpsertValueError {
            key: "sparse_values: indices".to_string(),
            vec_num: 6,
            expected_type: "List[int]".to_string(),
            actual: "[1.5]".to_string()
        })
    );

    let sparse = DynamicValue::Mapping(vec![
        field("indices", DynamicValue::List(vec![whole(1)]), "[1]"),
        field("values", text("no"), "'no'"),
    ]);
    let record = vec![id_field(), values_field(), field("sparse_values", sparse, "{...}")];
    assert_eq!(
        normalize(UpsertRecord::Dict(record), 6),
        Err(PineconeClientError::UpsertValueError {
            key: "sparse_values: values".to_string(),
            vec_num: 6,
            expected_type: "List[float]".to_string(),
            actual: "'no'".to_string()
        })
    );

    let sparse = DynamicValue::Mapping(vec![
        field("indexes", DynamicValue::List(vec![whole(1)]), "[1]"),
        field("values", DynamicValue::List(vec![float(0.5)]), "[0.5]"),
    ]);
    let record = vec![id_field(), values_field(), field("sparse_values", sparse, "{...}")];
    assert_eq!(
        normalize(UpsertRecord::Dict(record), 6),
        Err(PineconeClientError::UpsertExcessKeysError {
            keys: vec!["sparse_values: indexes".to_string()],
            vec_num: 6
        })
    );
}

#[test]
fn sparse_values_by_themselves() {
    let mapping = vec![
        field("values", DynamicValue::List(vec![float(0.5)]), "[0.5]"),
        field("indices", DynamicValue::List(vec![whole(4_000_000_000)]), "[4000000000]"),
    ];
    assert_eq!(
        SparseValues::try_from(&mapping),
        Ok(SparseValues { indices: vec![4_000_000_000], values: vec![single(0.5)] })
    );
    assert_eq!(
        SparseValues::try_from(&vec![]),
        Err(PineconeClientError::UpsertKeyError { key: "indices".to_string(), vec_num: 0 })
    );
}

#[test]
fn other_errors_under_sparse_values_become_value_errors() {
    assert_eq!(
        error_under_sparse(PineconeClientError::ValueError("bad".to_string())),
        PineconeClientError::ValueError("Error in 'sparse_values: `bad`".to_string())
    );
}

#[test]
fn wrong_type_of_metadata() {
    let record = vec![id_field(), values_field(), field("metadata", text("m"), "'m'")];
    assert_eq!(
        normalize(UpsertRecord::Dict(record), 8),
        Err(PineconeClientError::UpsertValueError {
            key: "metadata".to_string(),
            vec_num: 8,
            expected_type: "dict".to_string(),
            actual: "'m'".to_string()
        })
    );
}

#[test]
fn metadata_that_does_not_decode_gives_the_message_of_the_codec() {
    let metadata = DynamicValue::Mapping(vec![field(
        "tags",
        DynamicValue::List(vec![text("a"), DynamicValue::Null]),
        "['a', None]",
    )]);
    let record = vec![id_field(), values_field(), field("metadata", metadata, "{...}")];
    let codec_message = "Unsupported metadata value for key tags: found value of type None value in a list. Please see https://docs.pinecone.io/docs/metadata-filtering#supported-metadata-types for allowed metadata types";
    assert_eq!(
        Vector::try_from(&record),
        Err(PineconeClientError::ValueError(codec_message.to_string()))
    );
    let metadata = DynamicValue::Mapping(vec![field(
        "tags",
        DynamicValue::List(vec![text("a"), DynamicValue::Null]),
        "['a', None]",
    )]);
    let record = vec![id_field(), values_field(), field("metadata", metadata, "{...}")];
    assert_eq!(
        normalize(UpsertRecord::Dict(record), 2),
        Err(PineconeClientError::ValueError(format!(
            "Error in vector number 2: `{}`",
            codec_message
        )))
    );
}

#[test]
fn metadata_of_an_unknown_kind_is_refused() {
    let metadata = DynamicValue::Mapping(vec![field("when", DynamicValue::Other, "<date>")]);
    let record = vec![id_field(), values_field(), field("metadata", metadata, "{...}")];
    assert_eq!(
        Vector::try_from(&record),
        Err(PineconeClientError::ValueError(
            "Unsupported metadata value for key when: found value of type empty. Please see https://docs.pinecone.io/docs/metadata-filtering#supported-metadata-types for allowed metadata types".to_string()
        ))
    );
}

#[test]
fn sparse_values_are_read_before_metadata() {
    let metadata = DynamicValue::Mapping(vec![field("k", DynamicValue::Null, "None")]);
    let record = vec![
        field("metadata", metadata, "{...}"),
        field("sparse_values", DynamicValue::Null, "None"),
        values_field(),
        id_field(),
    ];
    assert_eq!(
        Vector::try_from(&record),
        Err(PineconeClientError::UpsertValueError {
            key: "sparse_values".to_string(),
            vec_num: 0,
            expected_type: "dict".to_string(),
            actual: "None".to_string()
        })
    );
}

#[test]
fn dynamic_values_on_the_wire() {
    let fields = vec![
        field("b", DynamicValue::Null, "None"),
        field("a", DynamicValue::Other, "<x>"),
        field("c", DynamicValue::Mapping(vec![field("n", whole(2), "2")]), "{'n': 2}"),
    ];
    let wire = fields_to_wire(&fields);
    assert_eq!(wire.len(), 3);
    assert_eq!(wire.entry_at(0), Some((&"a".to_string(), &WireValue::Empty)));
    assert_eq!(wire.entry_at(1), Some((&"b".to_string(), &WireValue::NullValue)));
    let number = WireValue::NumberValue(Float64 { bits: 2.0f64.to_bits() });
    match wire.entry_at(2).unwrap().1 {
        WireValue::StructValue(inner) => {
            assert_eq!(inner.entry_at(0), Some((&"n".to_string(), &number)))
        }
        other => panic!("not a structure: {:?}", other),
    }
    assert_eq!(DynamicValue::Bool(true).to_wire(), WireValue::BoolValue(true));
    assert_eq!(text("t").to_wire(), WireValue::StringValue("t".to_string()));
    assert_eq!(
        DynamicValue::List(vec![whole(2), DynamicValue::Null]).to_wire(),
        WireValue::ListValue(vec![number, WireValue::NullValue])
    );
}

#[test]
fn vector_and_tuples_pass_as_they_are() {
    let vector = Vector {
        id: "v".to_string(),
        values: vec![single(0.1)],
        sparse_values: Some(SparseValues { indices: vec![1, 2], values: vec![] }),
        metadata: None,
    };
    assert_eq!(normalize(UpsertRecord::Vector(vector.clone()), 3), Ok(vector));
    assert_eq!(
        normalize(UpsertRecord::TwoTuple(("a".to_string(), vec![single(1.5)])), 0),
        Ok(Vector::new("a".to_string(), vec![single(1.5)], None, None))
    );
    let mut metadata = MetadataMap::new();
    metadata.insert("k".to_string(), MetadataValue::BoolVal(true));
    assert_eq!(
        normalize(UpsertRecord::ThreeTuple(("a".to_string(), vec![], metadata.clone())), 0),
        Ok(Vector::new("a".to_string(), vec![], None, Some(metadata)))
    );
}

fn empty_id_at(position: usize, actual: &str) -> PineconeClientError {
    PineconeClientError::UpsertValueError {
        key: "id".to_string(),
        vec_num: position,
        expected_type: "non-empty String".to_string(),
        actual: actual.to_string(),
    }
}

#[test]
fn empty_id_is_refused_in_every_shape() {
    let vector = Vector::new("".to_string(), vec![single(1.0)], None, None);
    assert_eq!(normalize(UpsertRecord::Vector(vector), 4), Err(empty_id_at(4, "\"\"")));
    assert_eq!(
        normalize(UpsertRecord::TwoTuple(("".to_string(), vec![single(1.0)])), 0),
        Err(empty_id_at(0, "\"\""))
    );
    assert_eq!(
        normalize(UpsertRecord::ThreeTuple(("".to_string(), vec![], MetadataMap::new())), 7),
        Err(empty_id_at(7, "\"\""))
    );
    let mapping = || {
        vec![
            field("id", text(""), "''"),
            field("values", DynamicValue::List(vec![float(1.0)]), "[1.0]"),
        ]
    };
    assert_eq!(Vector::try_from(&mapping()), Err(empty_id_at(0, "''")));
    assert_eq!(normalize(UpsertRecord::Dict(mapping()), 3), Err(empty_id_at(3, "''")));
    assert_eq!(
        empty_id_at(3, "''").message(),
        "Error in vector number 3: Found unexpected value for 'id'. Expected a non-empty String, found: ''"
    );
    let batch = vec![
        UpsertRecord::TwoTuple(("a".to_string(), vec![])),
        UpsertRecord::TwoTuple(("".to_string(), vec![])),
    ];
    assert_eq!(convert_upsert_enum_to_vectors(batch), Err(empty_id_at(1, "\"\"")));
}

#[test]
fn empty_id_comes_before_missing_values() {
    assert_eq!(
        Vector::try_from(&vec![field("id", text(""), "''")]),
        Err(empty_id_at(0, "''"))
    );
}

#[test]
fn of_two_fields_with_one_key_the_later_counts() {
    let record = vec![
        field("id", whole(7), "7"),
        field("values", text("early"), "'early'"),
        field("id", text("late"), "'late'"),
        values_field(),
    ];
    assert_eq!(
        Vector::try_from(&record),
        Ok(Vector::new("late".to_string(), vec![single(1.0), single(2.0)], None, None))
    );
    let record = vec![id_field(), values_field(), field("id", whole(7), "7")];
    assert_eq!(
        Vector::try_from(&record),
        Err(PineconeClientError::UpsertValueError {
            key: "id".to_string(),
            vec_num: 0,
            expected_type: "String".to_string(),
            actual: "7".to_string()
        })
    );
}

#[test]
fn mapping_with_keys_that_cannot_be_read() {
    assert_eq!(
        normalize(UpsertRecord::UnreadableDict, 6),
        Err(PineconeClientError::ValueError(
            "Error in vector number 6: `Couldn't retrieve dictionary keys`".to_string()
        ))
    );
    let record = vec![
        id_field(),
        values_field(),
        field("sparse_values", DynamicValue::UnreadableMapping, "{1: 2}"),
    ];
    assert_eq!(
        Vector::try_from(&record),
        Err(PineconeClientError::ValueError(
            "Error in 'sparse_values: `Couldn't retrieve dictionary keys`".to_string()
        ))
    );
    let record = vec![
        id_field(),
        values_field(),
        field("metadata", DynamicValue::UnreadableMapping, "{1: 2}"),
    ];
    assert_eq!(
        Vector::try_from(&record),
        Err(PineconeClientError::UpsertValueError {
            key: "metadata".to_string(),
            vec_num: 0,
            expected_type: "dict".to_string(),
            actual: "{1: 2}".to_string()
        })
    );
    assert_eq!(DynamicValue::UnreadableMapping.to_wire(), WireValue::Empty);
}

#[test]
fn anything_else_is_refused() {
    assert_eq!(
        normalize(UpsertRecord::Other("42".to_string()), 11),
        Err(PineconeClientError::ValueError(format!(
            "Error in vector number 11: Found unexpected value: 42{}",
            SHAPES
        )))
    );
}

#[test]
fn position_of_an_error() {
    assert_eq!(
        error_at_position(
            PineconeClientError::UpsertKeyError { key: "id".to_string(), vec_num: 0 },
            5
        ),
        PineconeClientError::UpsertKeyError { key: "id".to_string(), vec_num: 5 }
    );
    assert_eq!(
        error_at_position(PineconeClientError::Other("x".to_string()), 5),
        PineconeClientError::ValueError("Error in vector number 5: `x`".to_string())
    );
}

#[test]
fn batch_in_order() {
    let batch = vec![
        UpsertRecord::TwoTuple(("a".to_string(), vec![single(1.0)])),
        UpsertRecord::Dict(vec![id_field(), values_field()]),
        UpsertRecord::Vector(Vector::new("c".to_string(), vec![], None, None)),
    ];
    assert_eq!(
        convert_upsert_enum_to_vectors(batch),
        Ok(vec![
            Vector::new("a".to_string(), vec![single(1.0)], None, None),
            Vector::new("v1".to_string(), vec![single(1.0), single(2.0)], None, None),
            Vector::new("c".to_string(), vec![], None, None),
        ])
    );
    assert_eq!(convert_upsert_enum_to_vectors(vec![]), Ok(vec![]));
}

#[test]
fn batch_fails_with_its_first_refused_record() {
    let batch = vec![
        UpsertRecord::TwoTuple(("a".to_string(), vec![single(1.0)])),
        UpsertRecord::Dict(vec![id_field(), values_field()]),
        UpsertRecord::Dict(vec![values_field()]),
        UpsertRecord::Other("later".to_string()),
        UpsertRecord::Dict(vec![field("zzz", DynamicValue::Null, "None")]),
    ];
    assert_eq!(
        convert_upsert_enum_to_vectors(batch),
        Err(PineconeClientError::UpsertKeyError { key: "id".to_string(), vec_num: 2 })
    );
    let batch = vec![
        UpsertRecord::TwoTuple(("a".to_string(), vec![single(1.0)])),
        UpsertRecord::Dict(vec![id_field(), values_field()]),
        UpsertRecord::Dict(vec![values_field()]),
    ];
    assert_eq!(
        convert_upsert_enum_to_vectors(batch),
        Err(PineconeClientError::UpsertKeyError { key: "id".to_string(), vec_num: 2 })
    );
}
