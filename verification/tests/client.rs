use client_sdk::client::control_plane::{
    check_api_key, whoami_url, CollectionMeta, ControlPlaneFailure, CreateCollectionRequest,
    CreateRequest, IndexMeta, IndexMetaDatabase, IndexMetaStatus,
};
use client_sdk::client::grpc::{GrpcScoredVector, GrpcSparseValues, GrpcVector};
use client_sdk::client::index::{
    check_scale, check_top_k, check_upsert_count, exception_kind, ExceptionKind,
};
use client_sdk::client::pinecone_client::{
    get_controller_url, get_index_url, index_connection_error, resolve_api_key, resolve_region,
};
use client_sdk::data_types::{Collection, Db, QueryResult, SparseValues, UpsertResponse, Vector};
use client_sdk::metadata::{Float32, MetadataMap, MetadataValue};
use client_sdk::utils::errors::PineconeClientError;
use client_sdk::wire::{WireStruct, WireValue};

fn single(x: f32) -> Float32 {
    Float32 { bits: x.to_bits() }
}

#[test]
fn failures_of_the_controller() {
    assert_eq!(
        PineconeClientError::from_failure(ControlPlaneFailure::Response {
            content: "not found".to_string(),
            status: "404 Not Found".to_string()
        }),
        PineconeClientError::ControlPlaneOperationError {
            err: "not found".to_string(),
            status_code: "404 Not Found".to_string()
        }
    );
    assert_eq!(
        PineconeClientError::from_failure(ControlPlaneFailure::Transport {
            connect: true,
            message: "refused".to_string(),
            status_code: Some("500".to_string())
        }),
        PineconeClientError::ControlPlaneConnectionError {
            region: "".to_string(),
            err: "refused".to_string()
        }
    );
    assert_eq!(
        PineconeClientError::from_failure(ControlPlaneFailure::Transport {
            connect: false,
            message: "broken".to_string(),
            status_code: Some("502".to_string())
        }),
        PineconeClientError::ControlPlaneOperationError {
            err: "broken".to_string(),
            status_code: "502".to_string()
        }
    );
    assert_eq!(
        PineconeClientError::from_failure(ControlPlaneFailure::Transport {
            connect: false,
            message: "broken".to_string(),
            status_code: None
        }),
        PineconeClientError::ControlPlaneOperationError {
            err: "broken".to_string(),
            status_code: "unknown".to_string()
        }
    );
    assert_eq!(
        PineconeClientError::from_failure(ControlPlaneFailure::Other("io".to_string())),
        PineconeClientError::Other("io".to_string())
    );
}

#[test]
fn region_of_a_connection_error() {
    let error = PineconeClientError::ControlPlaneConnectionError {
        region: "".to_string(),
        err: "refused".to_string(),
    };
    assert_eq!(
        error.with_region("eu-west1"),
        PineconeClientError::ControlPlaneConnectionError {
            region: "eu-west1".to_string(),
            err: "refused".to_string()
        }
    );
    let other = PineconeClientError::Other("x".to_string());
    assert_eq!(other.clone().with_region("eu-west1"), other);
}

#[test]
fn description_of_an_index() {
    let meta = IndexMeta {
        database: Some(IndexMetaDatabase {
            name: Some("books".to_string()),
            dimension: Some(128),
            metric: Some("cosine".to_string()),
            pods: Some(2),
            replicas: Some(1),
            shards: Some(1),
            pod_type: Some("p1.x1".to_string()),
            source_collection: None,
            metadata_config: Some(Some(vec!["genre".to_string()])),
        }),
        status: Some(IndexMetaStatus { state: Some("Ready".to_string()) }),
    };
    assert_eq!(
        Db::try_from(meta),
        Ok(Db {
            name: "books".to_string(),
            dimension: 128,
            metric: Some("cosine".to_string()),
            replicas: Some(1),
            shards: Some(1),
            pods: Some(2),
            source_collection: None,
            metadata_config: Some(vec![("indexed".to_string(), vec!["genre".to_string()])]),
            pod_type: Some("p1.x1".to_string()),
            status: Some("Ready".to_string()),
        })
    );
}

#[test]
fn description_of_an_index_with_little_in_it() {
    let database = IndexMetaDatabase {
        name: Some("books".to_string()),
        dimension: Some(3),
        metadata_config: Some(None),
        ..Default::default()
    };
    let db = Db::try_from(IndexMeta { database: Some(database), status: None }).unwrap();
    assert_eq!(db.metadata_config, Some(vec![("indexed".to_string(), vec![])]));
    assert_eq!(db.status, None);
    let database = IndexMetaDatabase {
        name: Some("books".to_string()),
        dimension: Some(3),
        ..Default::default()
    };
    let meta = IndexMeta { database: Some(database), status: Some(IndexMetaStatus::default()) };
    let db = Db::try_from(meta).unwrap();
    assert_eq!(db.metadata_config, None);
    assert_eq!(db.status, None);
}

#[test]
fn descriptions_that_are_refused() {
    assert_eq!(
        Db::try_from(IndexMeta::default()),
        Err(PineconeClientError::Other("Failed to parse db".to_string()))
    );
    let database = IndexMetaDatabase { dimension: Some(3), ..Default::default() };
    assert_eq!(
        Db::try_from(IndexMeta { database: Some(database), status: None }),
        Err(PineconeClientError::ValueError("Failed to parse db name".to_string()))
    );
    assert_eq!(
        Db::try_from(IndexMeta { database: Some(IndexMetaDatabase::default()), status: None }),
        Err(PineconeClientError::ValueError("Failed to parse db name".to_string()))
    );
    let database = IndexMetaDatabase { name: Some("books".to_string()), ..Default::default() };
    assert_eq!(
        Db::try_from(IndexMeta { database: Some(database), status: None }),
        Err(PineconeClientError::Other("Failed to parse db dimension".to_string()))
    );
}

#[test]
fn request_to_create_an_index() {
    let db = Db {
        name: "test-index".to_string(),
        dimension: 128,
        metadata_config: Some(vec![
            ("other".to_string(), vec!["x".to_string()]),
            ("indexed".to_string(), vec!["value1".to_string(), "value2".to_string()]),
        ]),
        ..Default::default()
    };
    assert_eq!(
        CreateRequest::from(db),
        CreateRequest {
            name: "test-index".to_string(),
            dimension: 128,
            metadata_config: Some(Some(vec!["value1".to_string(), "value2".to_string()])),
            ..Default::default()
        }
    );
    let db = Db {
        metadata_config: Some(vec![
            ("indexed".to_string(), vec!["early".to_string()]),
            ("indexed".to_string(), vec!["late".to_string()]),
            ("other".to_string(), vec![]),
        ]),
        ..Default::default()
    };
    assert_eq!(CreateRequest::from(db).metadata_config, Some(Some(vec!["late".to_string()])));
    let db = Db { metadata_config: Some(vec![]), pods: Some(4), ..Default::default() };
    let request = CreateRequest::from(db);
    assert_eq!(request.metadata_config, Some(None));
    assert_eq!(request.pods, Some(4));
    assert_eq!(CreateRequest::from(Db::default()).metadata_config, None);
}

#[test]
fn collections() {
    let collection = Collection {
        name: "test-collection".to_string(),
        source: "test-index".to_string(),
        ..Default::default()
    };
    assert_eq!(
        CreateCollectionRequest::from(collection),
        CreateCollectionRequest {
            name: "test-collection".to_string(),
            source: "test-index".to_string()
        }
    );
    let meta = CollectionMeta {
        name: Some("c".to_string()),
        size: Some(10),
        status: Some("Ready".to_string()),
    };
    let expected = Collection {
        name: "c".to_string(),
        source: "".to_string(),
        vector_count: None,
        size: Some(10),
        status: Some("Ready".to_string()),
    };
    assert_eq!(Collection::from(meta.clone()), expected);
    assert_eq!(Collection::try_from(meta), Some(expected));
    assert_eq!(Collection::try_from(CollectionMeta::default()), None);
}

#[test]
fn api_key_and_addresses() {
    assert_eq!(check_api_key("abc"), Ok(()));
    assert_eq!(
        check_api_key(""),
        Err(PineconeClientError::ValueError("Api key empty or not provided".to_string()))
    );
    assert_eq!(
        whoami_url("https://controller.eu.pinecone.io"),
        "https://controller.eu.pinecone.io/actions/whoami"
    );
    assert_eq!(get_controller_url("us-west1-gcp"), "https://controller.us-west1-gcp.pinecone.io");
    assert_eq!(
        get_index_url("books", "abc123", "us-west1-gcp"),
        "https://books-abc123.svc.us-west1-gcp.pinecone.io:443"
    );
    assert_eq!(
        index_connection_error("books", "refused".to_string()),
        PineconeClientError::IndexConnectionError {
            index: "books".to_string(),
            err: "refused".to_string()
        }
    );
}

#[test]
fn api_key_of_a_client() {
    assert_eq!(resolve_api_key(Some("given"), Some("env".to_string())), Ok("given".to_string()));
    assert_eq!(resolve_api_key(None, Some("env".to_string())), Ok("env".to_string()));
    assert_eq!(resolve_api_key(Some(""), None), Ok("".to_string()));
    assert_eq!(
        resolve_api_key(None, None),
        Err(PineconeClientError::ValueError(
            "Please provide a valid API key or set the 'PINECONE_API_KEY' environment variable"
                .to_string()
        ))
    );
}

#[test]
fn region_of_a_client() {
    let refused = Err(PineconeClientError::ValueError(
        "Please provide a valid region or set the 'PINECONE_REGION' environment variable"
            .to_string(),
    ));
    assert_eq!(resolve_region(Some("eu"), Some("env".to_string())), Ok("eu".to_string()));
    assert_eq!(resolve_region(None, Some("env".to_string())), Ok("env".to_string()));
    assert_eq!(resolve_region(None, None), Ok("us-west1-gcp".to_string()));
    assert_eq!(resolve_region(Some(""), Some("env".to_string())), refused);
    assert_eq!(resolve_region(None, Some("".to_string())), refused);
}

#[test]
fn count_of_an_upsert() {
    assert_eq!(check_upsert_count(10, 10), Ok(UpsertResponse { upserted_count: 10 }));
    assert_eq!(check_upsert_count(0, 0), Ok(UpsertResponse { upserted_count: 0 }));
    assert_eq!(
        check_upsert_count(9, 10),
        Err(PineconeClientError::Other(
            "Failed to upsert all vectors. Upserted 9 out of 10 vectors".to_string()
        ))
    );
}

#[test]
fn number_of_results() {
    assert_eq!(check_top_k(1), Ok(1));
    assert_eq!(check_top_k(i32::MAX), Ok(2_147_483_647));
    for refused in [0, -1, i32::MIN] {
        assert_eq!(
            check_top_k(refused),
            Err(PineconeClientError::ValueError("top_k must be greater than 0".to_string()))
        );
    }
}

#[test]
fn change_of_scale() {
    assert_eq!(check_scale(Some(2), &None), Ok(()));
    assert_eq!(check_scale(None, &Some("p1.x2".to_string())), Ok(()));
    assert_eq!(
        check_scale(None, &None),
        Err(PineconeClientError::ValueError(
            "At least one of replicas or pod_type must be set".to_string()
        ))
    );
}

#[test]
fn kinds_of_exception() {
    let text = || "x".to_string();
    let cases = vec![
        (
            PineconeClientError::ArgumentError { name: text(), found: text(), expected: text() },
            ExceptionKind::Value,
        ),
        (PineconeClientError::ValueError(text()), ExceptionKind::Value),
        (PineconeClientError::UpsertKeyError { key: text(), vec_num: 0 }, ExceptionKind::Value),
        (
            PineconeClientError::UpsertValueError {
                key: text(),
                vec_num: 0,
                expected_type: text(),
                actual: text(),
            },
            ExceptionKind::Value,
        ),
        (
            PineconeClientError::UpsertExcessKeysError { keys: vec![], vec_num: 0 },
            ExceptionKind::Value,
        ),
        (PineconeClientError::MetadataValueError { val_type: text() }, ExceptionKind::Value),
        (PineconeClientError::MetadataError { key: text(), val_type: text() }, ExceptionKind::Value),
        (
            PineconeClientError::ControlPlaneConnectionError { region: text(), err: text() },
            ExceptionKind::Connection,
        ),
        (
            PineconeClientError::IndexConnectionError { index: text(), err: text() },
            ExceptionKind::Connection,
        ),
        (PineconeClientError::DataplaneOperationError(text()), ExceptionKind::Operation),
        (
            PineconeClientError::ControlPlaneOperationError { err: text(), status_code: text() },
            ExceptionKind::Operation,
        ),
        (PineconeClientError::ControlPlaneParsingError, ExceptionKind::Operation),
        (PineconeClientError::DeserializationError(text()), ExceptionKind::Operation),
        (PineconeClientError::IoError(text()), ExceptionKind::Io),
        (PineconeClientError::Other(text()), ExceptionKind::Runtime),
        (PineconeClientError::OperationTimeout(text()), ExceptionKind::Runtime),
        (PineconeClientError::KeyboardInterrupt(text()), ExceptionKind::KeyboardInterrupt),
    ];
    for (error, kind) in cases {
        assert_eq!(exception_kind(&error), kind, "{:?}", error);
    }
}

fn sample_metadata() -> MetadataMap {
    let mut metadata = MetadataMap::new();
    metadata.insert("genre".to_string(), MetadataValue::StringVal("novel".to_string()));
    metadata
}

#[test]
fn vector_to_the_data_plane_and_back() {
    let vector = Vector {
        id: "v".to_string(),
        values: vec![single(0.5)],
        sparse_values: Some(SparseValues { indices: vec![3], values: vec![single(1.0)] }),
        metadata: Some(sample_metadata()),
    };
    let grpc = GrpcVector::from(vector.clone());
    assert_eq!(grpc.id, "v");
    assert_eq!(grpc.values, vec![single(0.5)]);
    assert_eq!(
        grpc.sparse_values,
        Some(GrpcSparseValues { indices: vec![3], values: vec![single(1.0)] })
    );
    let mut fields = WireStruct::new();
    fields.insert("genre".to_string(), WireValue::StringValue("novel".to_string()));
    assert_eq!(grpc.metadata, Some(fields));
    assert_eq!(Vector::try_from_grpc(grpc), Ok(vector));

    let bare = Vector::new("b".to_string(), vec![], None, None);
    let grpc = GrpcVector::from(bare.clone());
    assert_eq!(grpc.metadata, None);
    assert_eq!(grpc.sparse_values, None);
    assert_eq!(Vector::try_from_grpc(grpc), Ok(bare));
}

#[test]
fn vector_of_the_data_plane_with_bad_metadata() {
    let mut fields = WireStruct::new();
    fields.insert("k".to_string(), WireValue::NullValue);
    let grpc = GrpcVector {
        id: "v".to_string(),
        values: vec![],
        sparse_values: None,
        metadata: Some(fields),
    };
    assert_eq!(
        Vector::try_from_grpc(grpc),
        Err(PineconeClientError::MetadataError { key: "k".to_string(), val_type: "None".to_string() })
    );
}

#[test]
fn match_of_a_query() {
    let mut fields = WireStruct::new();
    fields.insert("genre".to_string(), WireValue::StringValue("novel".to_string()));
    let grpc = GrpcScoredVector {
        id: "v".to_string(),
        score: single(0.75),
        values: vec![],
        sparse_values: None,
        metadata: Some(fields),
    };
    assert_eq!(
        QueryResult::try_from(grpc),
        Ok(QueryResult {
            id: "v".to_string(),
            score: single(0.75),
            values: None,
            sparse_values: None,
            metadata: Some(sample_metadata()),
        })
    );
    let grpc = GrpcScoredVector {
        id: "w".to_string(),
        score: single(0.25),
        values: vec![single(1.0)],
        sparse_values: Some(GrpcSparseValues { indices: vec![1], values: vec![single(2.0)] }),
        metadata: None,
    };
    assert_eq!(
        QueryResult::try_from(grpc),
        Ok(QueryResult {
            id: "w".to_string(),
            score: single(0.25),
            values: Some(vec![single(1.0)]),
            sparse_values: Some(SparseValues::new(vec![1], vec![single(2.0)])),
            metadata: None,
        })
    );
    let mut fields = WireStruct::new();
    fields.insert("k".to_string(), WireValue::Empty);
    let grpc = GrpcScoredVector {
        id: "v".to_string(),
        score: single(0.0),
        values: vec![],
        sparse_values: None,
        metadata: Some(fields),
    };
    assert_eq!(
        QueryResult::try_from(grpc),
        Err(PineconeClientError::MetadataError {
            key: "k".to_string(),
            val_type: "empty".to_string()
        })
    );
}
