//! The controller's side: its descriptions of indexes and collections, the
//! requests that it takes, and its failures.

use crate::data_types::{distinct_names, Collection, Db};
use crate::utils::errors::{ErrorView, PineconeClientError};
use vstd::prelude::*;
use vstd::string::*;

verus! {

/// The configuration part of the controller's description of an index.
#[derive(Clone, Debug, Default, PartialEq, Eq)]
pub struct IndexMetaDatabase {
    pub name: Option<String>,
    pub dimension: Option<i32>,
    pub metric: Option<String>,
    pub pods: Option<i32>,
    pub replicas: Option<i32>,
    pub shards: Option<i32>,
    pub pod_type: Option<String>,
    pub source_collection: Option<String>,
    /// The metadata fields that are indexed, where the index has a metadata
    /// configuration; `Some(None)` where that configuration names none.
    pub metadata_config: Option<Option<Vec<String>>>,
}

/// The status part of the controller's description of an index.
#[derive(Clone, Debug, Default, PartialEq, Eq)]
pub struct IndexMetaStatus {
    pub state: Option<String>,
}

/// The controller's description of an index.
#[derive(Clone, Debug, Default, PartialEq, Eq)]
pub struct IndexMeta {
    pub database: Option<IndexMetaDatabase>,
    pub status: Option<IndexMetaStatus>,
}

/// The request to create an index.
#[derive(Clone, Debug, Default, PartialEq, Eq)]
pub struct CreateRequest {
    pub name: String,
    pub dimension: i32,
    pub metric: Option<String>,
    pub pods: Option<i32>,
    pub replicas: Option<i32>,
    pub shards: Option<i32>,
    pub pod_type: Option<String>,
    pub source_collection: Option<String>,
    /// The metadata fields to index, where the index is to have a metadata
    /// configuration; `Some(None)` where that configuration names none.
    pub metadata_config: Option<Option<Vec<String>>>,
}

/// The controller's description of a collection.
#[derive(Clone, Debug, Default, PartialEq, Eq)]
pub struct CollectionMeta {
    pub name: Option<String>,
    pub size: Option<i32>,
    pub status: Option<String>,
}

/// The request to create a collection.
#[derive(Clone, Debug, Default, PartialEq, Eq)]
pub struct CreateCollectionRequest {
    pub name: String,
    pub source: String,
}

/// A failed call to the controller, as the transport reports it.
#[derive(Clone, Debug, PartialEq, Eq)]
pub enum ControlPlaneFailure {
    /// The controller answered with an error status.
    Response { content: String, status: String },
    /// The request did not get through, or its answer did not.
    Transport { connect: bool, message: String, status_code: Option<String> },
    /// Any other failure.
    Other(String),
}

/// The error for a failed call to the controller.
pub open spec fn failure_error(failure: ControlPlaneFailure) -> ErrorView {
    match failure {
        ControlPlaneFailure::Response { content, status } => {
            ErrorView::ControlPlaneOperationError { err: content@, status_code: status@ }
        },
        ControlPlaneFailure::Transport { connect, message, status_code } => if connect {
            ErrorView::ControlPlaneConnectionError { region: Seq::empty(), err: message@ }
        } else {
            ErrorView::ControlPlaneOperationError {
                err: message@,
                status_code: match status_code {
                    Some(code) => code@,
                    None => "unknown"@,
                },
            }
        },
        ControlPlaneFailure::Other(message) => ErrorView::Other(message@),
    }
}

impl PineconeClientError {
    /// The error for a failed call to the controller: an operation error
    /// for an error status, a connection error where no connection came
    /// about, an operation error with the status or `unknown` for another
    /// failure of the transport.
    pub fn from_failure(failure: ControlPlaneFailure) -> (r: PineconeClientError)
        ensures
            r@ == failure_error(failure),
    {
        match failure {
            ControlPlaneFailure::Response { content, status } => {
                PineconeClientError::ControlPlaneOperationError { err: content, status_code: status }
            },
            ControlPlaneFailure::Transport { connect, message, status_code } => {
                if connect {
                    PineconeClientError::ControlPlaneConnectionError {
                        region: String::new(),
                        err: message,
                    }
                } else {
                    PineconeClientError::ControlPlaneOperationError {
                        err: message,
                        status_code: match status_code {
                            Some(code) => code,
                            None => String::from_str("unknown"),
                        },
                    }
                }
            },
            ControlPlaneFailure::Other(message) => PineconeClientError::Other(message),
        }
    }

    /// This error with `region` as its region, where it is an error of the
    /// connection to the controller.
    pub fn with_region(self, region: &str) -> (r: PineconeClientError)
        ensures
            r@ == (match self@ {
                ErrorView::ControlPlaneConnectionError { region: _, err } => {
                    ErrorView::ControlPlaneConnectionError { region: region@, err }
                },
                other => other,
            }),
    {
        match self {
            PineconeClientError::ControlPlaneConnectionError { region: _, err } => {
                PineconeClientError::ControlPlaneConnectionError {
                    region: String::from_str(region),
                    err,
                }
            },
            other => other,
        }
    }
}

/// The state of an index, where its description has one.
pub open spec fn state_of(status: Option<IndexMetaStatus>) -> Option<String> {
    match status {
        Some(status) => status.state,
        None => None,
    }
}

/// Whether a metadata configuration is the one entry `indexed` with these
/// fields. Such a configuration names no entry twice.
pub open spec fn indexes(config: Vec<(String, Vec<String>)>, fields: Vec<String>) -> bool {
    config@.len() == 1 && config@[0].0@ == "indexed"@ && config@[0].1 == fields
}

/// The fields under the last entry `indexed` among the first `upto`.
pub open spec fn indexed_in(config: Seq<(String, Vec<String>)>, upto: int) -> Option<Vec<String>>
    decreases upto,
{
    if upto <= 0 || upto > config.len() {
        None
    } else if config[upto - 1].0@ == "indexed"@ {
        Some(config[upto - 1].1)
    } else {
        indexed_in(config, upto - 1)
    }
}

/// The fields that a metadata configuration holds under `indexed`. A
/// configuration names no entry twice; of one that does, the later entry
/// counts, as in a map that is filled in the order of the entries.
pub open spec fn indexed_of(config: Seq<(String, Vec<String>)>) -> Option<Vec<String>> {
    indexed_in(config, config.len() as int)
}

impl Db {
    /// The index that the controller describes. A description without
    /// configuration, without name or without dimension is refused, in this
    /// order.
    pub fn try_from(index_meta: IndexMeta) -> (r: Result<Db, PineconeClientError>)
        ensures
            match r {
                Ok(db) => {
                    &&& index_meta.database matches Some(described)
                    &&& described.name == Some(db.name)
                    &&& described.dimension == Some(db.dimension)
                    &&& db.metric == described.metric
                    &&& db.replicas == described.replicas
                    &&& db.shards == described.shards
                    &&& db.pods == described.pods
                    &&& db.pod_type == described.pod_type
                    &&& db.source_collection == described.source_collection
                    &&& db.status == state_of(index_meta.status)
                    &&& db.metadata_config matches Some(config) ==> distinct_names(config@)
                    &&& match described.metadata_config {
                        None => db.metadata_config is None,
                        Some(None) => db.metadata_config matches Some(config) && config@.len()
                            == 1 && config@[0].0@ == "indexed"@ && config@[0].1@.len() == 0,
                        Some(Some(fields)) => db.metadata_config matches Some(config) && indexes(
                            config,
                            fields,
                        ),
                    }
                },
                Err(e) => match index_meta.database {
                    None => e@ == ErrorView::Other("Failed to parse db"@),
                    Some(described) => if described.name is None {
                        e@ == ErrorView::ValueError("Failed to parse db name"@)
                    } else {
                        described.dimension is None && e@ == ErrorView::Other(
                            "Failed to parse db dimension"@,
                        )
                    },
                },
            },
    {
        let status = match index_meta.status {
            Some(status) => status.state,
            None => None,
        };
        match index_meta.database {
            Some(db) => {
                let name = match db.name {
                    Some(name) => name,
                    None => {
                        return Err(
                            PineconeClientError::ValueError(
                                String::from_str("Failed to parse db name"),
                            ),
                        );
                    },
                };
                let dimension = match db.dimension {
                    Some(dimension) => dimension,
                    None => {
                        return Err(
                            PineconeClientError::Other(
                                String::from_str("Failed to parse db dimension"),
                            ),
                        );
                    },
                };
                let metadata_config = match db.metadata_config {
                    Some(config) => {
                        let indexed = match config {
                            Some(fields) => fields,
                            None => Vec::new(),
                        };
                        let mut map: Vec<(String, Vec<String>)> = Vec::new();
                        map.push((String::from_str("indexed"), indexed));
                        Some(map)
                    },
                    None => None,
                };
                Ok(
                    Db {
                        name,
                        dimension,
                        replicas: db.replicas,
                        shards: db.shards,
                        pod_type: db.pod_type,
                        metric: db.metric,
                        pods: db.pods,
                        source_collection: db.source_collection,
                        metadata_config,
                        status,
                    },
                )
            },
            None => Err(PineconeClientError::Other(String::from_str("Failed to parse db"))),
        }
    }
}

/// The fields that a metadata configuration holds under `indexed`.
fn take_indexed(config: Vec<(String, Vec<String>)>) -> (r: Option<Vec<String>>)
    ensures
        r == indexed_of(config@),
{
    let ghost all = config@;
    let mut rest = config;
    loop
        invariant
            all == config@,
            rest@.len() <= all.len(),
            rest@ == all.subrange(0, rest@.len() as int),
            indexed_of(all) == indexed_in(all, rest@.len() as int),
        decreases rest@.len(),
    {
        let ghost before = rest@;
        match rest.pop() {
            None => {
                return None;
            },
            Some(entry) => {
                assert(entry == all[before.len() - 1]);
                assert(rest@ =~= all.subrange(0, rest@.len() as int));
                if crate::text::same_text(entry.0.as_str(), "indexed") {
                    return Some(entry.1);
                }
            },
        }
    }
}

impl CreateRequest {
    /// The request to create an index with this configuration. Of the
    /// metadata configuration the entry `indexed` goes into the request.
    pub fn from(index: Db) -> (r: CreateRequest)
        ensures
            r.name == index.name,
            r.dimension == index.dimension,
            r.replicas == index.replicas,
            r.pod_type == index.pod_type,
            r.metric == index.metric,
            r.pods == index.pods,
            r.shards == index.shards,
            r.source_collection == index.source_collection,
            r.metadata_config == (match index.metadata_config {
                Some(config) => Some(indexed_of(config@)),
                None => None,
            }),
    {
        CreateRequest {
            name: index.name,
            dimension: index.dimension,
            replicas: index.replicas,
            pod_type: index.pod_type,
            metric: index.metric,
            pods: index.pods,
            shards: index.shards,
            source_collection: index.source_collection,
            metadata_config: match index.metadata_config {
                Some(config) => Some(take_indexed(config)),
                None => None,
            },
        }
    }
}

impl CreateCollectionRequest {
    /// The request to create this collection.
    pub fn from(collection: Collection) -> (r: CreateCollectionRequest)
        ensures
            r.name == collection.name,
            r.source == collection.source,
    {
        CreateCollectionRequest { name: collection.name, source: collection.source }
    }
}

impl Collection {
    /// The collection that the controller describes. The description says
    /// nothing of the source and of the number of vectors.
    pub fn from(collection_meta: CollectionMeta) -> (r: Collection)
        requires
            collection_meta.name is Some,
        ensures
            Some(r.name) == collection_meta.name,
            r.source@.len() == 0,
            r.vector_count is None,
            r.size == collection_meta.size,
            r.status == collection_meta.status,
    {
        let name = match collection_meta.name {
            Some(name) => name,
            None => String::new(),
        };
        Collection {
            name,
            source: String::new(),
            vector_count: None,
            size: collection_meta.size,
            status: collection_meta.status,
        }
    }

    /// As [`Collection::from`], for any description: `None` where the
    /// description has no name.
    pub fn try_from(collection_meta: CollectionMeta) -> (r: Option<Collection>)
        ensures
            r is Some <==> collection_meta.name is Some,
            r matches Some(collection) ==> {
                &&& Some(collection.name) == collection_meta.name
                &&& collection.source@.len() == 0
                &&& collection.vector_count is None
                &&& collection.size == collection_meta.size
                &&& collection.status == collection_meta.status
            },
    {
        if collection_meta.name.is_some() {
            Some(Collection::from(collection_meta))
        } else {
            None
        }
    }
}

/// The address at which the controller says who the holder of a key is.
pub fn whoami_url(controller_url: &str) -> (r: String)
    ensures
        r@ == controller_url@ + "/actions/whoami"@,
{
    String::from_str(controller_url).concat("/actions/whoami")
}

/// Refuses an API key that is empty, before it is sent anywhere.
pub fn check_api_key(api_key: &str) -> (r: Result<(), PineconeClientError>)
    ensures
        api_key@.len() > 0 ==> r is Ok,
        api_key@.len() == 0 ==> (r matches Err(e) && e@ == ErrorView::ValueError(
            "Api key empty or not provided"@,
        )),
{
    if api_key.is_empty() {
        Err(PineconeClientError::ValueError(String::from_str("Api key empty or not provided")))
    } else {
        Ok(())
    }
}

} // verus!
