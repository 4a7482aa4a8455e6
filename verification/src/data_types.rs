//! The records that the client hands to the store and takes from it.

use crate::metadata::{Float32, MetadataMap, MetadataTree};
use vstd::prelude::*;

verus! {

/// The sparse part of a vector: `values[i]` belongs to dimension
/// `indices[i]`. That the two are equally long is for the store to check.
#[derive(Clone, Debug, PartialEq, Eq)]
pub struct SparseValues {
    pub indices: Vec<u32>,
    pub values: Vec<Float32>,
}

/// A [`SparseValues`] as a pair of sequences.
pub struct SparseValuesView {
    pub indices: Seq<u32>,
    pub values: Seq<Float32>,
}

impl View for SparseValues {
    type V = SparseValuesView;

    open spec fn view(&self) -> SparseValuesView {
        SparseValuesView { indices: self.indices@, values: self.values@ }
    }
}

impl SparseValues {
    pub fn new(indices: Vec<u32>, values: Vec<Float32>) -> (r: Self)
        ensures
            r@ == (SparseValuesView { indices: indices@, values: values@ }),
    {
        Self { indices, values }
    }
}

/// A vector record in the form in which the store takes it. The store takes
/// no record with an empty id: a batch is normalized before it is sent, and
/// normalization refuses such a record, whatever its shape. The constructor
/// and the fields themselves put no bound on the id.
#[derive(Clone, Debug, PartialEq, Eq)]
pub struct Vector {
    pub id: String,
    pub values: Vec<Float32>,
    pub sparse_values: Option<SparseValues>,
    pub metadata: Option<MetadataMap>,
}

/// A [`Vector`] with its texts, lists and metadata as mathematical values.
pub struct VectorView {
    pub id: Seq<char>,
    pub values: Seq<Float32>,
    pub sparse_values: Option<SparseValuesView>,
    pub metadata: Option<Seq<(Seq<char>, MetadataTree)>>,
}

/// The view of an optional sparse part.
pub open spec fn sparse_view(sparse_values: Option<SparseValues>) -> Option<SparseValuesView> {
    match sparse_values {
        Some(sparse) => Some(sparse@),
        None => None,
    }
}

/// The view of optional metadata.
pub open spec fn metadata_view(metadata: Option<MetadataMap>) -> Option<
    Seq<(Seq<char>, MetadataTree)>,
> {
    match metadata {
        Some(map) => Some(map@),
        None => None,
    }
}

impl View for Vector {
    type V = VectorView;

    open spec fn view(&self) -> VectorView {
        VectorView {
            id: self.id@,
            values: self.values@,
            sparse_values: sparse_view(self.sparse_values),
            metadata: metadata_view(self.metadata),
        }
    }
}

impl Vector {
    pub fn new(
        id: String,
        values: Vec<Float32>,
        sparse_values: Option<SparseValues>,
        metadata: Option<MetadataMap>,
    ) -> (r: Self)
        ensures
            r@ == (VectorView {
                id: id@,
                values: values@,
                sparse_values: sparse_view(sparse_values),
                metadata: metadata_view(metadata),
            }),
    {
        Self { id, values, sparse_values, metadata }
    }
}

/// What the store answers to an upsert.
#[derive(Clone, Copy, Debug, PartialEq, Eq, Structural)]
pub struct UpsertResponse {
    pub upserted_count: u32,
}

/// One match of a query.
#[derive(Clone, Debug, PartialEq, Eq)]
pub struct QueryResult {
    pub id: String,
    pub score: Float32,
    pub values: Option<Vec<Float32>>,
    pub sparse_values: Option<SparseValues>,
    pub metadata: Option<MetadataMap>,
}

/// A [`QueryResult`] with its texts, lists and metadata as mathematical values.
pub struct QueryResultView {
    pub id: Seq<char>,
    pub score: Float32,
    pub values: Option<Seq<Float32>>,
    pub sparse_values: Option<SparseValuesView>,
    pub metadata: Option<Seq<(Seq<char>, MetadataTree)>>,
}

impl View for QueryResult {
    type V = QueryResultView;

    open spec fn view(&self) -> QueryResultView {
        QueryResultView {
            id: self.id@,
            score: self.score,
            values: match self.values {
                Some(values) => Some(values@),
                None => None,
            },
            sparse_values: sparse_view(self.sparse_values),
            metadata: metadata_view(self.metadata),
        }
    }
}

/// Who the controller says the holder of an API key is.
#[derive(Clone, Debug, PartialEq, Eq)]
pub struct WhoamiResponse {
    pub project_name: String,
    pub user_label: String,
    pub user_name: String,
}

/// The statistics of one namespace.
#[derive(Clone, Copy, Debug, PartialEq, Eq, Structural)]
pub struct NamespaceStats {
    pub vector_count: u32,
}

/// No name occurs twice in a list of named values: the list stands for a
/// map from names to values.
pub open spec fn distinct_names<V>(pairs: Seq<(String, V)>) -> bool {
    forall|i: int, j: int|
        0 <= i < j < pairs.len() ==> (#[trigger] pairs[i]).0@ != (#[trigger] pairs[j]).0@
}

/// The statistics of an index, with those of each namespace by its name.
#[derive(Clone, Debug, PartialEq, Eq)]
pub struct IndexStats {
    /// The statistics of each namespace, by its name. The store names no
    /// namespace twice ([`distinct_names`]); nothing here reads the list.
    pub namespaces: Vec<(String, NamespaceStats)>,
    pub dimension: u32,
    pub index_fullness: Float32,
    pub total_vector_count: u32,
}

/// The configuration of an index and, once the controller has reported on
/// the index, its status.
#[derive(Clone, Debug, Default, PartialEq, Eq)]
pub struct Db {
    pub name: String,
    pub dimension: i32,
    pub metric: Option<String>,
    pub replicas: Option<i32>,
    pub shards: Option<i32>,
    pub pods: Option<i32>,
    pub source_collection: Option<String>,
    /// The metadata configuration, by the names of its entries. It names no
    /// entry twice ([`distinct_names`]); of a list that does, the later entry
    /// counts.
    pub metadata_config: Option<Vec<(String, Vec<String>)>>,
    pub pod_type: Option<String>,
    pub status: Option<String>,
}

/// A collection: a static copy of an index.
#[derive(Clone, Debug, Default, PartialEq, Eq)]
pub struct Collection {
    pub name: String,
    pub source: String,
    pub vector_count: Option<i32>,
    pub size: Option<i32>,
    pub status: Option<String>,
}

} // verus!
