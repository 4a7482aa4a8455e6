//! The records of the data plane, and the client's records to and from
//! them.

use crate::data_types::{QueryResult, SparseValues, Vector};
use crate::metadata::{Float32, MetadataMap, MetadataTree};
use crate::utils::conversions::{
    decode_struct, encode_entries, hashmap_to_prost_struct, prost_struct_to_hashmap,
};
use crate::utils::errors::{ErrorView, PineconeClientError};
use crate::wire::WireStruct;
use vstd::prelude::*;

verus! {

/// Sparse values as the data plane holds them.
#[derive(Clone, Debug, PartialEq, Eq)]
pub struct GrpcSparseValues {
    pub indices: Vec<u32>,
    pub values: Vec<Float32>,
}

/// A vector as the data plane holds it.
#[derive(Clone, Debug, PartialEq, Eq)]
pub struct GrpcVector {
    pub id: String,
    pub values: Vec<Float32>,
    pub sparse_values: Option<GrpcSparseValues>,
    pub metadata: Option<WireStruct>,
}

/// One match of a query as the data plane gives it.
#[derive(Clone, Debug, PartialEq, Eq)]
pub struct GrpcScoredVector {
    pub id: String,
    pub score: Float32,
    pub values: Vec<Float32>,
    pub sparse_values: Option<GrpcSparseValues>,
    pub metadata: Option<WireStruct>,
}

/// The sparse values say the same.
pub open spec fn same_sparse(ours: Option<SparseValues>, theirs: Option<GrpcSparseValues>) -> bool {
    match (ours, theirs) {
        (Some(a), Some(b)) => a.indices == b.indices && a.values == b.values,
        (None, None) => true,
        _ => false,
    }
}

/// The wire metadata is the encoding of the metadata.
pub open spec fn encodes(wire: Option<WireStruct>, metadata: Option<MetadataMap>) -> bool {
    match (wire, metadata) {
        (Some(fields), Some(map)) => fields@ == encode_entries(map@),
        (None, None) => true,
        _ => false,
    }
}

/// What the wire metadata decodes to.
pub open spec fn decoded_metadata(wire: Option<WireStruct>) -> Result<
    Option<Seq<(Seq<char>, MetadataTree)>>,
    ErrorView,
> {
    match wire {
        None => Ok(None),
        Some(fields) => match decode_struct(fields@) {
            Ok(entries) => Ok(Some(entries)),
            Err(e) => Err(e),
        },
    }
}

impl GrpcSparseValues {
    pub fn from(value: SparseValues) -> (r: GrpcSparseValues)
        ensures
            r.indices == value.indices,
            r.values == value.values,
    {
        GrpcSparseValues { indices: value.indices, values: value.values }
    }
}

impl SparseValues {
    pub fn from(value: GrpcSparseValues) -> (r: SparseValues)
        ensures
            r.indices == value.indices,
            r.values == value.values,
    {
        SparseValues { indices: value.indices, values: value.values }
    }
}

fn sparse_to_grpc(sparse_values: Option<SparseValues>) -> (r: Option<GrpcSparseValues>)
    ensures
        same_sparse(sparse_values, r),
{
    match sparse_values {
        Some(sparse) => Some(GrpcSparseValues::from(sparse)),
        None => None,
    }
}

fn sparse_from_grpc(sparse_values: Option<GrpcSparseValues>) -> (r: Option<SparseValues>)
    ensures
        same_sparse(r, sparse_values),
{
    match sparse_values {
        Some(sparse) => Some(SparseValues::from(sparse)),
        None => None,
    }
}

fn metadata_from_grpc(metadata: Option<WireStruct>) -> (r: Result<
    Option<MetadataMap>,
    PineconeClientError,
>)
    ensures
        match r {
            Ok(decoded) => decoded_metadata(metadata) == Ok::<
                Option<Seq<(Seq<char>, MetadataTree)>>,
                ErrorView,
            >(crate::data_types::metadata_view(decoded)),
            Err(e) => decoded_metadata(metadata) == Err::<
                Option<Seq<(Seq<char>, MetadataTree)>>,
                ErrorView,
            >(e@),
        },
{
    match metadata {
        None => Ok(None),
        Some(fields) => match prost_struct_to_hashmap(&fields) {
            Ok(map) => Ok(Some(map)),
            Err(e) => Err(e),
        },
    }
}

impl GrpcVector {
    /// The vector as the data plane takes it, with its metadata encoded.
    pub fn from(vector: Vector) -> (r: GrpcVector)
        ensures
            r.id == vector.id,
            r.values == vector.values,
            same_sparse(vector.sparse_values, r.sparse_values),
            encodes(r.metadata, vector.metadata),
    {
        let metadata = match &vector.metadata {
            Some(map) => Some(hashmap_to_prost_struct(map)),
            None => None,
        };
        GrpcVector {
            id: vector.id,
            values: vector.values,
            sparse_values: sparse_to_grpc(vector.sparse_values),
            metadata,
        }
    }
}

impl Vector {
    /// The vector that the data plane holds, with its metadata decoded; the
    /// error of the codec where the metadata does not decode.
    pub fn try_from_grpc(grpc_vector: GrpcVector) -> (r: Result<Vector, PineconeClientError>)
        ensures
            match r {
                Ok(vector) => {
                    &&& vector.id == grpc_vector.id
                    &&& vector.values == grpc_vector.values
                    &&& same_sparse(vector.sparse_values, grpc_vector.sparse_values)
                    &&& decoded_metadata(grpc_vector.metadata) == Ok::<
                        Option<Seq<(Seq<char>, MetadataTree)>>,
                        ErrorView,
                    >(crate::data_types::metadata_view(vector.metadata))
                },
                Err(e) => decoded_metadata(grpc_vector.metadata) == Err::<
                    Option<Seq<(Seq<char>, MetadataTree)>>,
                    ErrorView,
                >(e@),
            },
    {
        let metadata = match metadata_from_grpc(grpc_vector.metadata) {
            Ok(metadata) => metadata,
            Err(e) => {
                return Err(e);
            },
        };
        Ok(
            Vector {
                id: grpc_vector.id,
                values: grpc_vector.values,
                sparse_values: sparse_from_grpc(grpc_vector.sparse_values),
                metadata,
            },
        )
    }
}

impl QueryResult {
    /// The match that the data plane gives, with its metadata decoded and
    /// with no values in place of an empty list of them; the error of the
    /// codec where the metadata does not decode.
    pub fn try_from(grpc_vector: GrpcScoredVector) -> (r: Result<QueryResult, PineconeClientError>)
        ensures
            match r {
                Ok(found) => {
                    &&& found.id == grpc_vector.id
                    &&& found.score == grpc_vector.score
                    &&& grpc_vector.values@.len() == 0 ==> found.values is None
                    &&& grpc_vector.values@.len() > 0 ==> found.values == Some(grpc_vector.values)
                    &&& same_sparse(found.sparse_values, grpc_vector.sparse_values)
                    &&& decoded_metadata(grpc_vector.metadata) == Ok::<
                        Option<Seq<(Seq<char>, MetadataTree)>>,
                        ErrorView,
                    >(crate::data_types::metadata_view(found.metadata))
                },
                Err(e) => decoded_metadata(grpc_vector.metadata) == Err::<
                    Option<Seq<(Seq<char>, MetadataTree)>>,
                    ErrorView,
                >(e@),
            },
    {
        let metadata = match metadata_from_grpc(grpc_vector.metadata) {
            Ok(metadata) => metadata,
            Err(e) => {
                return Err(e);
            },
        };
        let values = if grpc_vector.values.len() == 0 {
            None
        } else {
            Some(grpc_vector.values)
        };
        Ok(
            QueryResult {
                id: grpc_vector.id,
                score: grpc_vector.score,
                values,
                sparse_values: sparse_from_grpc(grpc_vector.sparse_values),
                metadata,
            },
        )
    }
}

} // verus!
