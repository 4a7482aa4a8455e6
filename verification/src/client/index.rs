//! The checks that an index makes on its calls and on their answers.

use crate::data_types::UpsertResponse;
use crate::text::{decimal, decimal_string};
use crate::utils::errors::{ErrorView, PineconeClientError};
use vstd::prelude::*;
use vstd::string::*;

verus! {

/// The kind of exception with which the host learns of an error.
#[derive(Clone, Copy, Debug, PartialEq, Eq, Structural)]
pub enum ExceptionKind {
    Value,
    Connection,
    Operation,
    Io,
    Runtime,
    KeyboardInterrupt,
}

/// The kind of exception for each error.
pub open spec fn kind_of(e: ErrorView) -> ExceptionKind {
    match e {
        ErrorView::ArgumentError { .. } => ExceptionKind::Value,
        ErrorView::ValueError(_) => ExceptionKind::Value,
        ErrorView::UpsertKeyError { .. } => ExceptionKind::Value,
        ErrorView::UpsertValueError { .. } => ExceptionKind::Value,
        ErrorView::UpsertExcessKeysError { .. } => ExceptionKind::Value,
        ErrorView::MetadataValueError { .. } => ExceptionKind::Value,
        ErrorView::MetadataError { .. } => ExceptionKind::Value,
        ErrorView::ControlPlaneConnectionError { .. } => ExceptionKind::Connection,
        ErrorView::IndexConnectionError { .. } => ExceptionKind::Connection,
        ErrorView::DataplaneOperationError(_) => ExceptionKind::Operation,
        ErrorView::ControlPlaneOperationError { .. } => ExceptionKind::Operation,
        ErrorView::ControlPlaneParsingError => ExceptionKind::Operation,
        ErrorView::DeserializationError(_) => ExceptionKind::Operation,
        ErrorView::IoError(_) => ExceptionKind::Io,
        ErrorView::Other(_) => ExceptionKind::Runtime,
        ErrorView::OperationTimeout(_) => ExceptionKind::Runtime,
        ErrorView::KeyboardInterrupt(_) => ExceptionKind::KeyboardInterrupt,
    }
}

/// The kind of exception with which the host learns of `e`.
pub fn exception_kind(e: &PineconeClientError) -> (r: ExceptionKind)
    ensures
        r == kind_of(e@),
{
    match e {
        PineconeClientError::ArgumentError { .. } => ExceptionKind::Value,
        PineconeClientError::ValueError(_) => ExceptionKind::Value,
        PineconeClientError::UpsertKeyError { .. } => ExceptionKind::Value,
        PineconeClientError::UpsertValueError { .. } => ExceptionKind::Value,
        PineconeClientError::UpsertExcessKeysError { .. } => ExceptionKind::Value,
        PineconeClientError::MetadataValueError { .. } => ExceptionKind::Value,
        PineconeClientError::MetadataError { .. } => ExceptionKind::Value,
        PineconeClientError::ControlPlaneConnectionError { .. } => ExceptionKind::Connection,
        PineconeClientError::IndexConnectionError { .. } => ExceptionKind::Connection,
        PineconeClientError::DataplaneOperationError(_) => ExceptionKind::Operation,
        PineconeClientError::ControlPlaneOperationError { .. } => ExceptionKind::Operation,
        PineconeClientError::ControlPlaneParsingError => ExceptionKind::Operation,
        PineconeClientError::DeserializationError(_) => ExceptionKind::Operation,
        PineconeClientError::IoError(_) => ExceptionKind::Io,
        PineconeClientError::Other(_) => ExceptionKind::Runtime,
        PineconeClientError::OperationTimeout(_) => ExceptionKind::Runtime,
        PineconeClientError::KeyboardInterrupt(_) => ExceptionKind::KeyboardInterrupt,
    }
}

/// The answer to an upsert of `sent` vectors of which the store took
/// `upserted_count`: the count where it took them all, and else an error.
pub fn check_upsert_count(upserted_count: u32, sent: usize) -> (r: Result<
    UpsertResponse,
    PineconeClientError,
>)
    ensures
        upserted_count == sent ==> r == Ok::<UpsertResponse, PineconeClientError>(
            UpsertResponse { upserted_count },
        ),
        upserted_count != sent ==> (r matches Err(e) && e@ == ErrorView::Other(
            "Failed to upsert all vectors. Upserted "@ + decimal(upserted_count as nat)
                + " out of "@ + decimal(sent as nat) + " vectors"@,
        )),
{
    if upserted_count as usize != sent {
        let taken = decimal_string(upserted_count as u64);
        let given = decimal_string(sent as u64);
        return Err(
            PineconeClientError::Other(
                String::from_str("Failed to upsert all vectors. Upserted ").concat(
                    taken.as_str(),
                ).concat(" out of ").concat(given.as_str()).concat(" vectors"),
            ),
        );
    }
    Ok(UpsertResponse { upserted_count })
}

/// The number of results to ask for, where the caller asks for at least one.
pub fn check_top_k(top_k: i32) -> (r: Result<u32, PineconeClientError>)
    ensures
        top_k >= 1 ==> r == Ok::<u32, PineconeClientError>(top_k as u32),
        top_k < 1 ==> (r matches Err(e) && e@ == ErrorView::ValueError(
            "top_k must be greater than 0"@,
        )),
{
    if top_k < 1 {
        return Err(PineconeClientError::ValueError(String::from_str("top_k must be greater than 0")));
    }
    Ok(top_k as u32)
}

/// Refuses a change of scale that changes nothing.
pub fn check_scale(replicas: Option<i32>, pod_type: &Option<String>) -> (r: Result<
    (),
    PineconeClientError,
>)
    ensures
        replicas is Some || pod_type is Some ==> r is Ok,
        replicas is None && pod_type is None ==> (r matches Err(e) && e@
            == ErrorView::ValueError("At least one of replicas or pod_type must be set"@)),
{
    if replicas.is_none() && pod_type.is_none() {
        return Err(
            PineconeClientError::ValueError(
                String::from_str("At least one of replicas or pod_type must be set"),
            ),
        );
    }
    Ok(())
}

} // verus!
