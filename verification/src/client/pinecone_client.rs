//! The settings of a client: the API key, the region, and the addresses
//! that follow from them.

use crate::utils::errors::{ErrorView, PineconeClientError};
use vstd::prelude::*;
use vstd::string::*;

verus! {

/// The region of a client for which none is named anywhere.
pub open spec fn default_region() -> Seq<char> {
    "us-west1-gcp"@
}

/// The API key of a client: the one given, else the one of the environment.
pub fn resolve_api_key(given: Option<&str>, environment: Option<String>) -> (r: Result<
    String,
    PineconeClientError,
>)
    ensures
        match given {
            Some(key) => r matches Ok(found) && found@ == key@,
            None => match environment {
                Some(key) => r matches Ok(found) && found@ == key@,
                None => r matches Err(e) && e@ == ErrorView::ValueError(
                    "Please provide a valid API key or set the 'PINECONE_API_KEY' environment variable"@,
                ),
            },
        },
{
    match given {
        Some(key) => Ok(String::from_str(key)),
        None => match environment {
            Some(key) => Ok(key),
            None => Err(
                PineconeClientError::ValueError(
                    String::from_str(
                        "Please provide a valid API key or set the 'PINECONE_API_KEY' environment variable",
                    ),
                ),
            ),
        },
    }
}

/// The region that is named: the one given, else the one of the
/// environment, else the default.
pub open spec fn named_region(given: Option<&str>, environment: Option<String>) -> Seq<char> {
    match given {
        Some(region) => region@,
        None => match environment {
            Some(region) => region@,
            None => default_region(),
        },
    }
}

/// The region of a client. An empty region is refused.
pub fn resolve_region(given: Option<&str>, environment: Option<String>) -> (r: Result<
    String,
    PineconeClientError,
>)
    ensures
        named_region(given, environment).len() > 0 ==> (r matches Ok(region) && region@
            == named_region(given, environment)),
        named_region(given, environment).len() == 0 ==> (r matches Err(e) && e@
            == ErrorView::ValueError(
            "Please provide a valid region or set the 'PINECONE_REGION' environment variable"@,
        )),
{
    let region = match given {
        Some(region) => String::from_str(region),
        None => match environment {
            Some(region) => region,
            None => String::from_str("us-west1-gcp"),
        },
    };
    if region.as_str().is_empty() {
        return Err(
            PineconeClientError::ValueError(
                String::from_str(
                    "Please provide a valid region or set the 'PINECONE_REGION' environment variable",
                ),
            ),
        );
    }
    Ok(region)
}

/// The address of the controller of a region.
pub fn get_controller_url(region: &str) -> (r: String)
    ensures
        r@ == "https://controller."@ + region@ + ".pinecone.io"@,
{
    String::from_str("https://controller.").concat(region).concat(".pinecone.io")
}

/// The address of an index of a project in a region.
pub fn get_index_url(index_name: &str, project_id: &str, region: &str) -> (r: String)
    ensures
        r@ == "https://"@ + index_name@ + "-"@ + project_id@ + ".svc."@ + region@
            + ".pinecone.io:443"@,
{
    String::from_str("https://").concat(index_name).concat("-").concat(project_id).concat(
        ".svc.",
    ).concat(region).concat(".pinecone.io:443")
}

/// The error for an index that could not be reached.
pub fn index_connection_error(index_name: &str, cause: String) -> (r: PineconeClientError)
    ensures
        r@ == (ErrorView::IndexConnectionError { index: index_name@, err: cause@ }),
{
    PineconeClientError::IndexConnectionError { index: String::from_str(index_name), err: cause }
}

} // verus!
