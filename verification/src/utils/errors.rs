//! The error type of the client, its mathematical view, and the message each
//! error shows to a user.

use crate::text::{debug_quoted, decimal, decimal_string, quote};
use vstd::prelude::*;
use vstd::string::*;

verus! {

/// Everything that can go wrong in the client.
#[derive(Clone, Debug, PartialEq, Eq)]
pub enum PineconeClientError {
    /// A call-site argument has a value that is never acceptable; `expected`
    /// says which values are.
    ArgumentError { name: String, found: String, expected: String },
    /// A value is unusable; the text says why.
    ValueError(String),
    /// The record at `vec_num` lacks the required field `key`.
    UpsertKeyError { key: String, vec_num: usize },
    /// The field `key` of the record at `vec_num` has the wrong shape.
    UpsertValueError { key: String, vec_num: usize, expected_type: String, actual: String },
    /// The record at `vec_num` has fields that no record may have.
    UpsertExcessKeysError { keys: Vec<String>, vec_num: usize },
    /// The controller of `region` could not be reached.
    ControlPlaneConnectionError { region: String, err: String },
    /// The index could not be reached.
    IndexConnectionError { index: String, err: String },
    /// The data plane refused an operation; the text is its status.
    DataplaneOperationError(String),
    /// An input or output operation failed.
    IoError(String),
    /// A metadata value of a kind that the store does not take.
    MetadataValueError { val_type: String },
    /// A metadata value of a kind that the store does not take, under `key`.
    MetadataError { key: String, val_type: String },
    /// A failure that fits no other variant.
    Other(String),
    /// The controller answered with an error status.
    ControlPlaneOperationError { err: String, status_code: String },
    /// The controller's answer had no readable content.
    ControlPlaneParsingError,
    /// A response body could not be deserialized.
    DeserializationError(String),
    /// Waiting ran past its deadline.
    OperationTimeout(String),
    /// The user interrupted a wait.
    KeyboardInterrupt(String),
}

/// A [`PineconeClientError`] with its texts as sequences of characters.
pub enum ErrorView {
    ArgumentError { name: Seq<char>, found: Seq<char>, expected: Seq<char> },
    ValueError(Seq<char>),
    UpsertKeyError { key: Seq<char>, vec_num: nat },
    UpsertValueError { key: Seq<char>, vec_num: nat, expected_type: Seq<char>, actual: Seq<char> },
    UpsertExcessKeysError { keys: Seq<Seq<char>>, vec_num: nat },
    ControlPlaneConnectionError { region: Seq<char>, err: Seq<char> },
    IndexConnectionError { index: Seq<char>, err: Seq<char> },
    DataplaneOperationError(Seq<char>),
    IoError(Seq<char>),
    MetadataValueError { val_type: Seq<char> },
    MetadataError { key: Seq<char>, val_type: Seq<char> },
    Other(Seq<char>),
    ControlPlaneOperationError { err: Seq<char>, status_code: Seq<char> },
    ControlPlaneParsingError,
    DeserializationError(Seq<char>),
    OperationTimeout(Seq<char>),
    KeyboardInterrupt(Seq<char>),
}

impl View for PineconeClientError {
    type V = ErrorView;

    open spec fn view(&self) -> ErrorView {
        match *self {
            PineconeClientError::ArgumentError { name, found, expected } => {
                ErrorView::ArgumentError { name: name@, found: found@, expected: expected@ }
            },
            PineconeClientError::ValueError(text) => ErrorView::ValueError(text@),
            PineconeClientError::UpsertKeyError { key, vec_num } => ErrorView::UpsertKeyError {
                key: key@,
                vec_num: vec_num as nat,
            },
            PineconeClientError::UpsertValueError { key, vec_num, expected_type, actual } => {
                ErrorView::UpsertValueError {
                    key: key@,
                    vec_num: vec_num as nat,
                    expected_type: expected_type@,
                    actual: actual@,
                }
            },
            PineconeClientError::UpsertExcessKeysError { keys, vec_num } => {
                ErrorView::UpsertExcessKeysError { keys: keys.deep_view(), vec_num: vec_num as nat }
            },
            PineconeClientError::ControlPlaneConnectionError { region, err } => {
                ErrorView::ControlPlaneConnectionError { region: region@, err: err@ }
            },
            PineconeClientError::IndexConnectionError { index, err } => {
                ErrorView::IndexConnectionError { index: index@, err: err@ }
            },
            PineconeClientError::DataplaneOperationError(text) => {
                ErrorView::DataplaneOperationError(text@)
            },
            PineconeClientError::IoError(text) => ErrorView::IoError(text@),
            PineconeClientError::MetadataValueError { val_type } => ErrorView::MetadataValueError {
                val_type: val_type@,
            },
            PineconeClientError::MetadataError { key, val_type } => ErrorView::MetadataError {
                key: key@,
                val_type: val_type@,
            },
            PineconeClientError::Other(text) => ErrorView::Other(text@),
            PineconeClientError::ControlPlaneOperationError { err, status_code } => {
                ErrorView::ControlPlaneOperationError { err: err@, status_code: status_code@ }
            },
            PineconeClientError::ControlPlaneParsingError => ErrorView::ControlPlaneParsingError,
            PineconeClientError::DeserializationError(text) => ErrorView::DeserializationError(
                text@,
            ),
            PineconeClientError::OperationTimeout(text) => ErrorView::OperationTimeout(text@),
            PineconeClientError::KeyboardInterrupt(text) => ErrorView::KeyboardInterrupt(text@),
        }
    }
}

/// Where a user finds the metadata types that the store takes.
pub open spec fn metadata_help() -> Seq<char> {
    ". Please see https://docs.pinecone.io/docs/metadata-filtering#supported-metadata-types for allowed metadata types"@
}

/// The opening of every message about one record of a batch.
pub open spec fn record_prefix(vec_num: nat) -> Seq<char> {
    "Error in vector number "@ + decimal(vec_num) + ": "@
}

/// The keys of `keys` from `from` on, each quoted, with `, ` between them.
pub open spec fn quoted_keys_from(keys: Seq<Seq<char>>, from: int) -> Seq<char>
    decreases keys.len() - from,
{
    if from < 0 || from >= keys.len() {
        Seq::empty()
    } else if from == keys.len() - 1 {
        debug_quoted(keys[from])
    } else {
        debug_quoted(keys[from]) + ", "@ + quoted_keys_from(keys, from + 1)
    }
}

/// A list of keys as `Debug` formatting shows a list of strings.
pub open spec fn quoted_list(keys: Seq<Seq<char>>) -> Seq<char> {
    "["@ + quoted_keys_from(keys, 0) + "]"@
}

/// The message that an error shows to a user.
pub open spec fn message_of(e: ErrorView) -> Seq<char> {
    match e {
        ErrorView::ArgumentError { name, found, expected } => "Invalid value for argument "@
            + name + ": "@ + debug_quoted(found) + "). Expected "@ + expected,
        ErrorView::ValueError(text) => "`"@ + text + "`"@,
        ErrorView::UpsertKeyError { key, vec_num } => record_prefix(vec_num) + "Missing key '"@
            + key + "'"@,
        ErrorView::UpsertValueError { key, vec_num, expected_type, actual } => record_prefix(
            vec_num,
        ) + "Found unexpected value for '"@ + key + "'. Expected a "@ + expected_type
            + ", found: "@ + actual,
        ErrorView::UpsertExcessKeysError { keys, vec_num } => record_prefix(vec_num)
            + "Found unexpected keys: "@ + quoted_list(keys),
        ErrorView::ControlPlaneConnectionError { region, err } =>
            "Failed to connect to Pinecone's controller on region "@ + region
            + ". Please verify client configuration: API key, region and project_id. See more info: https://docs.pinecone.io/docs/quickstart#2-get-and-verify-your-pinecone-api-key\nUnderlying Error: "@
            + err,
        ErrorView::IndexConnectionError { index, err } => "Failed to connect to index '"@ + index
            + "'. Please verify that an index with that name exists using `client.list_indexes()`. \nUnderlying Error: "@
            + err,
        ErrorView::DataplaneOperationError(text) => text,
        ErrorView::IoError(text) => text,
        ErrorView::MetadataValueError { val_type } => "Unsupported metadata value "@ + val_type
            + metadata_help(),
        ErrorView::MetadataError { key, val_type } => "Unsupported metadata value for key "@ + key
            + ": found value of type "@ + val_type + metadata_help(),
        ErrorView::Other(text) => "`"@ + text + "`"@,
        ErrorView::ControlPlaneOperationError { err, status_code } =>
            "Operation failed with error code "@ + status_code + ". \nUnderlying Error: "@ + err,
        ErrorView::ControlPlaneParsingError => "Failed to parse response contents"@,
        ErrorView::DeserializationError(text) => text,
        ErrorView::OperationTimeout(text) => "`"@ + text + "`"@,
        ErrorView::KeyboardInterrupt(text) => "`"@ + text + "`"@,
    }
}

fn metadata_help_string() -> (r: &'static str)
    ensures
        r@ == metadata_help(),
{
    ". Please see https://docs.pinecone.io/docs/metadata-filtering#supported-metadata-types for allowed metadata types"
}

/// The opening of a message about the record at `vec_num`.
pub fn record_prefix_string(vec_num: usize) -> (r: String)
    ensures
        r@ == record_prefix(vec_num as nat),
{
    let number = decimal_string(vec_num as u64);
    String::from_str("Error in vector number ").concat(number.as_str()).concat(": ")
}

fn backticked(text: &str) -> (r: String)
    ensures
        r@ == "`"@ + text@ + "`"@,
{
    String::from_str("`").concat(text).concat("`")
}

fn quoted_list_string(keys: &Vec<String>) -> (r: String)
    ensures
        r@ == quoted_list(keys.deep_view()),
{
    let ghost all = keys.deep_view();
    let mut inner = String::new();
    let mut i: usize = keys.len();
    while i > 0
        invariant
            i <= keys.len(),
            all == keys.deep_view(),
            inner@ == quoted_keys_from(all, i as int),
        decreases i,
    {
        i = i - 1;
        let quoted = quote(keys[i].as_str());
        assert(all[i as int] == keys[i as int]@);
        if i + 1 == keys.len() {
            assert(inner@ =~= Seq::<char>::empty());
            inner = quoted;
        } else {
            inner = quoted.concat(", ").concat(inner.as_str());
        }
    }
    let r = String::from_str("[").concat(inner.as_str()).concat("]");
    r
}

impl PineconeClientError {
    /// The message that this error shows to a user.
    pub fn message(&self) -> (r: String)
        ensures
            r@ == message_of(self@),
    {
        match self {
            PineconeClientError::ArgumentError { name, found, expected } => {
                let quoted = quote(found.as_str());
                String::from_str("Invalid value for argument ").concat(name.as_str()).concat(
                    ": ",
                ).concat(quoted.as_str()).concat("). Expected ").concat(expected.as_str())
            },
            PineconeClientError::ValueError(text) => backticked(text.as_str()),
            PineconeClientError::UpsertKeyError { key, vec_num } => {
                record_prefix_string(*vec_num).concat("Missing key '").concat(key.as_str()).concat(
                    "'",
                )
            },
            PineconeClientError::UpsertValueError { key, vec_num, expected_type, actual } => {
                record_prefix_string(*vec_num).concat("Found unexpected value for '").concat(
                    key.as_str(),
                ).concat("'. Expected a ").concat(expected_type.as_str()).concat(
                    ", found: ",
                ).concat(actual.as_str())
            },
            PineconeClientError::UpsertExcessKeysError { keys, vec_num } => {
                let list = quoted_list_string(keys);
                record_prefix_string(*vec_num).concat("Found unexpected keys: ").concat(
                    list.as_str(),
                )
            },
            PineconeClientError::ControlPlaneConnectionError { region, err } => {
                String::from_str("Failed to connect to Pinecone's controller on region ").concat(
                    region.as_str(),
                ).concat(
                    ". Please verify client configuration: API key, region and project_id. See more info: https://docs.pinecone.io/docs/quickstart#2-get-and-verify-your-pinecone-api-key\nUnderlying Error: ",
                ).concat(err.as_str())
            },
            PineconeClientError::IndexConnectionError { index, err } => {
                String::from_str("Failed to connect to index '").concat(index.as_str()).concat(
                    "'. Please verify that an index with that name exists using `client.list_indexes()`. \nUnderlying Error: ",
                ).concat(err.as_str())
            },
            PineconeClientError::DataplaneOperationError(text) => text.clone(),
            PineconeClientError::IoError(text) => text.clone(),
            PineconeClientError::MetadataValueError { val_type } => {
                String::from_str("Unsupported metadata value ").concat(val_type.as_str()).concat(
                    metadata_help_string(),
                )
            },
            PineconeClientError::MetadataError { key, val_type } => {
                String::from_str("Unsupported metadata value for key ").concat(
                    key.as_str(),
                ).concat(": found value of type ").concat(val_type.as_str()).concat(
                    metadata_help_string(),
                )
            },
            PineconeClientError::Other(text) => backticked(text.as_str()),
            PineconeClientError::ControlPlaneOperationError { err, status_code } => {
                String::from_str("Operation failed with error code ").concat(
                    status_code.as_str(),
                ).concat(". \nUnderlying Error: ").concat(err.as_str())
            },
            PineconeClientError::ControlPlaneParsingError => String::from_str(
                "Failed to parse response contents",
            ),
            PineconeClientError::DeserializationError(text) => text.clone(),
            PineconeClientError::OperationTimeout(text) => backticked(text.as_str()),
            PineconeClientError::KeyboardInterrupt(text) => backticked(text.as_str()),
        }
    }
}

} // verus!
