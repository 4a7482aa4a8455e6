use client_sdk::text::{
    compare_text, decimal_string, same_text, signed_decimal_string, TextOrder,
};
use client_sdk::utils::errors::PineconeClientError;

#[test]
fn decimal_rendering() {
    assert_eq!(decimal_string(0), "0");
    assert_eq!(decimal_string(7), "7");
    assert_eq!(decimal_string(10), "10");
    assert_eq!(decimal_string(1234567890), "1234567890");
    assert_eq!(decimal_string(u64::MAX), "18446744073709551615");
}

#[test]
fn signed_decimal_rendering() {
    assert_eq!(signed_decimal_string(0), "0");
    assert_eq!(signed_decimal_string(42), "42");
    assert_eq!(signed_decimal_string(-5), "-5");
    assert_eq!(signed_decimal_string(i64::MIN), "-9223372036854775808");
    assert_eq!(signed_decimal_string(i64::MAX), "9223372036854775807");
}

#[test]
fn text_order_is_the_order_of_strings() {
    let samples = ["", "a", "ab", "b", "B", "é", "e", "zz", "\u{ffff}", "\u{10000}", "日本"];
    for a in samples {
        for b in samples {
            let expected = if a < b {
                TextOrder::Before
            } else if a == b {
                TextOrder::Same
            } else {
                TextOrder::After
            };
            assert_eq!(compare_text(a, b), expected, "{:?} against {:?}", a, b);
            assert_eq!(same_text(a, b), a == b);
        }
    }
}

#[test]
fn message_of_an_argument_error_quotes_what_was_found() {
    let error = PineconeClientError::ArgumentError {
        name: "timeout".to_string(),
        found: "-5".to_string(),
        expected: "-1 or more".to_string(),
    };
    assert_eq!(
        error.message(),
        "Invalid value for argument timeout: \"-5\"). Expected -1 or more"
    );
    let error = PineconeClientError::ArgumentError {
        name: "n".to_string(),
        found: "a\"b\n".to_string(),
        expected: "".to_string(),
    };
    assert_eq!(error.message(), "Invalid value for argument n: \"a\\\"b\\n\"). Expected ");
}

#[test]
fn messages_of_value_errors() {
    assert_eq!(PineconeClientError::ValueError("bad".to_string()).message(), "`bad`");
    assert_eq!(PineconeClientError::Other("bad".to_string()).message(), "`bad`");
    assert_eq!(PineconeClientError::KeyboardInterrupt("stop".to_string()).message(), "`stop`");
    assert_eq!(PineconeClientError::OperationTimeout("late".to_string()).message(), "`late`");
}

#[test]
fn messages_of_record_errors() {
    assert_eq!(
        PineconeClientError::UpsertKeyError { key: "id".to_string(), vec_num: 12 }.message(),
        "Error in vector number 12: Missing key 'id'"
    );
    assert_eq!(
        PineconeClientError::UpsertValueError {
            key: "values".to_string(),
            vec_num: 0,
            expected_type: "List[float]".to_string(),
            actual: "'x'".to_string()
        }
        .message(),
        "Error in vector number 0: Found unexpected value for 'values'. Expected a List[float], found: 'x'"
    );
    assert_eq!(
        PineconeClientError::UpsertExcessKeysError {
            keys: vec!["a".to_string(), "b c".to_string()],
            vec_num: 3
        }
        .message(),
        "Error in vector number 3: Found unexpected keys: [\"a\", \"b c\"]"
    );
    assert_eq!(
        PineconeClientError::UpsertExcessKeysError { keys: vec!["only".to_string()], vec_num: 1 }
            .message(),
        "Error in vector number 1: Found unexpected keys: [\"only\"]"
    );
    assert_eq!(
        PineconeClientError::UpsertExcessKeysError { keys: vec![], vec_num: 1 }.message(),
        "Error in vector number 1: Found unexpected keys: []"
    );
}

#[test]
fn messages_of_connection_errors() {
    assert_eq!(
        PineconeClientError::ControlPlaneConnectionError {
            region: "eu".to_string(),
            err: "refused".to_string()
        }
        .message(),
        "Failed to connect to Pinecone's controller on region eu. Please verify client configuration: API key, region and project_id. See more info: https://docs.pinecone.io/docs/quickstart#2-get-and-verify-your-pinecone-api-key\nUnderlying Error: refused"
    );
    assert_eq!(
        PineconeClientError::IndexConnectionError {
            index: "books".to_string(),
            err: "refused".to_string()
        }
        .message(),
        "Failed to connect to index 'books'. Please verify that an index with that name exists using `client.list_indexes()`. \nUnderlying Error: refused"
    );
}

#[test]
fn messages_of_metadata_errors() {
    assert_eq!(
        PineconeClientError::MetadataValueError { val_type: "None".to_string() }.message(),
        "Unsupported metadata value None. Please see https://docs.pinecone.io/docs/metadata-filtering#supported-metadata-types for allowed metadata types"
    );
    assert_eq!(
        PineconeClientError::MetadataError { key: "k".to_string(), val_type: "None".to_string() }
            .message(),
        "Unsupported metadata value for key k: found value of type None. Please see https://docs.pinecone.io/docs/metadata-filtering#supported-metadata-types for allowed metadata types"
    );
}

#[test]
fn messages_of_operation_errors() {
    assert_eq!(
        PineconeClientError::ControlPlaneOperationError {
            err: "no such index".to_string(),
            status_code: "404".to_string()
        }
        .message(),
        "Operation failed with error code 404. \nUnderlying Error: no such index"
    );
    assert_eq!(
        PineconeClientError::ControlPlaneParsingError.message(),
        "Failed to parse response contents"
    );
    assert_eq!(PineconeClientError::DataplaneOperationError("status".to_string()).message(), "status");
    assert_eq!(PineconeClientError::IoError("io".to_string()).message(), "io");
    assert_eq!(PineconeClientError::DeserializationError("eof".to_string()).message(), "eof");
}
