use socketlabs::codes::{AddressResultErrorCode, MessageResultErrorCode, PostMessageErrorCode};
use socketlabs::error::ErrorKind;
use socketlabs::response::Response;

fn is_parsing_error(r: Result<Response, socketlabs::error::Error>) -> bool {
    matches!(r.map(|_| ()).unwrap_err().kind(), ErrorKind::MessageParsingError(_))
}

#[test]
fn success_with_null_optionals() {
    let r = Response::from_json(r#"{"ErrorCode":"Success","TransactionReceipt":null,"MessageResults":null}"#)
        .unwrap();
    assert_eq!(r.error_code, PostMessageErrorCode::Success);
    assert!(r.transaction_receipt.is_none());
    assert!(r.message_results.is_none());
}

#[test]
fn absent_optionals_are_none() {
    let r = Response::from_json(r#"{"ErrorCode":"OverQuota"}"#).unwrap();
    assert_eq!(r.error_code, PostMessageErrorCode::OverQuota);
    assert!(r.transaction_receipt.is_none());
    assert!(r.message_results.is_none());
}

#[test]
fn unknown_request_code_falls_back() {
    let r = Response::from_json(r#"{"ErrorCode":"TotallyNewCode"}"#).unwrap();
    assert_eq!(r.error_code, PostMessageErrorCode::UnknownErrorCode);
}

#[test]
fn non_string_code_falls_back() {
    let r = Response::from_json(r#"{"ErrorCode":42}"#).unwrap();
    assert_eq!(r.error_code, PostMessageErrorCode::UnknownErrorCode);
}

#[test]
fn missing_error_code_is_a_parsing_error() {
    assert!(is_parsing_error(Response::from_json(r#"{"TransactionReceipt":"x"}"#)));
}

#[test]
fn malformed_json_is_a_parsing_error() {
    assert!(is_parsing_error(Response::from_json(r#"{"ErrorCode":"#)));
    assert!(is_parsing_error(Response::from_json("")));
    assert!(is_parsing_error(Response::from_json("[1,2]")));
}

#[test]
fn wrong_types_are_parsing_errors() {
    assert!(is_parsing_error(Response::from_json(r#"{"ErrorCode":"Success","TransactionReceipt":5}"#)));
    assert!(is_parsing_error(Response::from_json(r#"{"ErrorCode":"Success","MessageResults":{}}"#)));
}

#[test]
fn nested_results_decode() {
    let body = r#"{
        "ErrorCode": "Warning",
        "TransactionReceipt": "abc-123",
        "MessageResults": [
            {"Index": 0, "ErrorCode": "NoValidRecipients", "AddressResult": [
                {"EmailAddress": "x@example.com", "Accepted": false, "ErrorCode": "InvalidAddress"},
                {"EmailAddress": "y@example.com", "Accepted": true, "ErrorCode": "SomethingNew"}
            ]},
            {"Index": 65535, "ErrorCode": "BrandNew", "AddressResult": null},
            {"Index": 2, "ErrorCode": "MessageBodyConflict"}
        ]
    }"#;
    let r = Response::from_json(body).unwrap();
    assert_eq!(r.error_code, PostMessageErrorCode::Warning);
    assert_eq!(r.transaction_receipt.as_deref(), Some("abc-123"));
    let results = r.message_results.unwrap();
    assert_eq!(results.len(), 3);
    assert_eq!(results[0].index, 0);
    assert_eq!(results[0].error_code, MessageResultErrorCode::NoValidRecipients);
    let addresses = results[0].address_result.as_ref().unwrap();
    assert_eq!(addresses.len(), 2);
    assert_eq!(addresses[0].email_address, "x@example.com");
    assert!(!addresses[0].accepted);
    assert_eq!(addresses[0].error_code, AddressResultErrorCode::InvalidAddress);
    assert!(addresses[1].accepted);
    assert_eq!(addresses[1].error_code, AddressResultErrorCode::UnknownErrorCode);
    assert_eq!(results[1].index, 65535);
    assert_eq!(results[1].error_code, MessageResultErrorCode::UnknownErrorCode);
    assert!(results[1].address_result.is_none());
    assert_eq!(results[2].error_code, MessageResultErrorCode::MessageBodyConflict);
    assert!(results[2].address_result.is_none());
}

#[test]
fn bad_index_is_a_parsing_error() {
    for idx in ["65536", "-1", "1.5", "\"0\""] {
        let body = format!(r#"{{"ErrorCode":"Warning","MessageResults":[{{"Index":{},"ErrorCode":"Warning"}}]}}"#, idx);
        assert!(is_parsing_error(Response::from_json(&body)), "{}", idx);
    }
}

#[test]
fn nested_missing_fields_are_parsing_errors() {
    let no_code = r#"{"ErrorCode":"Warning","MessageResults":[{"Index":1}]}"#;
    assert!(is_parsing_error(Response::from_json(no_code)));
    let no_accepted = r#"{"ErrorCode":"Warning","MessageResults":[{"Index":1,"ErrorCode":"Warning","AddressResult":[{"EmailAddress":"x@y.z","ErrorCode":"InvalidAddress"}]}]}"#;
    assert!(is_parsing_error(Response::from_json(no_accepted)));
    let no_address = r#"{"ErrorCode":"Warning","MessageResults":[{"Index":1,"ErrorCode":"Warning","AddressResult":[{"Accepted":true,"ErrorCode":"InvalidAddress"}]}]}"#;
    assert!(is_parsing_error(Response::from_json(no_address)));
}
