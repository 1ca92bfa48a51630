use socketlabs::codes::{AddressResultErrorCode, MessageResultErrorCode, PostMessageErrorCode};
use socketlabs::error::{classify_transport_failure, Error, ErrorKind};
use socketlabs::text::{parse_decimal_u16, same_text};

#[test]
fn every_request_code_decodes_from_its_tag() {
    let all = [
        PostMessageErrorCode::Success,
        PostMessageErrorCode::Warning,
        PostMessageErrorCode::AccountDisabled,
        PostMessageErrorCode::InternalError,
        PostMessageErrorCode::InvalidAuthentication,
        PostMessageErrorCode::InvalidData,
        PostMessageErrorCode::NoMessages,
        PostMessageErrorCode::EmptyMessage,
        PostMessageErrorCode::OverQuota,
        PostMessageErrorCode::TooManyErrors,
        PostMessageErrorCode::TooManyMessages,
        PostMessageErrorCode::TooManyRecipients,
        PostMessageErrorCode::NoValidRecipients,
    ];
    for c in all {
        assert_eq!(PostMessageErrorCode::from_tag(c.tag().unwrap()), c);
    }
    assert_eq!(PostMessageErrorCode::UnknownErrorCode.tag(), None);
    assert_eq!(PostMessageErrorCode::from_tag("UnknownErrorCode"), PostMessageErrorCode::UnknownErrorCode);
    assert_eq!(PostMessageErrorCode::from_tag("success"), PostMessageErrorCode::UnknownErrorCode);
    assert_eq!(PostMessageErrorCode::OverQuota.description(), "Rate limit exceeded.");
}

#[test]
fn every_message_code_decodes_from_its_tag() {
    let all = [
        MessageResultErrorCode::Warning,
        MessageResultErrorCode::InvalidAttachment,
        MessageResultErrorCode::MessageTooLarge,
        MessageResultErrorCode::EmptySubject,
        MessageResultErrorCode::EmptyToAddress,
        MessageResultErrorCode::InvalidFromAddress,
        MessageResultErrorCode::NoValidBodyParts,
        MessageResultErrorCode::NoValidRecipients,
        MessageResultErrorCode::InvalidMergeData,
        MessageResultErrorCode::InvalidTemplateId,
        MessageResultErrorCode::MessageBodyConflict,
    ];
    for c in all {
        assert_eq!(MessageResultErrorCode::from_tag(c.tag().unwrap()), c);
    }
    assert_eq!(MessageResultErrorCode::from_tag("Success"), MessageResultErrorCode::UnknownErrorCode);
}

#[test]
fn address_code_decodes() {
    assert_eq!(AddressResultErrorCode::from_tag("InvalidAddress"), AddressResultErrorCode::InvalidAddress);
    assert_eq!(AddressResultErrorCode::from_tag("Other"), AddressResultErrorCode::UnknownErrorCode);
    assert_eq!(
        AddressResultErrorCode::UnknownErrorCode.description(),
        "SocketLabs returned an unknown error code."
    );
}

#[test]
fn transport_failures_are_classified() {
    assert_eq!(
        classify_transport_failure(true, true, false, false),
        ErrorKind::RequestError("Problem making request to SocketLabs.".to_string())
    );
    assert_eq!(classify_transport_failure(true, false, false, false), ErrorKind::UnexpectedError);
    assert_eq!(classify_transport_failure(false, false, true, true), ErrorKind::UnexpectedError);
    assert_eq!(classify_transport_failure(false, false, false, true), ErrorKind::TooManyRedirects);
    assert_eq!(classify_transport_failure(false, false, false, false), ErrorKind::UnexpectedError);
}

#[test]
fn decimal_reading() {
    assert_eq!(parse_decimal_u16("0"), Some(0));
    assert_eq!(parse_decimal_u16("00042"), Some(42));
    assert_eq!(parse_decimal_u16("65535"), Some(65535));
    assert_eq!(parse_decimal_u16("65536"), None);
    assert_eq!(parse_decimal_u16("99999999999999999999"), None);
    assert_eq!(parse_decimal_u16(""), None);
    assert_eq!(parse_decimal_u16("1.0"), None);
    assert_eq!(parse_decimal_u16("-1"), None);
}

#[test]
fn text_comparison() {
    assert!(same_text("abc", "abc"));
    assert!(!same_text("abc", "abd"));
    assert!(!same_text("abc", "ab"));
    assert!(same_text("", ""));
}

#[test]
fn errors_describe_themselves() {
    assert_eq!(
        ErrorKind::MessageParsingError("eof".to_string()).to_text(),
        "Error parsing message eof"
    );
    assert_eq!(ErrorKind::RequestError("boom".to_string()).to_text(), "boom");
    assert_eq!(
        ErrorKind::TooManyRedirects.to_text(),
        "Server redirecting too many times or making loop."
    );
    assert_eq!(
        Error::new(ErrorKind::InvalidAddress("x".to_string())).to_text(),
        "Invalid email address: x"
    );
    assert_eq!(
        Error::new(ErrorKind::MessageCountError).to_text(),
        "A request needs at least one message."
    );
    assert!(ErrorKind::UnexpectedError.to_text().starts_with("Unexpected error."));
}
