//! The provider's response and how it is decoded.
//!
//! Decoding fails only on a malformed document or a missing required field.
//! An error code that is not in the known set decodes to `UnknownErrorCode`.

use vstd::prelude::*;
use vstd::string::StringExecFns;
use crate::codes::{AddressResultErrorCode, MessageResultErrorCode, PostMessageErrorCode};
use crate::error::{Error, ErrorKind};
use crate::json::{field, get_entry, parse_json, parsed_json, JsonValue};
use crate::text::{decimal_u16, parse_decimal_u16};

verus! {

pub struct AddressResultView {
    pub email_address: Seq<char>,
    pub accepted: bool,
    pub error_code: AddressResultErrorCode,
}

pub struct MessageResultView {
    pub index: u16,
    pub error_code: MessageResultErrorCode,
    pub address_result: Option<Seq<AddressResultView>>,
}

pub struct ResponseView {
    pub error_code: PostMessageErrorCode,
    pub transaction_receipt: Option<Seq<char>>,
    pub message_results: Option<Seq<MessageResultView>>,
}

/// The status of one recipient that failed or was warned about.
#[derive(Debug)]
pub struct AddressResult {
    /// The recipient address.
    pub email_address: String,
    /// Whether the message was deliverable to it.
    pub accepted: bool,
    /// Why delivery to it failed.
    pub error_code: AddressResultErrorCode,
}

/// The status of one message that failed or has bad recipients.
#[derive(Debug)]
pub struct MessageResult {
    /// The position of the message in the request.
    pub index: u16,
    /// Why the message failed.
    pub error_code: MessageResultErrorCode,
    /// The addresses of the message that failed.
    pub address_result: Option<Vec<AddressResult>>,
}

/// The outcome of an injection request.
#[derive(Debug)]
pub struct Response {
    /// The status of the request as a whole.
    pub error_code: PostMessageErrorCode,
    /// A key for the provider's support, set on an unexpected failure.
    pub transaction_receipt: Option<String>,
    /// The messages that failed or have bad recipients.
    pub message_results: Option<Vec<MessageResult>>,
}

impl View for AddressResult {
    type V = AddressResultView;

    open spec fn view(&self) -> AddressResultView {
        AddressResultView {
            email_address: self.email_address@,
            accepted: self.accepted,
            error_code: self.error_code,
        }
    }
}

pub open spec fn address_results_view(l: Seq<AddressResult>) -> Seq<AddressResultView> {
    l.map_values(|a: AddressResult| a@)
}

impl View for MessageResult {
    type V = MessageResultView;

    open spec fn view(&self) -> MessageResultView {
        MessageResultView {
            index: self.index,
            error_code: self.error_code,
            address_result: match self.address_result {
                Some(l) => Some(address_results_view(l@)),
                None => None,
            },
        }
    }
}

pub open spec fn message_results_view(l: Seq<MessageResult>) -> Seq<MessageResultView> {
    l.map_values(|m: MessageResult| m@)
}

impl View for Response {
    type V = ResponseView;

    open spec fn view(&self) -> ResponseView {
        ResponseView {
            error_code: self.error_code,
            transaction_receipt: match self.transaction_receipt {
                Some(s) => Some(s@),
                None => None,
            },
            message_results: match self.message_results {
                Some(l) => Some(message_results_view(l@)),
                None => None,
            },
        }
    }
}

// ---------------------------------------------------------------------------
// What a document decodes to
// ---------------------------------------------------------------------------

/// A request-level code: a string decodes by its text, anything else is unknown.
pub open spec fn post_code_of(v: JsonValue) -> PostMessageErrorCode {
    match v {
        JsonValue::Str(s) => PostMessageErrorCode::spec_from_tag(s@),
        _ => PostMessageErrorCode::UnknownErrorCode,
    }
}

pub open spec fn message_code_of(v: JsonValue) -> MessageResultErrorCode {
    match v {
        JsonValue::Str(s) => MessageResultErrorCode::spec_from_tag(s@),
        _ => MessageResultErrorCode::UnknownErrorCode,
    }
}

pub open spec fn address_code_of(v: JsonValue) -> AddressResultErrorCode {
    match v {
        JsonValue::Str(s) => AddressResultErrorCode::spec_from_tag(s@),
        _ => AddressResultErrorCode::UnknownErrorCode,
    }
}

/// An address result: `EmailAddress` a string, `Accepted` a boolean, and an
/// `ErrorCode`, all required.
pub open spec fn address_result_of(v: JsonValue) -> Option<AddressResultView> {
    match (field(v, "EmailAddress"@), field(v, "Accepted"@), field(v, "ErrorCode"@)) {
        (Some(JsonValue::Str(a)), Some(JsonValue::Bool(b)), Some(c)) => Some(
            AddressResultView { email_address: a@, accepted: b, error_code: address_code_of(c) },
        ),
        _ => None,
    }
}

/// Every element decoded, or none when one of them does not decode.
pub open spec fn address_results_of(items: Seq<JsonValue>) -> Option<Seq<AddressResultView>>
    decreases items.len(),
{
    if items.len() == 0 {
        Some(seq![])
    } else {
        match (address_results_of(items.drop_last()), address_result_of(items.last())) {
            (Some(l), Some(a)) => Some(l.push(a)),
            _ => None,
        }
    }
}

/// An optional list of address results: absent or `null` is none.
pub open spec fn optional_address_results_of(f: Option<JsonValue>) -> Option<
    Option<Seq<AddressResultView>>,
> {
    match f {
        None => Some(None),
        Some(JsonValue::Null) => Some(None),
        Some(JsonValue::Array(items)) => match address_results_of(items@) {
            Some(l) => Some(Some(l)),
            None => None,
        },
        _ => None,
    }
}

/// A message result: `Index` a number that fits in 16 bits and an `ErrorCode`,
/// both required, and an optional `AddressResult` list.
pub open spec fn message_result_of(v: JsonValue) -> Option<MessageResultView> {
    match (field(v, "Index"@), field(v, "ErrorCode"@)) {
        (Some(JsonValue::Number(t)), Some(c)) => match (
            decimal_u16(t@),
            optional_address_results_of(field(v, "AddressResult"@)),
        ) {
            (Some(i), Some(a)) => Some(
                MessageResultView { index: i, error_code: message_code_of(c), address_result: a },
            ),
            _ => None,
        },
        _ => None,
    }
}

pub open spec fn message_results_of(items: Seq<JsonValue>) -> Option<Seq<MessageResultView>>
    decreases items.len(),
{
    if items.len() == 0 {
        Some(seq![])
    } else {
        match (message_results_of(items.drop_last()), message_result_of(items.last())) {
            (Some(l), Some(m)) => Some(l.push(m)),
            _ => None,
        }
    }
}

pub open spec fn optional_message_results_of(f: Option<JsonValue>) -> Option<
    Option<Seq<MessageResultView>>,
> {
    match f {
        None => Some(None),
        Some(JsonValue::Null) => Some(None),
        Some(JsonValue::Array(items)) => match message_results_of(items@) {
            Some(l) => Some(Some(l)),
            None => None,
        },
        _ => None,
    }
}

/// An optional string: absent or `null` is none.
pub open spec fn optional_string_of(f: Option<JsonValue>) -> Option<Option<Seq<char>>> {
    match f {
        None => Some(None),
        Some(JsonValue::Null) => Some(None),
        Some(JsonValue::Str(s)) => Some(Some(s@)),
        _ => None,
    }
}

/// A response: an `ErrorCode`, required, and optional `TransactionReceipt`
/// and `MessageResults`.
pub open spec fn response_of(v: JsonValue) -> Option<ResponseView> {
    match (
        field(v, "ErrorCode"@),
        optional_string_of(field(v, "TransactionReceipt"@)),
        optional_message_results_of(field(v, "MessageResults"@)),
    ) {
        (Some(c), Some(t), Some(m)) => Some(
            ResponseView { error_code: post_code_of(c), transaction_receipt: t, message_results: m },
        ),
        _ => None,
    }
}

// ---------------------------------------------------------------------------
// Decoding
// ---------------------------------------------------------------------------

fn parsing_error(detail: &str) -> (r: Error)
    ensures
        r.kind matches ErrorKind::MessageParsingError(d) && d@ == detail@,
{
    Error::new(ErrorKind::MessageParsingError(String::from_str(detail)))
}

fn field_of<'a>(v: &'a JsonValue, key: &str) -> (r: Option<&'a JsonValue>)
    ensures
        match field(*v, key@) {
            Some(x) => r == Some(&x),
            None => r is None,
        },
{
    match v {
        JsonValue::Object(entries) => get_entry(entries, key),
        _ => None,
    }
}

fn post_code(v: &JsonValue) -> (r: PostMessageErrorCode)
    ensures
        r == post_code_of(*v),
{
    match v {
        JsonValue::Str(s) => PostMessageErrorCode::from_tag(s.as_str()),
        _ => PostMessageErrorCode::UnknownErrorCode,
    }
}

fn message_code(v: &JsonValue) -> (r: MessageResultErrorCode)
    ensures
        r == message_code_of(*v),
{
    match v {
        JsonValue::Str(s) => MessageResultErrorCode::from_tag(s.as_str()),
        _ => MessageResultErrorCode::UnknownErrorCode,
    }
}

fn address_code(v: &JsonValue) -> (r: AddressResultErrorCode)
    ensures
        r == address_code_of(*v),
{
    match v {
        JsonValue::Str(s) => AddressResultErrorCode::from_tag(s.as_str()),
        _ => AddressResultErrorCode::UnknownErrorCode,
    }
}

impl AddressResult {
    /// Decodes an address result from a JSON value.
    pub fn from_value(v: &JsonValue) -> (r: Result<AddressResult, Error>)
        ensures
            r is Ok <==> address_result_of(*v) is Some,
            r matches Ok(a) ==> address_result_of(*v) == Some(a@),
            r matches Err(e) ==> e.kind is MessageParsingError,
    {
        let email_address = match field_of(v, "EmailAddress") {
            Some(JsonValue::Str(s)) => s.clone(),
            _ => return Err(parsing_error("EmailAddress: a string is required")),
        };
        let accepted = match field_of(v, "Accepted") {
            Some(JsonValue::Bool(b)) => *b,
            _ => return Err(parsing_error("Accepted: a boolean is required")),
        };
        let error_code = match field_of(v, "ErrorCode") {
            Some(c) => address_code(c),
            None => return Err(parsing_error("missing field `ErrorCode`")),
        };
        Ok(AddressResult { email_address, accepted, error_code })
    }
}

fn address_results_from(items: &Vec<JsonValue>) -> (r: Result<Vec<AddressResult>, Error>)
    ensures
        r is Ok <==> address_results_of(items@) is Some,
        r matches Ok(l) ==> address_results_of(items@) == Some(address_results_view(l@)),
        r matches Err(e) ==> e.kind is MessageParsingError,
{
    let mut out: Vec<AddressResult> = Vec::new();
    let mut i: usize = 0;
    while i < items.len()
        invariant
            i <= items@.len(),
            address_results_of(items@.take(i as int)) == Some(address_results_view(out@)),
        decreases items@.len() - i,
    {
        assert(items@.take(i + 1).drop_last() == items@.take(i as int));
        assert(items@.take(i + 1).last() == items@[i as int]);
        let a = match AddressResult::from_value(&items[i]) {
            Ok(a) => a,
            Err(e) => {
                proof {
                    lemma_address_results_prefix(items@, i as int + 1);
                }
                return Err(e);
            },
        };
        let ghost before = out@;
        out.push(a);
        assert(address_results_view(out@) == address_results_view(before).push(a@));
        i = i + 1;
    }
    assert(items@.take(i as int) == items@);
    Ok(out)
}

/// When a prefix of the list does not decode, neither does the list.
proof fn lemma_address_results_prefix(items: Seq<JsonValue>, k: int)
    requires
        0 <= k <= items.len(),
        address_results_of(items.take(k)) is None,
    ensures
        address_results_of(items) is None,
    decreases items.len() - k,
{
    if k < items.len() {
        assert(items.take(k + 1).drop_last() == items.take(k));
        lemma_address_results_prefix(items, k + 1);
    } else {
        assert(items.take(k) == items);
    }
}

/// When a prefix of the list does not decode, neither does the list.
proof fn lemma_message_results_prefix(items: Seq<JsonValue>, k: int)
    requires
        0 <= k <= items.len(),
        message_results_of(items.take(k)) is None,
    ensures
        message_results_of(items) is None,
    decreases items.len() - k,
{
    if k < items.len() {
        assert(items.take(k + 1).drop_last() == items.take(k));
        lemma_message_results_prefix(items, k + 1);
    } else {
        assert(items.take(k) == items);
    }
}

impl MessageResult {
    /// Decodes a message result from a JSON value.
    pub fn from_value(v: &JsonValue) -> (r: Result<MessageResult, Error>)
        ensures
            r is Ok <==> message_result_of(*v) is Some,
            r matches Ok(m) ==> message_result_of(*v) == Some(m@),
            r matches Err(e) ==> e.kind is MessageParsingError,
    {
        let index = match field_of(v, "Index") {
            Some(JsonValue::Number(t)) => match parse_decimal_u16(t.as_str()) {
                Some(i) => i,
                None => return Err(parsing_error("Index: a number from 0 to 65535 is required")),
            },
            _ => return Err(parsing_error("Index: a number is required")),
        };
        let error_code = match field_of(v, "ErrorCode") {
            Some(c) => message_code(c),
            None => return Err(parsing_error("missing field `ErrorCode`")),
        };
        let address_result = match field_of(v, "AddressResult") {
            None => None,
            Some(JsonValue::Null) => None,
            Some(JsonValue::Array(items)) => Some(address_results_from(items)?),
            Some(_) => return Err(parsing_error("AddressResult: an array is required")),
        };
        Ok(MessageResult { index, error_code, address_result })
    }
}

fn message_results_from(items: &Vec<JsonValue>) -> (r: Result<Vec<MessageResult>, Error>)
    ensures
        r is Ok <==> message_results_of(items@) is Some,
        r matches Ok(l) ==> message_results_of(items@) == Some(message_results_view(l@)),
        r matches Err(e) ==> e.kind is MessageParsingError,
{
    let mut out: Vec<MessageResult> = Vec::new();
    let mut i: usize = 0;
    while i < items.len()
        invariant
            i <= items@.len(),
            message_results_of(items@.take(i as int)) == Some(message_results_view(out@)),
        decreases items@.len() - i,
    {
        assert(items@.take(i + 1).drop_last() == items@.take(i as int));
        assert(items@.take(i + 1).last() == items@[i as int]);
        let m = match MessageResult::from_value(&items[i]) {
            Ok(m) => m,
            Err(e) => {
                proof {
                    lemma_message_results_prefix(items@, i as int + 1);
                }
                return Err(e);
            },
        };
        let ghost before = out@;
        out.push(m);
        assert(message_results_view(out@) == message_results_view(before).push(m@));
        i = i + 1;
    }
    assert(items@.take(i as int) == items@);
    Ok(out)
}

impl Response {
    /// Decodes a response from a JSON value.
    pub fn from_value(v: &JsonValue) -> (r: Result<Response, Error>)
        ensures
            r is Ok <==> response_of(*v) is Some,
            r matches Ok(x) ==> response_of(*v) == Some(x@),
            r matches Err(e) ==> e.kind is MessageParsingError,
    {
        let error_code = match field_of(v, "ErrorCode") {
            Some(c) => post_code(c),
            None => return Err(parsing_error("missing field `ErrorCode`")),
        };
        let transaction_receipt = match field_of(v, "TransactionReceipt") {
            None => None,
            Some(JsonValue::Null) => None,
            Some(JsonValue::Str(s)) => Some(s.clone()),
            Some(_) => return Err(parsing_error("TransactionReceipt: a string is required")),
        };
        let message_results = match field_of(v, "MessageResults") {
            None => None,
            Some(JsonValue::Null) => None,
            Some(JsonValue::Array(items)) => Some(message_results_from(items)?),
            Some(_) => return Err(parsing_error("MessageResults: an array is required")),
        };
        Ok(Response { error_code, transaction_receipt, message_results })
    }

    /// Decodes a response from the body the provider sent. A body that is not
    /// well-formed JSON fails with `MessageParsingError` carrying the parser's
    /// diagnostic.
    pub fn from_json(body: &str) -> (r: Result<Response, Error>)
        ensures
            match parsed_json(body@) {
                Some(v) => (r is Ok <==> response_of(v) is Some) && (r matches Ok(x)
                    ==> response_of(v) == Some(x@)),
                None => r is Err,
            },
            r matches Err(e) ==> e.kind is MessageParsingError,
    {
        match parse_json(body) {
            Ok(v) => Response::from_value(&v),
            Err(detail) => Err(Error::new(ErrorKind::MessageParsingError(detail))),
        }
    }
}

/// A response whose `ErrorCode` is a string outside the known set still
/// decodes, whatever the rest of the document holds as long as it is well
/// formed, with the fallback code.
pub proof fn lemma_unknown_code_still_decodes(v: JsonValue, code: String)
    requires
        field(v, "ErrorCode"@) == Some(JsonValue::Str(code)),
        forall|c: PostMessageErrorCode| #[trigger] c.spec_tag() != Some(code@),
        optional_string_of(field(v, "TransactionReceipt"@)) is Some,
        optional_message_results_of(field(v, "MessageResults"@)) is Some,
    ensures
        response_of(v) matches Some(r) && r.error_code == PostMessageErrorCode::UnknownErrorCode,
{
    crate::codes::lemma_post_unknown_tag_falls_back(code@);
}

/// An unknown code at the level of one message or one address is no failure
/// either: the result decodes with the fallback code.
pub proof fn lemma_unknown_nested_codes_still_decode(v: JsonValue, code: String)
    requires
        field(v, "ErrorCode"@) == Some(JsonValue::Str(code)),
        forall|c: MessageResultErrorCode| #[trigger] c.spec_tag() != Some(code@),
        forall|c: AddressResultErrorCode| #[trigger] c.spec_tag() != Some(code@),
    ensures
        message_result_of(v) matches Some(m) ==> m.error_code
            == MessageResultErrorCode::UnknownErrorCode,
        address_result_of(v) matches Some(a) ==> a.error_code
            == AddressResultErrorCode::UnknownErrorCode,
{
    crate::codes::lemma_message_unknown_tag_falls_back(code@);
    crate::codes::lemma_address_unknown_tag_falls_back(code@);
}

/// A document without the required `ErrorCode` does not decode.
pub proof fn lemma_missing_error_code_fails(v: JsonValue)
    requires
        field(v, "ErrorCode"@) is None,
    ensures
        response_of(v) is None,
        message_result_of(v) is None,
        address_result_of(v) is None,
{
}

} // verus!
