//! The email message model and its JSON wire form.
//!
//! Every optional part of a message is left out of the wire form when absent:
//! its key is never written with `null`.

use vstd::prelude::*;
use vstd::string::StringExecFns;
use crate::address::{is_valid_address, is_valid_email_address};
use crate::error::{Error, ErrorKind};
use crate::text::{json_string_literal, quote};

verus! {

/// The texts of `parts`, in order, separated by commas.
pub open spec fn comma_joined(parts: Seq<Seq<char>>) -> Seq<char>
    decreases parts.len(),
{
    if parts.len() == 0 {
        seq![]
    } else if parts.len() == 1 {
        parts[0]
    } else {
        comma_joined(parts.drop_last()) + ","@ + parts.last()
    }
}

/// A JSON array whose elements are written by `parts`.
pub open spec fn array_json(parts: Seq<Seq<char>>) -> Seq<char> {
    "["@ + comma_joined(parts) + "]"@
}

/// `prefix` and then the quoted text, or nothing when the text is absent.
pub open spec fn optional_text(prefix: Seq<char>, text: Option<Seq<char>>) -> Seq<char> {
    match text {
        Some(t) => prefix + json_string_literal(t),
        None => seq![],
    }
}

/// `prefix` and then `json`, or nothing when it is absent.
pub open spec fn optional_json(prefix: Seq<char>, json: Option<Seq<char>>) -> Seq<char> {
    match json {
        Some(j) => prefix + j,
        None => seq![],
    }
}

pub open spec fn text_view(o: Option<String>) -> Option<Seq<char>> {
    match o {
        Some(s) => Some(s@),
        None => None,
    }
}

pub open spec fn str_view(o: Option<&str>) -> Option<Seq<char>> {
    match o {
        Some(s) => Some(s@),
        None => None,
    }
}

proof fn lemma_joined_step(parts: Seq<Seq<char>>, i: int)
    requires
        0 <= i < parts.len(),
    ensures
        comma_joined(parts.take(i + 1)) == if i == 0 {
            parts[0]
        } else {
            comma_joined(parts.take(i)) + ","@ + parts[i]
        },
{
    assert(parts.take(i + 1).drop_last() == parts.take(i));
}

/// Appends `prefix` and the quoted text when the text is present.
fn append_optional_text(out: &mut String, prefix: &str, text: &Option<String>)
    ensures
        final(out)@ == old(out)@ + optional_text(prefix@, text_view(*text)),
{
    match text {
        Some(t) => {
            out.append(prefix);
            let q = quote(t.as_str());
            out.append(q.as_str());
        },
        None => {
            assert(old(out)@ + seq![] == old(out)@);
        },
    }
}

// ---------------------------------------------------------------------------
// Email
// ---------------------------------------------------------------------------

pub struct EmailView {
    pub address: Seq<char>,
    pub name: Option<Seq<char>>,
}

/// An email address, with the optional name of its owner.
#[derive(Debug)]
pub struct Email {
    email_address: String,
    friendly_name: Option<String>,
}

impl View for Email {
    type V = EmailView;

    closed spec fn view(&self) -> EmailView {
        EmailView { address: self.email_address@, name: text_view(self.friendly_name) }
    }
}

/// `{"EmailAddress": ..., "FriendlyName": ...}`, the name only when present.
pub open spec fn email_json(e: EmailView) -> Seq<char> {
    "{\"EmailAddress\":"@ + json_string_literal(e.address) + optional_text(
        ",\"FriendlyName\":"@,
        e.name,
    ) + "}"@
}

pub open spec fn emails_json(es: Seq<EmailView>) -> Seq<char> {
    array_json(es.map_values(|e: EmailView| email_json(e)))
}

fn copy_text(o: Option<&str>) -> (r: Option<String>)
    ensures
        text_view(r) == str_view(o),
{
    match o {
        Some(s) => Some(String::from_str(s)),
        None => None,
    }
}

impl Email {
    /// An email address with an optional owner's name; fails with
    /// `InvalidAddress` when `email_address` does not follow the address grammar.
    pub fn new(email_address: &str, friendly_name: Option<&str>) -> (r: Result<Email, Error>)
        ensures
            r is Ok <==> is_valid_address(email_address@),
            r matches Ok(e) ==> e@ == (EmailView {
                address: email_address@,
                name: str_view(friendly_name),
            }),
            r matches Err(e) ==> e.kind matches ErrorKind::InvalidAddress(a) && a@
                == email_address@,
    {
        if is_valid_email_address(email_address) {
            Ok(Email {
                email_address: String::from_str(email_address),
                friendly_name: copy_text(friendly_name),
            })
        } else {
            Err(Error::new(ErrorKind::InvalidAddress(String::from_str(email_address))))
        }
    }

    /// The wire form of this address.
    pub fn to_json(&self) -> (r: String)
        ensures
            r@ == email_json(self@),
    {
        let mut out = String::from_str("{\"EmailAddress\":");
        let q = quote(self.email_address.as_str());
        out.append(q.as_str());
        append_optional_text(&mut out, ",\"FriendlyName\":", &self.friendly_name);
        out.append("}");
        out
    }
}

/// The wire form of an address is `{"EmailAddress": address}` when it has
/// no owner's name, and `{"EmailAddress": address, "FriendlyName": name}`
/// when it has one.
pub proof fn lemma_email_wire_form(address: Seq<char>, name: Option<Seq<char>>)
    ensures
        name is None ==> email_json(EmailView { address, name }) == "{\"EmailAddress\":"@
            + json_string_literal(address) + "}"@,
        name matches Some(n) ==> email_json(EmailView { address, name }) == "{\"EmailAddress\":"@
            + json_string_literal(address) + ",\"FriendlyName\":"@ + json_string_literal(n)
            + "}"@,
{
    let head = "{\"EmailAddress\":"@ + json_string_literal(address);
    assert(head + seq![] =~= head);
}

fn emails_to_json(es: &Vec<Email>) -> (r: String)
    ensures
        r@ == emails_json(es@.map_values(|e: Email| e@)),
{
    let ghost parts = es@.map_values(|e: Email| e@).map_values(|e: EmailView| email_json(e));
    let mut out = String::from_str("[");
    let mut i: usize = 0;
    while i < es.len()
        invariant
            i <= es@.len(),
            parts.len() == es@.len(),
            forall|j: int| 0 <= j < es@.len() ==> parts[j] == email_json(#[trigger] es@[j]@),
            out@ == "["@ + comma_joined(parts.take(i as int)),
        decreases es@.len() - i,
    {
        proof {
            lemma_joined_step(parts, i as int);
        }
        if i > 0 {
            out.append(",");
        }
        let part = es[i].to_json();
        out.append(part.as_str());
        i = i + 1;
    }
    assert(parts.take(i as int) == parts);
    out.append("]");
    out
}

// ---------------------------------------------------------------------------
// Custom headers
// ---------------------------------------------------------------------------

pub struct HeaderView {
    pub name: Seq<char>,
    pub value: Seq<char>,
}

/// A header added to a message or an attachment.
#[derive(Debug)]
pub struct CustomHeader {
    name: String,
    value: String,
}

impl View for CustomHeader {
    type V = HeaderView;

    closed spec fn view(&self) -> HeaderView {
        HeaderView { name: self.name@, value: self.value@ }
    }
}

/// `{"Name": ..., "Value": ...}`.
pub open spec fn header_json(h: HeaderView) -> Seq<char> {
    "{\"Name\":"@ + json_string_literal(h.name) + ",\"Value\":"@ + json_string_literal(h.value)
        + "}"@
}

pub open spec fn headers_json(hs: Seq<HeaderView>) -> Seq<char> {
    array_json(hs.map_values(|h: HeaderView| header_json(h)))
}

pub open spec fn headers_view(hs: Seq<CustomHeader>) -> Seq<HeaderView> {
    hs.map_values(|h: CustomHeader| h@)
}

/// The headers that a list of name and value pairs stands for, in order.
pub open spec fn pairs_view(pairs: Seq<(String, String)>) -> Seq<HeaderView> {
    pairs.map_values(|p: (String, String)| HeaderView { name: p.0@, value: p.1@ })
}

impl CustomHeader {
    pub fn new(name: &str, value: &str) -> (r: CustomHeader)
        ensures
            r@ == (HeaderView { name: name@, value: value@ }),
    {
        CustomHeader { name: String::from_str(name), value: String::from_str(value) }
    }

    /// The wire form of this header.
    pub fn to_json(&self) -> (r: String)
        ensures
            r@ == header_json(self@),
    {
        let mut out = String::from_str("{\"Name\":");
        let q = quote(self.name.as_str());
        out.append(q.as_str());
        out.append(",\"Value\":");
        let q = quote(self.value.as_str());
        out.append(q.as_str());
        out.append("}");
        out
    }
}

fn headers_to_json(hs: &Vec<CustomHeader>) -> (r: String)
    ensures
        r@ == headers_json(headers_view(hs@)),
{
    let ghost parts = headers_view(hs@).map_values(|h: HeaderView| header_json(h));
    let mut out = String::from_str("[");
    let mut i: usize = 0;
    while i < hs.len()
        invariant
            i <= hs@.len(),
            parts.len() == hs@.len(),
            forall|j: int| 0 <= j < hs@.len() ==> parts[j] == header_json(#[trigger] hs@[j]@),
            out@ == "["@ + comma_joined(parts.take(i as int)),
        decreases hs@.len() - i,
    {
        proof {
            lemma_joined_step(parts, i as int);
        }
        if i > 0 {
            out.append(",");
        }
        let part = hs[i].to_json();
        out.append(part.as_str());
        i = i + 1;
    }
    assert(parts.take(i as int) == parts);
    out.append("]");
    out
}

/// Appends one header for each pair, in order.
fn push_pairs(list: &mut Vec<CustomHeader>, pairs: Vec<(String, String)>)
    ensures
        headers_view(final(list)@) == headers_view(old(list)@) + pairs_view(pairs@),
{
    let mut i: usize = 0;
    while i < pairs.len()
        invariant
            i <= pairs@.len(),
            headers_view(list@) == headers_view(old(list)@) + pairs_view(pairs@).take(i as int),
        decreases pairs@.len() - i,
    {
        let h = CustomHeader::new(pairs[i].0.as_str(), pairs[i].1.as_str());
        let ghost before = list@;
        list.push(h);
        assert(headers_view(list@) == headers_view(before).push(h@));
        assert(pairs_view(pairs@).take(i + 1) == pairs_view(pairs@).take(i as int).push(h@));
        i = i + 1;
    }
    assert(pairs_view(pairs@).take(i as int) == pairs_view(pairs@));
}

/// `prefix` and the header list, or nothing when there is none.
pub open spec fn optional_headers(prefix: Seq<char>, hs: Option<Seq<HeaderView>>) -> Seq<char> {
    match hs {
        Some(l) => prefix + headers_json(l),
        None => seq![],
    }
}

pub open spec fn headers_option_view(o: Option<Vec<CustomHeader>>) -> Option<Seq<HeaderView>> {
    match o {
        Some(l) => Some(headers_view(l@)),
        None => None,
    }
}

fn append_optional_headers(out: &mut String, prefix: &str, hs: &Option<Vec<CustomHeader>>)
    ensures
        final(out)@ == old(out)@ + optional_headers(prefix@, headers_option_view(*hs)),
{
    match hs {
        Some(l) => {
            out.append(prefix);
            let j = headers_to_json(l);
            out.append(j.as_str());
        },
        None => {
            assert(old(out)@ + seq![] == old(out)@);
        },
    }
}

// ---------------------------------------------------------------------------
// Attachments
// ---------------------------------------------------------------------------

pub struct AttachmentView {
    pub name: Seq<char>,
    pub content: Seq<char>,
    pub content_id: Seq<char>,
    pub content_type: Seq<char>,
    pub headers: Option<Seq<HeaderView>>,
}

/// A blob attached to a message, such as an image or a document.
#[derive(Debug)]
pub struct Attachment {
    name: String,
    content: String,
    content_id: String,
    content_type: String,
    custom_headers: Option<Vec<CustomHeader>>,
}

impl View for Attachment {
    type V = AttachmentView;

    closed spec fn view(&self) -> AttachmentView {
        AttachmentView {
            name: self.name@,
            content: self.content@,
            content_id: self.content_id@,
            content_type: self.content_type@,
            headers: headers_option_view(self.custom_headers),
        }
    }
}

/// `{"Name", "Content", "ContentId", "ContentType", "CustomHeaders"}`, the
/// headers only when present.
pub open spec fn attachment_json(a: AttachmentView) -> Seq<char> {
    "{\"Name\":"@ + json_string_literal(a.name) + ",\"Content\":"@ + json_string_literal(
        a.content,
    ) + ",\"ContentId\":"@ + json_string_literal(a.content_id) + ",\"ContentType\":"@
        + json_string_literal(a.content_type) + optional_headers(",\"CustomHeaders\":"@, a.headers)
        + "}"@
}

pub open spec fn attachments_json(l: Seq<AttachmentView>) -> Seq<char> {
    array_json(l.map_values(|a: AttachmentView| attachment_json(a)))
}

impl Attachment {
    /// An attachment with no headers; `content` is its payload, base64 encoded.
    pub fn new(name: &str, content: &str, content_id: &str, content_type: &str) -> (r: Attachment)
        ensures
            r@ == (AttachmentView {
                name: name@,
                content: content@,
                content_id: content_id@,
                content_type: content_type@,
                headers: None,
            }),
    {
        Attachment {
            name: String::from_str(name),
            content: String::from_str(content),
            content_id: String::from_str(content_id),
            content_type: String::from_str(content_type),
            custom_headers: None,
        }
    }

    /// Appends one header per pair, in order, creating the list on first use.
    pub fn add_headers(&mut self, headers: Vec<(String, String)>)
        ensures
            final(self)@ == (AttachmentView {
                headers: Some(
                    match old(self)@.headers {
                        Some(l) => l,
                        None => seq![],
                    } + pairs_view(headers@),
                ),
                ..old(self)@
            }),
    {
        let mut list = match self.custom_headers.take() {
            Some(l) => l,
            None => Vec::new(),
        };
        push_pairs(&mut list, headers);
        self.custom_headers = Some(list);
    }

    /// The wire form of this attachment.
    pub fn to_json(&self) -> (r: String)
        ensures
            r@ == attachment_json(self@),
    {
        let mut out = String::from_str("{\"Name\":");
        let q = quote(self.name.as_str());
        out.append(q.as_str());
        out.append(",\"Content\":");
        let q = quote(self.content.as_str());
        out.append(q.as_str());
        out.append(",\"ContentId\":");
        let q = quote(self.content_id.as_str());
        out.append(q.as_str());
        out.append(",\"ContentType\":");
        let q = quote(self.content_type.as_str());
        out.append(q.as_str());
        append_optional_headers(&mut out, ",\"CustomHeaders\":", &self.custom_headers);
        out.append("}");
        out
    }
}

fn attachments_to_json(l: &Vec<Attachment>) -> (r: String)
    ensures
        r@ == attachments_json(l@.map_values(|a: Attachment| a@)),
{
    let ghost parts = l@.map_values(|a: Attachment| a@).map_values(
        |a: AttachmentView| attachment_json(a),
    );
    let mut out = String::from_str("[");
    let mut i: usize = 0;
    while i < l.len()
        invariant
            i <= l@.len(),
            parts.len() == l@.len(),
            forall|j: int| 0 <= j < l@.len() ==> parts[j] == attachment_json(#[trigger] l@[j]@),
            out@ == "["@ + comma_joined(parts.take(i as int)),
        decreases l@.len() - i,
    {
        proof {
            lemma_joined_step(parts, i as int);
        }
        if i > 0 {
            out.append(",");
        }
        let part = l[i].to_json();
        out.append(part.as_str());
        i = i + 1;
    }
    assert(parts.take(i as int) == parts);
    out.append("]");
    out
}

// ---------------------------------------------------------------------------
// Merge data
// ---------------------------------------------------------------------------

pub struct DataView {
    pub field: Seq<char>,
    pub value: Seq<char>,
}

/// One `field`/`value` pair of the inline merge feature.
#[derive(Debug)]
pub struct Data {
    field: String,
    value: String,
}

impl View for Data {
    type V = DataView;

    closed spec fn view(&self) -> DataView {
        DataView { field: self.field@, value: self.value@ }
    }
}

/// `{"Field": ..., "Value": ...}`.
pub open spec fn data_json(d: DataView) -> Seq<char> {
    "{\"Field\":"@ + json_string_literal(d.field) + ",\"Value\":"@ + json_string_literal(d.value)
        + "}"@
}

pub open spec fn data_list_json(l: Seq<DataView>) -> Seq<char> {
    array_json(l.map_values(|d: DataView| data_json(d)))
}

impl Data {
    pub fn new(field: &str, value: &str) -> (r: Data)
        ensures
            r@ == (DataView { field: field@, value: value@ }),
    {
        Data { field: String::from_str(field), value: String::from_str(value) }
    }

    /// The wire form of this pair.
    pub fn to_json(&self) -> (r: String)
        ensures
            r@ == data_json(self@),
    {
        let mut out = String::from_str("{\"Field\":");
        let q = quote(self.field.as_str());
        out.append(q.as_str());
        out.append(",\"Value\":");
        let q = quote(self.value.as_str());
        out.append(q.as_str());
        out.append("}");
        out
    }
}

fn data_list_to_json(l: &Vec<Data>) -> (r: String)
    ensures
        r@ == data_list_json(l@.map_values(|d: Data| d@)),
{
    let ghost parts = l@.map_values(|d: Data| d@).map_values(|d: DataView| data_json(d));
    let mut out = String::from_str("[");
    let mut i: usize = 0;
    while i < l.len()
        invariant
            i <= l@.len(),
            parts.len() == l@.len(),
            forall|j: int| 0 <= j < l@.len() ==> parts[j] == data_json(#[trigger] l@[j]@),
            out@ == "["@ + comma_joined(parts.take(i as int)),
        decreases l@.len() - i,
    {
        proof {
            lemma_joined_step(parts, i as int);
        }
        if i > 0 {
            out.append(",");
        }
        let part = l[i].to_json();
        out.append(part.as_str());
        i = i + 1;
    }
    assert(parts.take(i as int) == parts);
    out.append("]");
    out
}

pub struct MergeDataView {
    pub per_message: Seq<DataView>,
    pub global: Seq<DataView>,
}

/// Data for the inline merge feature. In the per-message list the field name
/// `DeliveryAddress` is reserved by the provider for the recipient of the
/// current message; the library leaves that to the caller.
#[derive(Debug)]
pub struct MergeData {
    per_message: Vec<Data>,
    global: Vec<Data>,
}

impl View for MergeData {
    type V = MergeDataView;

    closed spec fn view(&self) -> MergeDataView {
        MergeDataView {
            per_message: self.per_message@.map_values(|d: Data| d@),
            global: self.global@.map_values(|d: Data| d@),
        }
    }
}

/// `{"PerMessage": [...], "Global": [...]}`.
pub open spec fn merge_data_json(m: MergeDataView) -> Seq<char> {
    "{\"PerMessage\":"@ + data_list_json(m.per_message) + ",\"Global\":"@ + data_list_json(
        m.global,
    ) + "}"@
}

impl MergeData {
    /// Merge data with both lists empty.
    pub fn new() -> (r: MergeData)
        ensures
            r@.per_message == Seq::<DataView>::empty(),
            r@.global == Seq::<DataView>::empty(),
    {
        let r = MergeData { per_message: Vec::new(), global: Vec::new() };
        assert(r@.per_message == Seq::<DataView>::empty());
        assert(r@.global == Seq::<DataView>::empty());
        r
    }

    /// Appends a pair to the per-message list.
    pub fn add_per_message(&mut self, field: &str, value: &str)
        ensures
            final(self)@ == (MergeDataView {
                per_message: old(self)@.per_message.push(DataView { field: field@, value: value@ }),
                ..old(self)@
            }),
    {
        let d = Data::new(field, value);
        self.per_message.push(d);
        assert(final(self)@.per_message == old(self)@.per_message.push(d@));
    }

    /// Appends a pair to the global list.
    pub fn add_global(&mut self, field: &str, value: &str)
        ensures
            final(self)@ == (MergeDataView {
                global: old(self)@.global.push(DataView { field: field@, value: value@ }),
                ..old(self)@
            }),
    {
        let d = Data::new(field, value);
        self.global.push(d);
        assert(final(self)@.global == old(self)@.global.push(d@));
    }

    /// The wire form of this merge data.
    pub fn to_json(&self) -> (r: String)
        ensures
            r@ == merge_data_json(self@),
    {
        let mut out = String::from_str("{\"PerMessage\":");
        let j = data_list_to_json(&self.per_message);
        out.append(j.as_str());
        out.append(",\"Global\":");
        let j = data_list_to_json(&self.global);
        out.append(j.as_str());
        out.append("}");
        out
    }
}

// ---------------------------------------------------------------------------
// Message
// ---------------------------------------------------------------------------

pub struct MessageView {
    pub to: Seq<EmailView>,
    pub from: EmailView,
    pub subject: Seq<char>,
    pub text_body: Seq<char>,
    pub html_body: Option<Seq<char>>,
    pub api_template: Option<Seq<char>>,
    pub mailing_id: Option<Seq<char>>,
    pub message_id: Option<Seq<char>>,
    pub charset: Option<Seq<char>>,
    pub custom_headers: Option<Seq<HeaderView>>,
    pub cc: Option<Seq<EmailView>>,
    pub bcc: Option<Seq<EmailView>>,
    pub reply_to: Option<EmailView>,
    pub attachments: Option<Seq<AttachmentView>>,
    pub merge_data: Option<MergeDataView>,
}

/// One email to be injected.
#[derive(Debug)]
pub struct Message {
    to: Vec<Email>,
    from: Email,
    subject: String,
    text_body: String,
    html_body: Option<String>,
    api_template: Option<String>,
    mailing_id: Option<String>,
    message_id: Option<String>,
    charset: Option<String>,
    custom_headers: Option<Vec<CustomHeader>>,
    cc: Option<Vec<Email>>,
    bcc: Option<Vec<Email>>,
    reply_to: Option<Email>,
    attachments: Option<Vec<Attachment>>,
    merge_data: Option<MergeData>,
}

pub open spec fn emails_view(l: Seq<Email>) -> Seq<EmailView> {
    l.map_values(|e: Email| e@)
}

pub open spec fn emails_option_view(o: Option<Vec<Email>>) -> Option<Seq<EmailView>> {
    match o {
        Some(l) => Some(emails_view(l@)),
        None => None,
    }
}

impl View for Message {
    type V = MessageView;

    closed spec fn view(&self) -> MessageView {
        MessageView {
            to: emails_view(self.to@),
            from: self.from@,
            subject: self.subject@,
            text_body: self.text_body@,
            html_body: text_view(self.html_body),
            api_template: text_view(self.api_template),
            mailing_id: text_view(self.mailing_id),
            message_id: text_view(self.message_id),
            charset: text_view(self.charset),
            custom_headers: headers_option_view(self.custom_headers),
            cc: emails_option_view(self.cc),
            bcc: emails_option_view(self.bcc),
            reply_to: match self.reply_to {
                Some(e) => Some(e@),
                None => None,
            },
            attachments: match self.attachments {
                Some(l) => Some(l@.map_values(|a: Attachment| a@)),
                None => None,
            },
            merge_data: match self.merge_data {
                Some(m) => Some(m@),
                None => None,
            },
        }
    }
}

/// The address that `Email::new(address, name)` builds.
pub open spec fn email_of(address: Seq<char>, name: Option<&str>) -> EmailView {
    EmailView { address, name: str_view(name) }
}

/// A message with the given sender, no recipient, and an empty subject and body.
pub open spec fn fresh_message(from: EmailView) -> MessageView {
    MessageView {
        to: seq![],
        from,
        subject: seq![],
        text_body: seq![],
        html_body: None,
        api_template: None,
        mailing_id: None,
        message_id: None,
        charset: None,
        custom_headers: None,
        cc: None,
        bcc: None,
        reply_to: None,
        attachments: None,
        merge_data: None,
    }
}

/// Whether every optional part of the message is absent.
pub open spec fn only_required_fields(m: MessageView) -> bool {
    &&& m.html_body is None
    &&& m.api_template is None
    &&& m.mailing_id is None
    &&& m.message_id is None
    &&& m.charset is None
    &&& m.custom_headers is None
    &&& m.cc is None
    &&& m.bcc is None
    &&& m.reply_to is None
    &&& m.attachments is None
    &&& m.merge_data is None
}

/// The keys that every message has: `To`, `From`, `Subject`, `TextBody`,
/// after the opening brace.
pub open spec fn required_json(m: MessageView) -> Seq<char> {
    "{\"To\":"@ + emails_json(m.to) + ",\"From\":"@ + email_json(m.from) + ",\"Subject\":"@
        + json_string_literal(m.subject) + ",\"TextBody\":"@ + json_string_literal(m.text_body)
}

/// Each optional part of the message that is present, in a fixed order.
pub open spec fn optional_json_parts(m: MessageView) -> Seq<char> {
    optional_text(",\"HtmlBody\":"@, m.html_body) + optional_text(
        ",\"ApiTemplate\":"@,
        m.api_template,
    ) + optional_text(",\"MailingId\":"@, m.mailing_id) + optional_text(
        ",\"MessageId\":"@,
        m.message_id,
    ) + optional_text(",\"Charset\":"@, m.charset) + optional_headers(
        ",\"CustomHeaders\":"@,
        m.custom_headers,
    ) + optional_json(
        ",\"Cc\":"@,
        match m.cc {
            Some(l) => Some(emails_json(l)),
            None => None,
        },
    ) + optional_json(
        ",\"Bcc\":"@,
        match m.bcc {
            Some(l) => Some(emails_json(l)),
            None => None,
        },
    ) + optional_json(
        ",\"ReplyTo\":"@,
        match m.reply_to {
            Some(e) => Some(email_json(e)),
            None => None,
        },
    ) + optional_json(
        ",\"Attachments\":"@,
        match m.attachments {
            Some(l) => Some(attachments_json(l)),
            None => None,
        },
    ) + optional_json(
        ",\"MergeData\":"@,
        match m.merge_data {
            Some(d) => Some(merge_data_json(d)),
            None => None,
        },
    )
}

/// The wire form of a message: the required keys, then each optional part
/// that is present, then the closing brace.
pub open spec fn message_json(m: MessageView) -> Seq<char> {
    required_json(m) + optional_json_parts(m) + "}"@
}

/// The wire form of a message with no optional part: exactly the four
/// required keys, so no optional key is ever written, with `null` or otherwise.
pub proof fn lemma_required_only_wire_form(m: MessageView)
    requires
        only_required_fields(m),
    ensures
        message_json(m) == "{\"To\":"@ + emails_json(m.to) + ",\"From\":"@ + email_json(m.from)
            + ",\"Subject\":"@ + json_string_literal(m.subject) + ",\"TextBody\":"@
            + json_string_literal(m.text_body) + "}"@,
{
    let e = Seq::<char>::empty();
    assert(e + e + e + e + e + e + e + e + e + e + e =~= e);
    assert(required_json(m) + e =~= required_json(m));
}

fn append_optional_emails(out: &mut String, prefix: &str, l: &Option<Vec<Email>>)
    ensures
        final(out)@ == old(out)@ + optional_json(
            prefix@,
            match emails_option_view(*l) {
                Some(v) => Some(emails_json(v)),
                None => None,
            },
        ),
{
    match l {
        Some(v) => {
            out.append(prefix);
            let j = emails_to_json(v);
            out.append(j.as_str());
        },
        None => {
            assert(old(out)@ + seq![] == old(out)@);
        },
    }
}

impl Message {
    /// A message from the given sender, with no recipient and an empty subject
    /// and text body; fails with `InvalidAddress` when the sender's address
    /// does not follow the address grammar.
    pub fn new(address: &str, name: Option<&str>) -> (r: Result<Message, Error>)
        ensures
            r is Ok <==> is_valid_address(address@),
            r matches Ok(m) ==> m@ == fresh_message(email_of(address@, name)),
            r matches Err(e) ==> e.kind matches ErrorKind::InvalidAddress(a) && a@ == address@,
    {
        let from = Email::new(address, name)?;
        let m = Message {
            to: Vec::new(),
            from,
            subject: String::new(),
            text_body: String::new(),
            html_body: None,
            api_template: None,
            mailing_id: None,
            message_id: None,
            charset: None,
            custom_headers: None,
            cc: None,
            bcc: None,
            reply_to: None,
            attachments: None,
            merge_data: None,
        };
        assert(m@.to == Seq::<EmailView>::empty());
        Ok(m)
    }

    /// Appends a recipient; on an invalid address the message is left as it was.
    pub fn add_to(&mut self, address: &str, name: Option<&str>) -> (r: Result<(), Error>)
        ensures
            r is Ok <==> is_valid_address(address@),
            r is Ok ==> final(self)@ == (MessageView {
                to: old(self)@.to.push(email_of(address@, name)),
                ..old(self)@
            }),
            r is Err ==> final(self)@ == old(self)@,
            r matches Err(e) ==> e.kind matches ErrorKind::InvalidAddress(a) && a@ == address@,
    {
        let email = Email::new(address, name)?;
        self.to.push(email);
        assert(emails_view(self.to@) == emails_view(old(self).to@).push(email@));
        Ok(())
    }

    /// Replaces the sender; on an invalid address the message is left as it was.
    pub fn set_from(&mut self, address: &str, name: Option<&str>) -> (r: Result<(), Error>)
        ensures
            r is Ok <==> is_valid_address(address@),
            r is Ok ==> final(self)@ == (MessageView { from: email_of(address@, name), ..old(self)@ }),
            r is Err ==> final(self)@ == old(self)@,
            r matches Err(e) ==> e.kind matches ErrorKind::InvalidAddress(a) && a@ == address@,
    {
        let email = Email::new(address, name)?;
        self.from = email;
        Ok(())
    }

    pub fn set_subject(&mut self, subject: &str)
        ensures
            final(self)@ == (MessageView { subject: subject@, ..old(self)@ }),
    {
        self.subject = String::from_str(subject);
    }

    pub fn set_text(&mut self, text: &str)
        ensures
            final(self)@ == (MessageView { text_body: text@, ..old(self)@ }),
    {
        self.text_body = String::from_str(text);
    }

    pub fn set_html(&mut self, html: &str)
        ensures
            final(self)@ == (MessageView { html_body: Some(html@), ..old(self)@ }),
    {
        self.html_body = Some(String::from_str(html));
    }

    /// Refers the message to a template stored with the provider.
    pub fn set_api_template(&mut self, api_template: &str)
        ensures
            final(self)@ == (MessageView { api_template: Some(api_template@), ..old(self)@ }),
    {
        self.api_template = Some(String::from_str(api_template));
    }

    /// Tags the batch this message belongs to.
    pub fn set_mailing_id(&mut self, mailing_id: &str)
        ensures
            final(self)@ == (MessageView { mailing_id: Some(mailing_id@), ..old(self)@ }),
    {
        self.mailing_id = Some(String::from_str(mailing_id));
    }

    /// Tags this message.
    pub fn set_message_id(&mut self, message_id: &str)
        ensures
            final(self)@ == (MessageView { message_id: Some(message_id@), ..old(self)@ }),
    {
        self.message_id = Some(String::from_str(message_id));
    }

    pub fn set_charset(&mut self, charset: &str)
        ensures
            final(self)@ == (MessageView { charset: Some(charset@), ..old(self)@ }),
    {
        self.charset = Some(String::from_str(charset));
    }

    /// Appends one custom header per pair, in the order given, creating the
    /// list on first use. Names are not deduplicated.
    pub fn add_headers(&mut self, headers: Vec<(String, String)>)
        ensures
            final(self)@ == (MessageView {
                custom_headers: Some(
                    match old(self)@.custom_headers {
                        Some(l) => l,
                        None => seq![],
                    } + pairs_view(headers@),
                ),
                ..old(self)@
            }),
    {
        let mut list = match self.custom_headers.take() {
            Some(l) => l,
            None => Vec::new(),
        };
        push_pairs(&mut list, headers);
        self.custom_headers = Some(list);
    }

    /// Appends a cc'd recipient, creating the list on first use; on an invalid
    /// address the message is left as it was.
    pub fn add_cc(&mut self, address: &str, name: Option<&str>) -> (r: Result<(), Error>)
        ensures
            r is Ok <==> is_valid_address(address@),
            r is Ok ==> final(self)@ == (MessageView {
                cc: Some(
                    match old(self)@.cc {
                        Some(l) => l,
                        None => seq![],
                    }.push(email_of(address@, name)),
                ),
                ..old(self)@
            }),
            r is Err ==> final(self)@ == old(self)@,
            r matches Err(e) ==> e.kind matches ErrorKind::InvalidAddress(a) && a@ == address@,
    {
        let email = Email::new(address, name)?;
        let mut list = match self.cc.take() {
            Some(l) => l,
            None => Vec::new(),
        };
        let ghost before = list@;
        assert(emails_view(before) =~= match old(self)@.cc {
            Some(l) => l,
            None => seq![],
        });
        list.push(email);
        assert(emails_view(list@) == emails_view(before).push(email@));
        self.cc = Some(list);
        Ok(())
    }

    /// Appends a bcc'd recipient, creating the list on first use; on an
    /// invalid address the message is left as it was.
    pub fn add_bcc(&mut self, address: &str, name: Option<&str>) -> (r: Result<(), Error>)
        ensures
            r is Ok <==> is_valid_address(address@),
            r is Ok ==> final(self)@ == (MessageView {
                bcc: Some(
                    match old(self)@.bcc {
                        Some(l) => l,
                        None => seq![],
                    }.push(email_of(address@, name)),
                ),
                ..old(self)@
            }),
            r is Err ==> final(self)@ == old(self)@,
            r matches Err(e) ==> e.kind matches ErrorKind::InvalidAddress(a) && a@ == address@,
    {
        let email = Email::new(address, name)?;
        let mut list = match self.bcc.take() {
            Some(l) => l,
            None => Vec::new(),
        };
        let ghost before = list@;
        assert(emails_view(before) =~= match old(self)@.bcc {
            Some(l) => l,
            None => seq![],
        });
        list.push(email);
        assert(emails_view(list@) == emails_view(before).push(email@));
        self.bcc = Some(list);
        Ok(())
    }

    /// Sets the address for replies; on an invalid address the message is
    /// left as it was.
    pub fn set_reply_to(&mut self, address: &str, name: Option<&str>) -> (r: Result<(), Error>)
        ensures
            r is Ok <==> is_valid_address(address@),
            r is Ok ==> final(self)@ == (MessageView {
                reply_to: Some(email_of(address@, name)),
                ..old(self)@
            }),
            r is Err ==> final(self)@ == old(self)@,
            r matches Err(e) ==> e.kind matches ErrorKind::InvalidAddress(a) && a@ == address@,
    {
        let email = Email::new(address, name)?;
        self.reply_to = Some(email);
        Ok(())
    }

    /// Appends an attachment, creating the list on first use.
    pub fn add_attachment(&mut self, attachment: Attachment)
        ensures
            final(self)@ == (MessageView {
                attachments: Some(
                    match old(self)@.attachments {
                        Some(l) => l,
                        None => seq![],
                    }.push(attachment@),
                ),
                ..old(self)@
            }),
    {
        let mut list = match self.attachments.take() {
            Some(l) => l,
            None => Vec::new(),
        };
        let ghost before = list@;
        assert(before.map_values(|a: Attachment| a@) =~= match old(self)@.attachments {
            Some(l) => l,
            None => seq![],
        });
        list.push(attachment);
        assert(list@.map_values(|a: Attachment| a@) == before.map_values(|a: Attachment| a@).push(
            attachment@,
        ));
        self.attachments = Some(list);
    }

    /// Appends a pair to the per-message merge data, creating it on first use.
    pub fn add_per_message_data(&mut self, field: &str, value: &str)
        ensures
            final(self)@ == (MessageView {
                merge_data: Some(
                    match old(self)@.merge_data {
                        Some(d) => MergeDataView {
                            per_message: d.per_message.push(
                                DataView { field: field@, value: value@ },
                            ),
                            ..d
                        },
                        None => MergeDataView {
                            per_message: seq![DataView { field: field@, value: value@ }],
                            global: seq![],
                        },
                    },
                ),
                ..old(self)@
            }),
    {
        let mut data = match self.merge_data.take() {
            Some(d) => d,
            None => MergeData::new(),
        };
        data.add_per_message(field, value);
        self.merge_data = Some(data);
        proof {
            if old(self)@.merge_data is None {
                assert(data@.per_message == seq![DataView { field: field@, value: value@ }]);
            }
        }
    }

    /// Appends a pair to the global merge data, creating it on first use.
    pub fn add_global_data(&mut self, field: &str, value: &str)
        ensures
            final(self)@ == (MessageView {
                merge_data: Some(
                    match old(self)@.merge_data {
                        Some(d) => MergeDataView {
                            global: d.global.push(DataView { field: field@, value: value@ }),
                            ..d
                        },
                        None => MergeDataView {
                            per_message: seq![],
                            global: seq![DataView { field: field@, value: value@ }],
                        },
                    },
                ),
                ..old(self)@
            }),
    {
        let mut data = match self.merge_data.take() {
            Some(d) => d,
            None => MergeData::new(),
        };
        data.add_global(field, value);
        self.merge_data = Some(data);
        proof {
            if old(self)@.merge_data is None {
                assert(data@.global == seq![DataView { field: field@, value: value@ }]);
            }
        }
    }

    fn optional_parts_to_json(&self) -> (r: String)
        ensures
            r@ == optional_json_parts(self@),
    {
        let mut out = String::new();
        append_optional_text(&mut out, ",\"HtmlBody\":", &self.html_body);
        assert(out@ =~= optional_text(",\"HtmlBody\":"@, self@.html_body));
        append_optional_text(&mut out, ",\"ApiTemplate\":", &self.api_template);
        append_optional_text(&mut out, ",\"MailingId\":", &self.mailing_id);
        append_optional_text(&mut out, ",\"MessageId\":", &self.message_id);
        append_optional_text(&mut out, ",\"Charset\":", &self.charset);
        append_optional_headers(&mut out, ",\"CustomHeaders\":", &self.custom_headers);
        append_optional_emails(&mut out, ",\"Cc\":", &self.cc);
        append_optional_emails(&mut out, ",\"Bcc\":", &self.bcc);
        match &self.reply_to {
            Some(e) => {
                out.append(",\"ReplyTo\":");
                let j = e.to_json();
                out.append(j.as_str());
            },
            None => {
                assert(out@ + seq![] == out@);
            },
        }
        match &self.attachments {
            Some(l) => {
                out.append(",\"Attachments\":");
                let j = attachments_to_json(l);
                out.append(j.as_str());
            },
            None => {
                assert(out@ + seq![] == out@);
            },
        }
        match &self.merge_data {
            Some(d) => {
                out.append(",\"MergeData\":");
                let j = d.to_json();
                out.append(j.as_str());
            },
            None => {
                assert(out@ + seq![] == out@);
            },
        }
        out
    }

    /// The wire form of this message.
    pub fn to_json(&self) -> (r: String)
        ensures
            r@ == message_json(self@),
    {
        let mut out = String::from_str("{\"To\":");
        let j = emails_to_json(&self.to);
        out.append(j.as_str());
        out.append(",\"From\":");
        let j = self.from.to_json();
        out.append(j.as_str());
        out.append(",\"Subject\":");
        let j = quote(self.subject.as_str());
        out.append(j.as_str());
        out.append(",\"TextBody\":");
        let j = quote(self.text_body.as_str());
        out.append(j.as_str());
        let rest = self.optional_parts_to_json();
        out.append(rest.as_str());
        out.append("}");
        out
    }
}

} // verus!
