//! The request envelope: credentials and the messages to inject.

use vstd::prelude::*;
use vstd::string::StringExecFns;
use crate::error::{Error, ErrorKind};
use crate::message::{array_json, comma_joined, message_json, Message, MessageView};
use crate::text::json_string_literal;

verus! {

/// The address of the injection endpoint.
pub const API_URL: &'static str = "https://inject.socketlabs.com/api/v1/email";

pub struct RequestView {
    pub server_id: u16,
    pub api_key: Seq<char>,
    pub messages: Seq<MessageView>,
}

/// The credentials for the Injection API and the messages to send with them.
#[derive(Debug)]
pub struct Request {
    server_id: u16,
    api_key: String,
    messages: Vec<Message>,
}

pub open spec fn messages_view(l: Seq<Message>) -> Seq<MessageView> {
    l.map_values(|m: Message| m@)
}

impl Request {
    /// A request always carries at least one message.
    #[verifier::type_invariant]
    spec fn inv(&self) -> bool {
        self.messages@.len() > 0
    }
}

impl View for Request {
    type V = RequestView;

    closed spec fn view(&self) -> RequestView {
        RequestView {
            server_id: self.server_id,
            api_key: self.api_key@,
            messages: messages_view(self.messages@),
        }
    }
}

pub open spec fn digit_char(d: nat) -> char {
    (('0' as nat) + d) as char
}

/// The decimal digits of `n`, most significant first, with no leading zero.
pub open spec fn decimal_text(n: nat) -> Seq<char>
    decreases n,
{
    if n < 10 {
        seq![digit_char(n)]
    } else {
        decimal_text(n / 10).push(digit_char(n % 10))
    }
}

/// `{"ServerId": ..., "ApiKey": ..., "Messages": [...]}`.
pub open spec fn request_json(r: RequestView) -> Seq<char> {
    "{\"ServerId\":"@ + decimal_text(r.server_id as nat) + ",\"ApiKey\":"@ + json_string_literal(
        r.api_key,
    ) + ",\"Messages\":"@ + array_json(r.messages.map_values(|m: MessageView| message_json(m)))
        + "}"@
}

fn digit_text(d: u16) -> (r: &'static str)
    requires
        d < 10,
    ensures
        r@ == seq![digit_char(d as nat)],
{
    proof {
        reveal_strlit("0");
        reveal_strlit("1");
        reveal_strlit("2");
        reveal_strlit("3");
        reveal_strlit("4");
        reveal_strlit("5");
        reveal_strlit("6");
        reveal_strlit("7");
        reveal_strlit("8");
        reveal_strlit("9");
    }
    match d {
        0 => "0",
        1 => "1",
        2 => "2",
        3 => "3",
        4 => "4",
        5 => "5",
        6 => "6",
        7 => "7",
        8 => "8",
        _ => "9",
    }
}

fn append_decimal(out: &mut String, n: u16)
    ensures
        final(out)@ == old(out)@ + decimal_text(n as nat),
    decreases n,
{
    if n >= 10 {
        append_decimal(out, n / 10);
    }
    let ghost mid = out@;
    out.append(digit_text(n % 10));
    proof {
        if n >= 10 {
            assert(old(out)@ + decimal_text(n as nat) =~= mid + seq![digit_char((n % 10) as nat)]);
        } else {
            assert(mid == old(out)@);
        }
    }
}

impl Request {
    /// A request that carries the given credentials and messages, in order;
    /// fails with `MessageCountError` when there is no message.
    pub fn new(server_id: u16, api_key: String, messages: Vec<Message>) -> (r: Result<Request, Error>)
        ensures
            r is Err <==> messages@.len() == 0,
            r matches Err(e) ==> e.kind == ErrorKind::MessageCountError,
            r matches Ok(q) ==> q@ == (RequestView {
                server_id,
                api_key: api_key@,
                messages: messages_view(messages@),
            }),
    {
        if messages.len() == 0 {
            return Err(Error::new(ErrorKind::MessageCountError));
        }
        Ok(Request { server_id, api_key, messages })
    }

    /// The messages of the request, in order.
    pub fn messages(&self) -> (r: &Vec<Message>)
        ensures
            messages_view(r@) == self@.messages,
            r@.len() > 0,
    {
        proof {
            use_type_invariant(self);
        }
        &self.messages
    }

    /// The wire form of the request, the body of the POST.
    pub fn to_json(&self) -> (r: String)
        ensures
            r@ == request_json(self@),
    {
        let mut out = String::from_str("{\"ServerId\":");
        append_decimal(&mut out, self.server_id);
        out.append(",\"ApiKey\":");
        let q = crate::text::quote(self.api_key.as_str());
        out.append(q.as_str());
        out.append(",\"Messages\":");
        let mut arr = String::from_str("[");
        let ghost parts = messages_view(self.messages@).map_values(
            |m: MessageView| message_json(m),
        );
        let mut i: usize = 0;
        while i < self.messages.len()
            invariant
                i <= self.messages@.len(),
                parts.len() == self.messages@.len(),
                forall|j: int|
                    0 <= j < self.messages@.len() ==> parts[j] == message_json(
                        #[trigger] self.messages@[j]@,
                    ),
                arr@ == "["@ + comma_joined(parts.take(i as int)),
            decreases self.messages@.len() - i,
        {
            assert(parts.take(i + 1).drop_last() == parts.take(i as int));
            if i > 0 {
                arr.append(",");
            }
            let part = self.messages[i].to_json();
            arr.append(part.as_str());
            i = i + 1;
        }
        assert(parts.take(i as int) == parts);
        arr.append("]");
        out.append(arr.as_str());
        out.append("}");
        out
    }
}

} // verus!
