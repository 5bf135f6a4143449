//! Base message shared by requests and responses: a header map and a body.
//! The body is absent, a single in-memory byte buffer, or the reserved
//! multipart tag. A JSON value can be set as the body, printed at four-space
//! indent and encoded as UTF-8, and a body can be decoded back into a JSON
//! value.

use crate::casefold::KeyValueSeq;
use crate::codec::{
    bytes_as_str, json_parse_ok, json_parse_val, json_round_trips, json_text, parse_text,
    pretty_text,
};
use crate::headers::{hm_get, hm_insert, HeaderMap};
use crate::{APPLICATION_JSON, CONTENT_TYPE};
use vstd::prelude::*;
use vstd::utf8::{decode_utf8, encode_utf8, valid_utf8};

verus! {

/// Model of a message body: absent, a single byte buffer, or the reserved
/// multipart tag.
pub enum BodyModel {
    Absent,
    Single(Seq<u8>),
    Multipart,
}

/// Message body. The multipart variant is a forward-compatibility
/// placeholder and is not constructible through the public interface.
enum MessageBody {
    Absent,
    Single(Vec<u8>),
    Multipart,
}

impl View for MessageBody {
    type V = BodyModel;

    closed spec fn view(&self) -> BodyModel {
        match self {
            MessageBody::Absent => BodyModel::Absent,
            MessageBody::Single(b) => BodyModel::Single(b@),
            MessageBody::Multipart => BodyModel::Multipart,
        }
    }
}

impl MessageBody {
    #[allow(dead_code)]
    fn is_none(&self) -> (r: bool)
        ensures
            r == (self@ is Absent),
    {
        matches!(self, MessageBody::Absent)
    }

    fn is_single(&self) -> (r: bool)
        ensures
            r == (self@ is Single),
    {
        matches!(self, MessageBody::Single(_))
    }

    fn is_multipart(&self) -> (r: bool)
        ensures
            r == (self@ is Multipart),
    {
        matches!(self, MessageBody::Multipart)
    }
}

/// Error returned when a message body cannot be decoded as a JSON value.
#[derive(Debug)]
pub enum DecodeError {
    /// The message has no single in-memory body.
    EmptyBody,
    /// The body bytes are not valid UTF-8; carries the decoding failure.
    Utf8(core::str::Utf8Error),
    /// The body text is not valid JSON; carries the parser's failure.
    Syntax(json::Error),
}

impl DecodeError {
    /// A short description of the failure.
    pub fn message(&self) -> (r: &'static str)
        ensures
            self is EmptyBody ==> r@ == "empty body"@,
            self is Utf8 ==> r@ == "invalid utf-8 body"@,
            self is Syntax ==> r@ == "invalid json body"@,
    {
        match self {
            DecodeError::EmptyBody => "empty body",
            DecodeError::Utf8(_) => "invalid utf-8 body",
            DecodeError::Syntax(_) => "invalid json body",
        }
    }
}

/// Model of a message: its header entries and its body.
pub struct MessageModel {
    pub headers: KeyValueSeq,
    pub body: BodyModel,
}

/// A single body whose bytes decode as UTF-8 text that the JSON parser
/// accepts.
pub open spec fn json_decodable(b: BodyModel) -> bool {
    &&& b is Single
    &&& valid_utf8(b->Single_0)
    &&& json_parse_ok(decode_utf8(b->Single_0))
}

/// The JSON value a decodable body decodes to.
pub open spec fn json_decoded(b: BodyModel) -> json::JsonValue {
    json_parse_val(decode_utf8(b->Single_0))
}

/// Law: a body holding the UTF-8 encoding of the text printed for a JSON
/// value decodes back to that value, for every value whose printed text
/// parses back to itself.
pub proof fn lemma_json_round_trip(b: BodyModel, v: json::JsonValue)
    requires
        json_round_trips(v, 4),
        b == BodyModel::Single(encode_utf8(json_text(v, 4))),
    ensures
        json_decodable(b),
        json_decoded(b) == v,
{
    broadcast use vstd::utf8::encode_utf8_valid_utf8, vstd::utf8::encode_utf8_decode_utf8;

}

fn copy_bytes(b: &[u8]) -> (r: Vec<u8>)
    ensures
        r@ == b@,
{
    let n = b.len();
    let mut r: Vec<u8> = Vec::new();
    let mut i: usize = 0;
    while i < n
        invariant
            n == b@.len(),
            0 <= i <= n,
            r@ =~= b@.take(i as int),
        decreases n - i,
    {
        r.push(b[i]);
        i += 1;
    }
    proof {
        assert(r@ =~= b@);
    }
    r
}

/// Base message struct for `Request` and `Response`: a header map and a
/// body.
pub struct HttpMessage {
    headers: HeaderMap,
    body: MessageBody,
}

impl View for HttpMessage {
    type V = MessageModel;

    closed spec fn view(&self) -> MessageModel {
        MessageModel { headers: self.headers@, body: self.body@ }
    }
}

impl HttpMessage {
    /// Constructor: empty headers, no body.
    pub fn new() -> (r: HttpMessage)
        ensures
            r@.headers == KeyValueSeq::empty(),
            r@.body is Absent,
    {
        HttpMessage { headers: HeaderMap::new(), body: MessageBody::Absent }
    }

    /// Inserts a header with `key` and `value`, replacing any header stored
    /// under the same name ignoring ASCII case.
    pub fn insert_header(&mut self, key: &str, value: &str) -> (r: &mut Self)
        ensures
            r@.headers == hm_insert(old(self)@.headers, key@, value@),
            r@.body == old(self)@.body,
            *final(self) == *final(r),
    {
        self.headers.insert(key, value);
        self
    }

    /// Gets the headers map.
    pub fn headers(&self) -> (r: &HeaderMap)
        ensures
            r@ == self@.headers,
    {
        &self.headers
    }

    /// Gets a mutable reference to the headers map.
    pub fn headers_mut(&mut self) -> (r: &mut HeaderMap)
        ensures
            r@ == old(self)@.headers,
            final(self)@.headers == final(r)@,
            final(self)@.body == old(self)@.body,
    {
        &mut self.headers
    }

    /// Checks if the message has a single in-memory body.
    pub fn has_single_body(&self) -> (r: bool)
        ensures
            r == (self@.body is Single),
    {
        self.body.is_single()
    }

    /// Checks if the message has a multipart body.
    pub fn has_multipart_body(&self) -> (r: bool)
        ensures
            r == (self@.body is Multipart),
    {
        self.body.is_multipart()
    }

    /// Sets a single body, discarding any previous body.
    pub fn set_body(&mut self, data: Vec<u8>) -> (r: &mut Self)
        ensures
            r@.body == BodyModel::Single(data@),
            r@.headers == old(self)@.headers,
            *final(self) == *final(r),
    {
        self.body = MessageBody::Single(data);
        self
    }

    /// Gets the body buffer if the body is a single buffer; `None` otherwise.
    pub fn body(&self) -> (r: Option<&Vec<u8>>)
        ensures
            self@.body matches BodyModel::Single(b) ==> r matches Some(v) && v@ == b,
            !(self@.body is Single) ==> r is None,
    {
        match &self.body {
            MessageBody::Single(b) => Some(b),
            _ => None,
        }
    }

    /// Sets a JSON value as the message body: the value is printed at
    /// four-space indent, encoded as UTF-8, and stored as the single body,
    /// and the `Content-Type` header is set to `application/json`,
    /// overwriting any prior value.
    pub fn set_json(&mut self, data: &json::JsonValue) -> (r: &mut Self)
        ensures
            r@.headers == hm_insert(old(self)@.headers, CONTENT_TYPE@, APPLICATION_JSON@),
            hm_get(r@.headers, CONTENT_TYPE@) == Some(APPLICATION_JSON@),
            r@.body == BodyModel::Single(encode_utf8(json_text(*data, 4))),
            json_round_trips(*data, 4) ==> json_decodable(r@.body) && json_decoded(r@.body)
                == *data,
            *final(self) == *final(r),
    {
        proof {
            use_type_invariant(&self.headers);
        }
        let pretty = pretty_text(data, 4);
        let bytes = copy_bytes(pretty.as_str().as_bytes());
        self.headers.insert(CONTENT_TYPE, APPLICATION_JSON);
        self.body = MessageBody::Single(bytes);
        proof {
            crate::headers::lemma_hm_insert_get(
                old(self)@.headers,
                CONTENT_TYPE@,
                APPLICATION_JSON@,
                CONTENT_TYPE@,
            );
            if json_round_trips(*data, 4) {
                lemma_json_round_trip(self@.body, *data);
            }
        }
        self
    }

    /// Checks that the message has a single body and tries to parse it as a
    /// JSON value. Fails when the body is absent or multipart, when its
    /// bytes are not UTF-8, and when its text is not JSON; succeeds exactly
    /// otherwise. The `Content-Type` header is neither required nor checked.
    pub fn json(&self) -> (r: Result<json::JsonValue, DecodeError>)
        ensures
            r is Ok <==> json_decodable(self@.body),
            r matches Ok(v) ==> v == json_decoded(self@.body),
            !(self@.body is Single) ==> (r matches Err(e) && e is EmptyBody),
            self@.body matches BodyModel::Single(b) && !valid_utf8(b) ==> (r matches Err(e)
                && e is Utf8),
            self@.body matches BodyModel::Single(b) && valid_utf8(b) && !json_parse_ok(
                decode_utf8(b),
            ) ==> (r matches Err(e) && e is Syntax),
    {
        let bytes = match &self.body {
            MessageBody::Single(b) => b,
            _ => {
                return Err(DecodeError::EmptyBody);
            },
        };
        let text = match bytes_as_str(bytes.as_slice()) {
            Ok(s) => s,
            Err(e) => {
                return Err(DecodeError::Utf8(e));
            },
        };
        proof {
            broadcast use vstd::utf8::encode_utf8_decode_utf8;

        }
        match parse_text(text) {
            Ok(v) => Ok(v),
            Err(e) => Err(DecodeError::Syntax(e)),
        }
    }
}

} // verus!
