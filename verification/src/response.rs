//! HTTP response: a status code, an ordered list of outgoing cookies, the
//! ordered lists of authentication and proxy-authentication challenges, and
//! the embedded base message. The cookie list is append-only, keeps
//! insertion order, and may hold several cookies with the same or
//! differently-cased names; cookies themselves are `wcookie::SetCookie`
//! values, stored and returned without interpretation.

use crate::casefold::KeyValueSeq;
use crate::codec::{json_parse_ok, json_round_trips, json_text};
use crate::headers::{hm_get, hm_insert, HeaderMap};
use crate::message::{
    json_decodable, json_decoded, BodyModel, DecodeError, HttpMessage, MessageModel,
};
use crate::{APPLICATION_JSON, CONTENT_TYPE};
use vstd::prelude::*;
use vstd::utf8::{decode_utf8, encode_utf8, valid_utf8};

verus! {

/// Declares `wcookie::SetCookie`, the opaque outgoing-cookie value stored
/// and returned without interpretation.
#[verifier::external_type_specification]
#[verifier::external_body]
pub struct ExSetCookie(wcookie::SetCookie);

/// HTTP response status code. Any value in range is accepted; codes are not
/// validated against the registry of assigned codes.
pub type HttpStatusCode = u16;

/// Model of a response: its status code, its outgoing cookies in insertion
/// order, its authentication and proxy-authentication challenges in
/// insertion order, and the embedded message.
pub struct ResponseModel {
    pub status: u16,
    pub cookies: Seq<wcookie::SetCookie>,
    pub auth: Seq<Seq<char>>,
    pub proxy_auth: Seq<Seq<char>>,
    pub message: MessageModel,
}

/// HTTP response.
pub struct Response {
    base: HttpMessage,
    status_code: HttpStatusCode,
    cookies: Vec<wcookie::SetCookie>,
    auth: Vec<String>,
    proxy_auth: Vec<String>,
}

impl View for Response {
    type V = ResponseModel;

    closed spec fn view(&self) -> ResponseModel {
        ResponseModel {
            status: self.status_code,
            cookies: self.cookies@,
            auth: self.auth@.map_values(|s: String| s@),
            proxy_auth: self.proxy_auth@.map_values(|s: String| s@),
            message: self.base@,
        }
    }
}

impl Response {
    /// Constructor: only the status code is required; every other field
    /// starts empty.
    pub fn new(status: HttpStatusCode) -> (r: Response)
        ensures
            r@.status == status,
            r@.cookies == Seq::<wcookie::SetCookie>::empty(),
            r@.auth == Seq::<Seq<char>>::empty(),
            r@.proxy_auth == Seq::<Seq<char>>::empty(),
            r@.message.headers == KeyValueSeq::empty(),
            r@.message.body is Absent,
    {
        let r = Response {
            base: HttpMessage::new(),
            cookies: Vec::new(),
            status_code: status,
            auth: Vec::new(),
            proxy_auth: Vec::new(),
        };
        proof {
            assert(r@.auth =~= Seq::<Seq<char>>::empty());
            assert(r@.proxy_auth =~= Seq::<Seq<char>>::empty());
        }
        r
    }

    /// Gets the response status code.
    pub fn status_code(&self) -> (r: HttpStatusCode)
        ensures
            r == self@.status,
    {
        self.status_code
    }

    /// Appends a response cookie. The list keeps insertion order and is
    /// never deduplicated, so cookies with equal or differently-cased names
    /// all stay.
    pub fn insert_cookie(&mut self, value: wcookie::SetCookie) -> (r: &mut Self)
        ensures
            r@ == (ResponseModel { cookies: old(self)@.cookies.push(value), ..old(self)@ }),
            *final(self) == *final(r),
    {
        self.cookies.push(value);
        self
    }

    /// Gets the response cookies, in insertion order.
    pub fn cookies(&self) -> (r: Vec<&wcookie::SetCookie>)
        ensures
            r@.len() == self@.cookies.len(),
            forall|i: int| 0 <= i < r@.len() ==> *(#[trigger] r@[i]) == self@.cookies[i],
    {
        let n = self.cookies.len();
        let mut r: Vec<&wcookie::SetCookie> = Vec::new();
        let mut i: usize = 0;
        while i < n
            invariant
                n == self.cookies.len(),
                0 <= i <= n,
                r@.len() == i,
                forall|j: int| 0 <= j < i ==> *(#[trigger] r@[j]) == self@.cookies[j],
            decreases n - i,
        {
            r.push(&self.cookies[i]);
            i += 1;
        }
        r
    }

    /// Appends an authentication challenge header value.
    pub fn insert_auth_headers(&mut self, auth: &str) -> (r: &mut Self)
        ensures
            r@ == (ResponseModel { auth: old(self)@.auth.push(auth@), ..old(self)@ }),
            *final(self) == *final(r),
    {
        self.auth.push(auth.to_owned());
        proof {
            assert(self@.auth =~= old(self)@.auth.push(auth@));
        }
        self
    }

    /// Gets the authentication challenge header values, in insertion order.
    pub fn auth_headers(&self) -> (r: &Vec<String>)
        ensures
            r@.len() == self@.auth.len(),
            forall|i: int| 0 <= i < r@.len() ==> (#[trigger] r@[i])@ == self@.auth[i],
    {
        &self.auth
    }

    /// Gets a mutable reference to the authentication challenge header
    /// values.
    pub fn auth_headers_mut(&mut self) -> (r: &mut Vec<String>)
        ensures
            final(self)@ == (ResponseModel {
                auth: final(r)@.map_values(|s: String| s@),
                ..old(self)@
            }),
            r@.map_values(|s: String| s@) == old(self)@.auth,
    {
        &mut self.auth
    }

    /// Appends a proxy-authentication challenge header value.
    pub fn insert_proxy_auth_header(&mut self, auth: &str) -> (r: &mut Self)
        ensures
            r@ == (ResponseModel { proxy_auth: old(self)@.proxy_auth.push(auth@), ..old(self)@ }),
            *final(self) == *final(r),
    {
        self.proxy_auth.push(auth.to_owned());
        proof {
            assert(self@.proxy_auth =~= old(self)@.proxy_auth.push(auth@));
        }
        self
    }

    /// Gets the proxy-authentication challenge header values, in insertion
    /// order.
    pub fn proxy_auth_headers(&self) -> (r: &Vec<String>)
        ensures
            r@.len() == self@.proxy_auth.len(),
            forall|i: int| 0 <= i < r@.len() ==> (#[trigger] r@[i])@ == self@.proxy_auth[i],
    {
        &self.proxy_auth
    }

    /// Gets a mutable reference to the proxy-authentication challenge header
    /// values.
    pub fn proxy_auth_headers_mut(&mut self) -> (r: &mut Vec<String>)
        ensures
            final(self)@ == (ResponseModel {
                proxy_auth: final(r)@.map_values(|s: String| s@),
                ..old(self)@
            }),
            r@.map_values(|s: String| s@) == old(self)@.proxy_auth,
    {
        &mut self.proxy_auth
    }

    /// Inserts a header with `key` and `value`, replacing any header stored
    /// under the same name ignoring ASCII case.
    pub fn insert_header(&mut self, key: &str, value: &str) -> (r: &mut Self)
        ensures
            r@ == (ResponseModel {
                message: MessageModel {
                    headers: hm_insert(old(self)@.message.headers, key@, value@),
                    body: old(self)@.message.body,
                },
                ..old(self)@
            }),
            *final(self) == *final(r),
    {
        self.base.insert_header(key, value);
        self
    }

    /// Gets the headers map.
    pub fn headers(&self) -> (r: &HeaderMap)
        ensures
            r@ == self@.message.headers,
    {
        self.base.headers()
    }

    /// Gets a mutable reference to the headers map.
    pub fn headers_mut(&mut self) -> (r: &mut HeaderMap)
        ensures
            r@ == old(self)@.message.headers,
            final(self)@ == (ResponseModel {
                message: MessageModel {
                    headers: final(r)@,
                    body: old(self)@.message.body,
                },
                ..old(self)@
            }),
    {
        self.base.headers_mut()
    }

    /// Checks if the response has a single in-memory body.
    pub fn has_single_body(&self) -> (r: bool)
        ensures
            r == (self@.message.body is Single),
    {
        self.base.has_single_body()
    }

    /// Checks if the response has a multipart body.
    pub fn has_multipart_body(&self) -> (r: bool)
        ensures
            r == (self@.message.body is Multipart),
    {
        self.base.has_multipart_body()
    }

    /// Sets a single body, discarding any previous body.
    pub fn set_body(&mut self, data: Vec<u8>) -> (r: &mut Self)
        ensures
            r@ == (ResponseModel {
                message: MessageModel {
                    headers: old(self)@.message.headers,
                    body: BodyModel::Single(data@),
                },
                ..old(self)@
            }),
            *final(self) == *final(r),
    {
        self.base.set_body(data);
        self
    }

    /// Gets the body buffer if the body is a single buffer; `None` otherwise.
    pub fn body(&self) -> (r: Option<&Vec<u8>>)
        ensures
            self@.message.body matches BodyModel::Single(b) ==> r matches Some(v) && v@ == b,
            !(self@.message.body is Single) ==> r is None,
    {
        self.base.body()
    }

    /// Sets a JSON value as the response body and the `Content-Type` header
    /// to `application/json`.
    pub fn set_json(&mut self, data: &json::JsonValue) -> (r: &mut Self)
        ensures
            r@ == (ResponseModel {
                message: MessageModel {
                    headers: hm_insert(
                        old(self)@.message.headers,
                        CONTENT_TYPE@,
                        APPLICATION_JSON@,
                    ),
                    body: BodyModel::Single(encode_utf8(json_text(*data, 4))),
                },
                ..old(self)@
            }),
            hm_get(r@.message.headers, CONTENT_TYPE@) == Some(APPLICATION_JSON@),
            json_round_trips(*data, 4) ==> json_decodable(r@.message.body) && json_decoded(
                r@.message.body,
            ) == *data,
            *final(self) == *final(r),
    {
        self.base.set_json(data);
        self
    }

    /// Checks that the response has a single body and tries to parse it as a
    /// JSON value.
    pub fn json(&self) -> (r: Result<json::JsonValue, DecodeError>)
        ensures
            r is Ok <==> json_decodable(self@.message.body),
            r matches Ok(v) ==> v == json_decoded(self@.message.body),
            !(self@.message.body is Single) ==> (r matches Err(e) && e is EmptyBody),
            self@.message.body matches BodyModel::Single(b) && !valid_utf8(b) ==> (r matches Err(
                e,
            ) && e is Utf8),
            self@.message.body matches BodyModel::Single(b) && valid_utf8(b) && !json_parse_ok(
                decode_utf8(b),
            ) ==> (r matches Err(e) && e is Syntax),
    {
        self.base.json()
    }
}

} // verus!
