//! HTTP request: a method, the verbatim target string, the structured URL
//! when the target parses, query parameters, request cookies, and the
//! embedded base message. A malformed target is tolerated: construction
//! never fails, the target string stays available, and only the structured
//! URL is absent.

use crate::casefold::KeyValueSeq;
use crate::codec::{json_parse_ok, json_round_trips, json_text};
use crate::headers::{hm_get, hm_insert, HeaderMap};
use crate::kvmap::{kv_insert, KeyValueMap};
use crate::message::{
    json_decodable, json_decoded, BodyModel, DecodeError, HttpMessage, MessageModel,
};
use crate::{APPLICATION_JSON, CONTENT_TYPE};
use vstd::prelude::*;
use vstd::string::StringExecFns;
use vstd::utf8::{decode_utf8, encode_utf8, valid_utf8};

verus! {

/// HTTP request method.
#[derive(Copy, Clone, PartialEq, Eq, Debug, Structural)]
#[allow(non_camel_case_types)]
pub enum HttpMethod {
    GET,
    HEAD,
    POST,
    PUT,
    DELETE,
    CONNECT,
    OPTIONS,
    TRACE,
    PATCH,
}

/// The standard name of a request method.
pub open spec fn method_text(m: HttpMethod) -> Seq<char> {
    match m {
        HttpMethod::GET => "GET"@,
        HttpMethod::HEAD => "HEAD"@,
        HttpMethod::POST => "POST"@,
        HttpMethod::PUT => "PUT"@,
        HttpMethod::DELETE => "DELETE"@,
        HttpMethod::CONNECT => "CONNECT"@,
        HttpMethod::OPTIONS => "OPTIONS"@,
        HttpMethod::TRACE => "TRACE"@,
        HttpMethod::PATCH => "PATCH"@,
    }
}

impl HttpMethod {
    /// The standard name of the method.
    pub fn as_str(&self) -> (r: &'static str)
        ensures
            r@ == method_text(*self),
    {
        match self {
            HttpMethod::GET => "GET",
            HttpMethod::HEAD => "HEAD",
            HttpMethod::POST => "POST",
            HttpMethod::PUT => "PUT",
            HttpMethod::DELETE => "DELETE",
            HttpMethod::CONNECT => "CONNECT",
            HttpMethod::OPTIONS => "OPTIONS",
            HttpMethod::TRACE => "TRACE",
            HttpMethod::PATCH => "PATCH",
        }
    }
}

/// Declares `url::Url`, the opaque structured URL stored when a target
/// parses.
#[verifier::external_type_specification]
#[verifier::external_body]
pub struct ExUrl(url::Url);

/// Whether `url`'s parser accepts a target string; a function of the string
/// alone.
pub uninterp spec fn url_parse_ok(s: Seq<char>) -> bool;

/// The structured URL that `url`'s parser returns for an accepted target
/// string; a function of the string alone.
pub uninterp spec fn url_parse_val(s: Seq<char>) -> url::Url;

/// Relies on `url::Url::parse`: the outcome is a deterministic function of
/// the input string alone.
#[verifier::external_body]
fn parse_target(s: &str) -> (r: Option<url::Url>)
    ensures
        r is Some <==> url_parse_ok(s@),
        r matches Some(u) ==> u == url_parse_val(s@),
{
    url::Url::parse(s).ok()
}

/// The textual rendering of stored header entries, one `name=value` line
/// per entry, in storage order.
pub open spec fn render_entries(hs: KeyValueSeq) -> Seq<char>
    decreases hs.len(),
{
    if hs.len() == 0 {
        Seq::empty()
    } else {
        render_entries(hs.drop_last()) + hs.last().0 + "="@ + hs.last().1 + "\n"@
    }
}

/// The debugging rendering of a request: the method and target on the first
/// line, then one `name=value` line per header. Not a wire serialization.
pub open spec fn render_request(r: RequestModel) -> Seq<char> {
    method_text(r.method) + " "@ + r.target + "\n"@ + render_entries(r.message.headers)
}

/// Model of a request: its method, the verbatim target, the structured URL
/// if the target parsed, the parameter and cookie entries, and the embedded
/// message.
pub struct RequestModel {
    pub method: HttpMethod,
    pub target: Seq<char>,
    pub url: Option<url::Url>,
    pub params: KeyValueSeq,
    pub cookies: KeyValueSeq,
    pub message: MessageModel,
}

/// What construction of a request guarantees: the method and target are
/// stored as given, the structured URL is present exactly when the target
/// parses, and everything else starts empty.
pub open spec fn request_new_post(r: RequestModel, method: HttpMethod, target: Seq<char>) -> bool {
    &&& r.method == method
    &&& r.target == target
    &&& r.url == (if url_parse_ok(target) {
        Some(url_parse_val(target))
    } else {
        Option::<url::Url>::None
    })
    &&& r.params == KeyValueSeq::empty()
    &&& r.cookies == KeyValueSeq::empty()
    &&& r.message.headers == KeyValueSeq::empty()
    &&& r.message.body is Absent
}

/// HTTP request.
pub struct Request {
    base: HttpMessage,
    method: HttpMethod,
    target: String,
    url: Option<url::Url>,
    cookies: KeyValueMap,
    params: KeyValueMap,
}

impl View for Request {
    type V = RequestModel;

    closed spec fn view(&self) -> RequestModel {
        RequestModel {
            method: self.method,
            target: self.target@,
            url: self.url,
            params: self.params@,
            cookies: self.cookies@,
            message: self.base@,
        }
    }
}

impl Request {
    /// Constructor: stores the target string verbatim and attempts to parse
    /// it; a malformed target is tolerated and leaves the structured URL
    /// absent. Never fails.
    pub fn new(method: HttpMethod, url: &str) -> (r: Request)
        ensures
            request_new_post(r@, method, url@),
    {
        let target = url.to_owned();
        let parsed_url = parse_target(target.as_str());
        Request {
            base: HttpMessage::new(),
            method,
            target,
            url: parsed_url,
            cookies: KeyValueMap::new(),
            params: KeyValueMap::new(),
        }
    }

    /// Creates a `CONNECT` request builder.
    pub fn connect(url: &str) -> (r: Request)
        ensures
            request_new_post(r@, HttpMethod::CONNECT, url@),
    {
        Self::new(HttpMethod::CONNECT, url)
    }

    /// Creates a `DELETE` request builder.
    pub fn delete(url: &str) -> (r: Request)
        ensures
            request_new_post(r@, HttpMethod::DELETE, url@),
    {
        Self::new(HttpMethod::DELETE, url)
    }

    /// Creates a `GET` request builder.
    pub fn get(url: &str) -> (r: Request)
        ensures
            request_new_post(r@, HttpMethod::GET, url@),
    {
        Self::new(HttpMethod::GET, url)
    }

    /// Creates a `HEAD` request builder.
    pub fn head(url: &str) -> (r: Request)
        ensures
            request_new_post(r@, HttpMethod::HEAD, url@),
    {
        Self::new(HttpMethod::HEAD, url)
    }

    /// Creates an `OPTIONS` request builder.
    pub fn options(url: &str) -> (r: Request)
        ensures
            request_new_post(r@, HttpMethod::OPTIONS, url@),
    {
        Self::new(HttpMethod::OPTIONS, url)
    }

    /// Creates a `PATCH` request builder.
    pub fn patch(url: &str) -> (r: Request)
        ensures
            request_new_post(r@, HttpMethod::PATCH, url@),
    {
        Self::new(HttpMethod::PATCH, url)
    }

    /// Creates a `POST` request builder.
    pub fn post(url: &str) -> (r: Request)
        ensures
            request_new_post(r@, HttpMethod::POST, url@),
    {
        Self::new(HttpMethod::POST, url)
    }

    /// Creates a `PUT` request builder.
    pub fn put(url: &str) -> (r: Request)
        ensures
            request_new_post(r@, HttpMethod::PUT, url@),
    {
        Self::new(HttpMethod::PUT, url)
    }

    /// Creates a `TRACE` request builder.
    pub fn trace(url: &str) -> (r: Request)
        ensures
            request_new_post(r@, HttpMethod::TRACE, url@),
    {
        Self::new(HttpMethod::TRACE, url)
    }

    /// Gets the HTTP method.
    pub fn method(&self) -> (r: HttpMethod)
        ensures
            r == self@.method,
    {
        self.method
    }

    /// Gets the target URL as a string, always the verbatim string the
    /// request was constructed with.
    pub fn target(&self) -> (r: &str)
        ensures
            r@ == self@.target,
    {
        self.target.as_str()
    }

    /// Gets the structured URL; absent exactly when the target string did
    /// not parse.
    pub fn url(&self) -> (r: Option<&url::Url>)
        ensures
            match r {
                Some(u) => self@.url == Some(*u),
                None => self@.url is None,
            },
    {
        self.url.as_ref()
    }

    /// Inserts a request param with `key` and `value`. Param keys are
    /// case-sensitive.
    pub fn insert_param(&mut self, key: &str, value: &str) -> (r: &mut Self)
        ensures
            r@ == (RequestModel { params: kv_insert(old(self)@.params, key@, value@), ..old(self)@ }),
            *final(self) == *final(r),
    {
        self.params.insert(key, value);
        self
    }

    /// Gets the params map.
    pub fn params(&self) -> (r: &KeyValueMap)
        ensures
            r@ == self@.params,
    {
        &self.params
    }

    /// Gets a mutable reference to the params map.
    pub fn params_mut(&mut self) -> (r: &mut KeyValueMap)
        ensures
            r@ == old(self)@.params,
            final(self)@ == (RequestModel { params: final(r)@, ..old(self)@ }),
    {
        &mut self.params
    }

    /// Inserts a request cookie with `key` and `value`. Cookie keys are
    /// case-sensitive.
    pub fn insert_cookie(&mut self, key: &str, value: &str) -> (r: &mut Self)
        ensures
            r@ == (RequestModel {
                cookies: kv_insert(old(self)@.cookies, key@, value@),
                ..old(self)@
            }),
            *final(self) == *final(r),
    {
        self.cookies.insert(key, value);
        self
    }

    /// Gets the cookie map.
    pub fn cookies(&self) -> (r: &KeyValueMap)
        ensures
            r@ == self@.cookies,
    {
        &self.cookies
    }

    /// Gets a mutable reference to the cookie map.
    pub fn cookies_mut(&mut self) -> (r: &mut KeyValueMap)
        ensures
            r@ == old(self)@.cookies,
            final(self)@ == (RequestModel { cookies: final(r)@, ..old(self)@ }),
    {
        &mut self.cookies
    }

    /// Inserts a header with `key` and `value`, replacing any header stored
    /// under the same name ignoring ASCII case.
    pub fn insert_header(&mut self, key: &str, value: &str) -> (r: &mut Self)
        ensures
            r@ == (RequestModel {
                message: MessageModel {
                    headers: hm_insert(old(self)@.message.headers, key@, value@),
                    body: old(self)@.message.body,
                },
                ..old(self)@
            }),
            *final(self) == *final(r),
    {
        self.base.insert_header(key, value);
        self
    }

    /// Gets the headers map.
    pub fn headers(&self) -> (r: &HeaderMap)
        ensures
            r@ == self@.message.headers,
    {
        self.base.headers()
    }

    /// Gets a mutable reference to the headers map.
    pub fn headers_mut(&mut self) -> (r: &mut HeaderMap)
        ensures
            r@ == old(self)@.message.headers,
            final(self)@ == (RequestModel {
                message: MessageModel {
                    headers: final(r)@,
                    body: old(self)@.message.body,
                },
                ..old(self)@
            }),
    {
        self.base.headers_mut()
    }

    /// Checks if the request has a single in-memory body.
    pub fn has_single_body(&self) -> (r: bool)
        ensures
            r == (self@.message.body is Single),
    {
        self.base.has_single_body()
    }

    /// Checks if the request has a multipart body.
    pub fn has_multipart_body(&self) -> (r: bool)
        ensures
            r == (self@.message.body is Multipart),
    {
        self.base.has_multipart_body()
    }

    /// Sets a single body, discarding any previous body.
    pub fn set_body(&mut self, data: Vec<u8>) -> (r: &mut Self)
        ensures
            r@ == (RequestModel {
                message: MessageModel {
                    headers: old(self)@.message.headers,
                    body: BodyModel::Single(data@),
                },
                ..old(self)@
            }),
            *final(self) == *final(r),
    {
        self.base.set_body(data);
        self
    }

    /// Gets the body buffer if the body is a single buffer; `None` otherwise.
    pub fn body(&self) -> (r: Option<&Vec<u8>>)
        ensures
            self@.message.body matches BodyModel::Single(b) ==> r matches Some(v) && v@ == b,
            !(self@.message.body is Single) ==> r is None,
    {
        self.base.body()
    }

    /// Sets a JSON value as the request body and the `Content-Type` header
    /// to `application/json`.
    pub fn set_json(&mut self, data: &json::JsonValue) -> (r: &mut Self)
        ensures
            r@ == (RequestModel {
                message: MessageModel {
                    headers: hm_insert(
                        old(self)@.message.headers,
                        CONTENT_TYPE@,
                        APPLICATION_JSON@,
                    ),
                    body: BodyModel::Single(encode_utf8(json_text(*data, 4))),
                },
                ..old(self)@
            }),
            hm_get(r@.message.headers, CONTENT_TYPE@) == Some(APPLICATION_JSON@),
            json_round_trips(*data, 4) ==> json_decodable(r@.message.body) && json_decoded(
                r@.message.body,
            ) == *data,
            *final(self) == *final(r),
    {
        self.base.set_json(data);
        self
    }

    /// Renders the request for debugging: the method and target on the
    /// first line, then one `name=value` line per header, in storage order.
    pub fn render(&self) -> (r: String)
        ensures
            r@ == render_request(self@),
    {
        let mut out = String::new();
        out.append(self.method.as_str());
        out.append(" ");
        out.append(self.target.as_str());
        out.append("\n");
        let hs = self.base.headers();
        let ghost head = method_text(self@.method) + " "@ + self@.target + "\n"@;
        proof {
            assert(out@ =~= head + render_entries(hs@.take(0)));
        }
        let n = hs.len();
        let mut i: usize = 0;
        while i < n
            invariant
                n == hs@.len(),
                hs@ == self@.message.headers,
                head == method_text(self@.method) + " "@ + self@.target + "\n"@,
                0 <= i <= n,
                out@ == head + render_entries(hs@.take(i as int)),
            decreases n - i,
        {
            let entry = hs.entry_at(i);
            out.append(entry.0);
            out.append("=");
            out.append(entry.1);
            out.append("\n");
            proof {
                assert(hs@.take(i + 1).drop_last() =~= hs@.take(i as int));
                assert(hs@.take(i + 1).last() == hs@[i as int]);
                assert(out@ =~= head + render_entries(hs@.take(i + 1)));
            }
            i += 1;
        }
        proof {
            assert(hs@.take(n as int) =~= hs@);
        }
        out
    }

    /// Checks that the request has a single body and tries to parse it as a
    /// JSON value.
    pub fn json(&self) -> (r: Result<json::JsonValue, DecodeError>)
        ensures
            r is Ok <==> json_decodable(self@.message.body),
            r matches Ok(v) ==> v == json_decoded(self@.message.body),
            !(self@.message.body is Single) ==> (r matches Err(e) && e is EmptyBody),
            self@.message.body matches BodyModel::Single(b) && !valid_utf8(b) ==> (r matches Err(
                e,
            ) && e is Utf8),
            self@.message.body matches BodyModel::Single(b) && valid_utf8(b) && !json_parse_ok(
                decode_utf8(b),
            ) ==> (r matches Err(e) && e is Syntax),
    {
        self.base.json()
    }
}

} // verus!
