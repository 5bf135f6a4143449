//! In-memory model of HTTP request and response messages: method, target,
//! headers, query parameters, cookies, status code, and body, independent of
//! any network transport. Header lookups ignore ASCII case; parameter and
//! cookie lookups are exact. Bodies may carry a JSON value, encoded through
//! the `json` crate; request targets are parsed through the `url` crate; and
//! outgoing cookies are `wcookie` values carried verbatim.

pub mod casefold;
pub mod codec;
pub mod headers;
pub mod kvmap;
pub mod message;
pub mod request;
pub mod response;

pub use crate::headers::{HeaderIter, HeaderMap};
pub use crate::kvmap::{KeyValueIter, KeyValueMap};
pub use crate::message::{BodyModel, DecodeError, HttpMessage, MessageModel};
pub use crate::request::{HttpMethod, Request, RequestModel};
pub use crate::response::{HttpStatusCode, Response, ResponseModel};

use vstd::prelude::*;

verus! {

/// `Content-Type` header name.
pub const CONTENT_TYPE: &'static str = "Content-Type";

/// `Content-Type` header value for JSON encoded in UTF-8.
pub const APPLICATION_JSON: &'static str = "application/json";

/// `Accept` header name.
pub const ACCEPT: &'static str = "Accept";

/// HTTP 100 CONTINUE status code.
pub const HTTP_100_CONTINUE: u16 = 100;

/// HTTP 101 SWITCHING PROTOCOLS status code.
pub const HTTP_101_SWITCHING_PROTOCOLS: u16 = 101;

/// HTTP 200 OK status code.
pub const HTTP_200_OK: u16 = 200;

/// HTTP 201 CREATED status code.
pub const HTTP_201_CREATED: u16 = 201;

/// HTTP 202 ACCEPTED status code.
pub const HTTP_202_ACCEPTED: u16 = 202;

/// HTTP 203 NON-AUTHORIZATIVE INFORMATION status code.
pub const HTTP_203_NON_AUTHORIZATIVE_INFORMATION: u16 = 203;

/// HTTP 204 NO CONTENT status code.
pub const HTTP_204_NO_CONTENT: u16 = 204;

/// HTTP 205 RESET CONTENT status code.
pub const HTTP_205_RESET_CONTENT: u16 = 205;

/// HTTP 300 MULTIPLE CHOICES status code.
pub const HTTP_300_MULTIPLE_CHOICES: u16 = 300;

/// HTTP 301 MOVED PERMANENTLY status code.
pub const HTTP_301_MOVED_PERMANENTLY: u16 = 301;

/// HTTP 302 FOUND status code.
pub const HTTP_302_FOUND: u16 = 302;

/// HTTP 303 SEE OTHER status code.
pub const HTTP_303_SEE_OTHER: u16 = 303;

/// HTTP 305 RESET CONTENT status code.
pub const HTTP_305_RESET_CONTENT: u16 = 305;

/// HTTP 307 TEMPORARY REDIRECT status code.
pub const HTTP_307_TEMPORARY_REDIRECT: u16 = 307;

/// HTTP 400 BAD REQUEST status code.
pub const HTTP_400_BAD_REQUEST: u16 = 400;

/// HTTP 401 UNAUTHORIZED status code.
pub const HTTP_401_UNAUTHORIZED: u16 = 401;

/// HTTP 402 BAD REQUEST status code.
pub const HTTP_402_FORBIDDEN: u16 = 402;

/// HTTP 404 NOT FOUND status code.
pub const HTTP_404_NOT_FOUND: u16 = 404;

/// HTTP 405 METHOD NOT ALLOWED status code.
pub const HTTP_405_METHOD_NOT_ALLOWED: u16 = 405;

/// HTTP 406 NOT ACCEPTABLE status code.
pub const HTTP_406_NOT_ACCEPTABLE: u16 = 406;

/// HTTP 408 REQUEST TIMEOUT status code.
pub const HTTP_408_REQUEST_TIMEOUT: u16 = 408;

/// HTTP 409 CONFLICT status code.
pub const HTTP_409_CONFLICT: u16 = 409;

/// HTTP 410 GONE status code.
pub const HTTP_410_GONE: u16 = 410;

/// HTTP 411 LENGTH REQUIRED status code.
pub const HTTP_411_LENGTH_REQURED: u16 = 411;

/// HTTP 413 PAYLOAD TOO LARGE status code.
pub const HTTP_413_PAYLOAD_TOO_LARGE: u16 = 413;

/// HTTP 414 URI TOO LARGE status code.
pub const HTTP_414_URI_TOO_LONG: u16 = 414;

/// HTTP 415 UNSUPORTED MEDIA TYPE status code.
pub const HTTP_415_UNSUPORTED_MEDIA_TYPE: u16 = 415;

/// HTTP 417 EXPECTATION FAILED status code.
pub const HTTP_417_EXPECTATION_FAILED: u16 = 417;

/// HTTP 426 UPGRADE REQUIRED status code.
pub const HTTP_426_UPGRADE_REQUIRED: u16 = 426;

/// HTTP 500 INTERNAL SERVE ERROR status code.
pub const HTTP_500_INTERNAL_SERVE_ERROR: u16 = 500;

/// HTTP 501 NOT IMPLEMENTED status code.
pub const HTTP_501_NOT_IMPLEMENTED: u16 = 501;

/// HTTP 502 BAD GATEWAY status code.
pub const HTTP_502_BAD_GATEWAY: u16 = 502;

/// HTTP 503 SERVICE UNAVAILABLE status code.
pub const HTTP_503_SERVICE_UNAVAILABLE: u16 = 503;

/// HTTP 504 GATEWAY TIMEOUT status code.
pub const HTTP_504_GATEWAY_TIMEOUT: u16 = 504;

/// HTTP 505 HTTP VERSION NOT SUPPORTED status code.
pub const HTTP_505_HTTP_VERSION_NOT_SUPPORTED: u16 = 505;

} // verus!
