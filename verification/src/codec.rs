//! The boundary to the `json` crate and to UTF-8. JSON values are opaque
//! `json::JsonValue`s carried through the library; what the crate's printer
//! and parser return is named rather than written out, and the library's own
//! reasoning connects the two through the UTF-8 model of vstd.

use vstd::prelude::*;
use vstd::utf8::{encode_utf8, valid_utf8};

verus! {

/// Declares `json::JsonValue`, the opaque JSON value carried through the
/// library.
#[verifier::external_type_specification]
#[verifier::external_body]
pub struct ExJsonValue(json::JsonValue);

/// Declares `json::Error`, the parser's failure, carried inside the
/// library's own error.
#[verifier::external_type_specification]
#[verifier::external_body]
pub struct ExJsonError(json::Error);

/// Declares `core::str::Utf8Error`, the decoding failure, carried inside
/// the library's own error.
#[verifier::external_type_specification]
#[verifier::external_body]
pub struct ExUtf8Error(core::str::Utf8Error);

/// The text that `json`'s printer produces for a value at a given indent
/// width; a function of the two alone.
pub uninterp spec fn json_text(v: json::JsonValue, spaces: u16) -> Seq<char>;

/// Whether `json`'s parser accepts a text; a function of the text alone.
pub uninterp spec fn json_parse_ok(s: Seq<char>) -> bool;

/// The value `json`'s parser returns for an accepted text; a function of
/// the text alone.
pub uninterp spec fn json_parse_val(s: Seq<char>) -> json::JsonValue;

/// A value for which parsing the printed text returns the value itself.
/// This holds for ordinary values; it fails for values nested beyond the
/// parser's depth limit, and the parser may return a differently-represented
/// equal value (for example a short string held in the long-string
/// representation).
pub open spec fn json_round_trips(v: json::JsonValue, spaces: u16) -> bool {
    &&& json_parse_ok(json_text(v, spaces))
    &&& json_parse_val(json_text(v, spaces)) == v
}

/// Relies on `json::JsonValue::pretty`: the printed text is a deterministic
/// function of the value and the indent width.
#[verifier::external_body]
pub(crate) fn pretty_text(v: &json::JsonValue, spaces: u16) -> (r: String)
    ensures
        r@ == json_text(*v, spaces),
{
    v.pretty(spaces)
}

/// Relies on `json::parse`: the outcome is a deterministic function of the
/// text alone.
#[verifier::external_body]
pub(crate) fn parse_text(s: &str) -> (r: Result<json::JsonValue, json::Error>)
    ensures
        r is Ok <==> json_parse_ok(s@),
        r matches Ok(v) ==> v == json_parse_val(s@),
{
    json::parse(s)
}

/// Relies on `core::str::from_utf8`: it succeeds exactly on bytes that are
/// the UTF-8 encoding of some text, and returns the text they encode.
#[verifier::external_body]
pub(crate) fn bytes_as_str(v: &[u8]) -> (r: Result<&str, core::str::Utf8Error>)
    ensures
        r is Ok <==> valid_utf8(v@),
        r matches Ok(s) ==> encode_utf8(s@) == v@,
{
    core::str::from_utf8(v)
}

} // verus!
