use wcookie::SetCookie;
use wrequest::{
    DecodeError, HeaderMap, HttpMessage, HttpMethod, KeyValueMap, Request, Response,
    HTTP_404_NOT_FOUND,
};

#[test]
fn header_get_under_every_casing() {
    let mut headers = HeaderMap::new();
    assert!(!headers.insert("Key", "v1"));
    assert_eq!(headers.get("Key").unwrap(), "v1");
    assert_eq!(headers.get("KEY").unwrap(), "v1");
    assert_eq!(headers.get("key").unwrap(), "v1");
    assert_eq!(headers.get("kEy").unwrap(), "v1");
    // the most recent insertion wins, whatever its casing
    assert!(headers.insert("KEY", "v2"));
    assert_eq!(headers.get("key").unwrap(), "v2");
    assert_eq!(headers.len(), 1);
    // the stored name casing is the one of the latest insertion
    assert_eq!(headers.entry_at(0), ("KEY", "v2"));
}

#[test]
fn header_insert_reports_prior_entry() {
    let mut headers = HeaderMap::new();
    assert!(!headers.insert("Accept", "a"));
    assert!(headers.insert("Accept", "b"));
    assert!(headers.insert("accept", "c"));
    assert!(!headers.insert("Range", "d"));
}

#[test]
fn header_contains_key_any_casing() {
    let mut headers = HeaderMap::new();
    headers.insert("Content-Length", "12");
    assert!(headers.contains_key("content-length"));
    assert!(headers.contains_key("CONTENT-LENGTH"));
    assert!(!headers.contains_key("Content-Type"));
}

#[test]
fn header_from_pairs_later_wins() {
    let headers = HeaderMap::from_pairs(vec![
        ("Accept".to_owned(), "a".to_owned()),
        ("ACCEPT".to_owned(), "b".to_owned()),
        ("Range".to_owned(), "c".to_owned()),
    ]);
    assert_eq!(headers.len(), 2);
    assert_eq!(headers.get("accept").unwrap(), "b");
    assert_eq!(headers.get("range").unwrap(), "c");
    // the later pair's casing is the one stored
    assert_eq!(headers.entry_at(0), ("ACCEPT", "b"));
}

#[test]
fn header_iter_is_fresh_per_call() {
    let mut headers = HeaderMap::new();
    headers.insert("A", "1");
    let mut it = headers.iter();
    assert_eq!(it.next().unwrap(), ("A".to_owned(), "1".to_owned()));
    assert!(it.next().is_none());
    assert!(it.next().is_none());
    headers.insert("B", "2");
    let mut it2 = headers.iter();
    assert_eq!(it2.next().unwrap(), ("A".to_owned(), "1".to_owned()));
    assert_eq!(it2.next().unwrap(), ("B".to_owned(), "2".to_owned()));
    assert!(it2.next().is_none());
}

#[test]
fn kvmap_is_case_sensitive() {
    let mut params = KeyValueMap::new();
    assert!(!params.insert("id", "1234"));
    assert!(params.get("ID").is_none());
    assert!(params.get("Id").is_none());
    assert_eq!(params.get("id").unwrap(), "1234");
    // a differently-cased key names a distinct entry
    assert!(!params.insert("ID", "5678"));
    assert_eq!(params.len(), 2);
    assert_eq!(params.get("id").unwrap(), "1234");
    assert_eq!(params.get("ID").unwrap(), "5678");
}

#[test]
fn kvmap_insert_reports_prior_entry() {
    let mut params = KeyValueMap::new();
    assert!(!params.insert("id", "1"));
    assert!(params.insert("id", "2"));
    assert!(!params.insert("Id", "3"));
    assert_eq!(params.get("id").unwrap(), "2");
}

#[test]
fn kvmap_iter_and_entries() {
    let mut params = KeyValueMap::new();
    params.insert("a", "1");
    params.insert("b", "2");
    assert_eq!(params.len(), 2);
    assert_eq!(params.entry_at(0), ("a", "1"));
    assert_eq!(params.entry_at(1), ("b", "2"));
    let mut it = params.iter();
    assert_eq!(it.next().unwrap(), ("a".to_owned(), "1".to_owned()));
    assert_eq!(it.next().unwrap(), ("b".to_owned(), "2".to_owned()));
    assert!(it.next().is_none());
}

#[test]
fn message_body_accessors() {
    let mut message = HttpMessage::new();
    assert!(!message.has_single_body());
    assert!(!message.has_multipart_body());
    assert!(message.body().is_none());
    message.set_body(vec![1, 2, 3]);
    assert!(message.has_single_body());
    assert!(!message.has_multipart_body());
    assert_eq!(message.body().unwrap(), &vec![1, 2, 3]);
    // a later body replaces the earlier one
    message.set_body(vec![9]);
    assert_eq!(message.body().unwrap(), &vec![9]);
}

#[test]
fn message_json_round_trip() {
    let mut message = HttpMessage::new();
    let mut data = json::JsonValue::new_object();
    data["name"] = "John".into();
    data["count"] = 3.into();
    data["flag"] = true.into();
    data["nothing"] = json::JsonValue::Null;
    let mut list = json::JsonValue::new_array();
    list.push(1).unwrap();
    list.push("two").unwrap();
    data["list"] = list;
    message.set_json(&data);
    assert_eq!(message.headers().get("Content-Type").unwrap(), "application/json");
    let extracted = message.json().unwrap();
    assert_eq!(extracted, data);
}

#[test]
fn message_json_overwrites_content_type() {
    let mut message = HttpMessage::new();
    message.insert_header("Content-Type", "text/plain");
    let data = json::JsonValue::new_object();
    message.set_json(&data);
    assert_eq!(message.headers().get("content-type").unwrap(), "application/json");
    assert_eq!(message.headers().len(), 1);
}

#[test]
fn message_json_empty_body_fails() {
    let message = HttpMessage::new();
    let result = message.json();
    assert!(matches!(result, Err(DecodeError::EmptyBody)));
    assert_eq!(result.unwrap_err().message(), "empty body");
}

#[test]
fn message_json_non_utf8_body_fails() {
    let mut message = HttpMessage::new();
    message.set_body(vec![0xff, 0xfe, 0x01]);
    let result = message.json();
    assert!(matches!(result, Err(DecodeError::Utf8(_))));
}

#[test]
fn message_json_malformed_text_fails() {
    let mut message = HttpMessage::new();
    message.set_body(b"{ not json".to_vec());
    let result = message.json();
    assert!(matches!(result, Err(DecodeError::Syntax(_))));
}

#[test]
fn put_method() {
    let request = Request::put("http://example.com/user");
    assert_eq!(request.method(), HttpMethod::PUT);
    assert_eq!(request.target(), "http://example.com/user");
}

#[test]
fn method_names() {
    assert_eq!(HttpMethod::GET.as_str(), "GET");
    assert_eq!(HttpMethod::HEAD.as_str(), "HEAD");
    assert_eq!(HttpMethod::POST.as_str(), "POST");
    assert_eq!(HttpMethod::PUT.as_str(), "PUT");
    assert_eq!(HttpMethod::DELETE.as_str(), "DELETE");
    assert_eq!(HttpMethod::CONNECT.as_str(), "CONNECT");
    assert_eq!(HttpMethod::OPTIONS.as_str(), "OPTIONS");
    assert_eq!(HttpMethod::TRACE.as_str(), "TRACE");
    assert_eq!(HttpMethod::PATCH.as_str(), "PATCH");
}

#[test]
fn request_render() {
    let mut request = Request::get("http://example.com/user");
    request.insert_header("Accept", "application/json");
    request.insert_header("Range", "bytes=0-99");
    assert_eq!(
        request.render(),
        "GET http://example.com/user\nAccept=application/json\nRange=bytes=0-99\n"
    );
}

#[test]
fn request_mutable_views() {
    let mut request = Request::get("http://example.com/user");
    request.headers_mut().insert("Accept", "text/html");
    request.params_mut().insert("id", "7");
    request.cookies_mut().insert("session", "s1");
    assert_eq!(request.headers().get("accept").unwrap(), "text/html");
    assert_eq!(request.params().get("id").unwrap(), "7");
    assert_eq!(request.cookies().get("session").unwrap(), "s1");
}

#[test]
fn response_cookie_order_and_duplicates() {
    let mut response = Response::new(HTTP_404_NOT_FOUND);
    response.insert_cookie(SetCookie::new("session", "1"));
    response.insert_cookie(SetCookie::new("Session", "2"));
    response.insert_cookie(SetCookie::new("session", "3"));
    let cookies = response.cookies();
    assert_eq!(cookies.len(), 3);
    assert_eq!(cookies[0].name, "session");
    assert_eq!(cookies[0].value, "1");
    assert_eq!(cookies[1].name, "Session");
    assert_eq!(cookies[1].value, "2");
    assert_eq!(cookies[2].name, "session");
    assert_eq!(cookies[2].value, "3");
}

#[test]
fn response_challenge_lists_keep_order() {
    let mut response = Response::new(HTTP_404_NOT_FOUND);
    response.insert_auth_headers("Basic realm=\"a\"").insert_auth_headers("Bearer");
    response.insert_proxy_auth_header("Digest");
    assert_eq!(response.auth_headers().len(), 2);
    assert_eq!(response.auth_headers()[0], "Basic realm=\"a\"");
    assert_eq!(response.auth_headers()[1], "Bearer");
    assert_eq!(response.proxy_auth_headers().len(), 1);
    assert_eq!(response.proxy_auth_headers()[0], "Digest");
    response.auth_headers_mut().push("Negotiate".to_owned());
    assert_eq!(response.auth_headers()[2], "Negotiate");
    response.proxy_auth_headers_mut().clear();
    assert!(response.proxy_auth_headers().is_empty());
}

#[test]
fn response_status_is_free_form() {
    let response = Response::new(799);
    assert_eq!(response.status_code(), 799);
}

#[test]
fn response_body_and_json() {
    let mut response = Response::new(HTTP_404_NOT_FOUND);
    assert!(matches!(response.json(), Err(DecodeError::EmptyBody)));
    let mut data = json::JsonValue::new_object();
    data["error"] = "not found".into();
    response.set_json(&data);
    assert!(response.has_single_body());
    assert_eq!(response.json().unwrap(), data);
}

#[test]
fn decode_error_messages() {
    assert_eq!(DecodeError::EmptyBody.message(), "empty body");
    let mut message = HttpMessage::new();
    message.set_body(vec![0x80]);
    assert_eq!(message.json().unwrap_err().message(), "invalid utf-8 body");
    message.set_body(b"[1,".to_vec());
    assert_eq!(message.json().unwrap_err().message(), "invalid json body");
}

#[test]
fn header_from_str_pairs_later_wins() {
    let headers = HeaderMap::from_str_pairs(&vec![("Accept", "a"), ("accept", "b")]);
    assert_eq!(headers.len(), 1);
    assert_eq!(headers.get("ACCEPT").unwrap(), "b");
}
