use std::collections::HashMap;
use std::fmt;

use bytes::Bytes;
use hyper::header::HeaderValue;
use hyper::HeaderMap;
use rust_api::extractors::{body_bytes, check_media_type, classify};
use rust_api::{
    BodyBytes, BodyStep, Error, Extract, Form, FromRequest, Headers, Json, Path, Query, Req, State,
};
use serde::de::{Deserialize, Deserializer, IgnoredAny, MapAccess, Visitor};

#[derive(Debug, PartialEq)]
struct SearchParams {
    q: String,
    page: Option<u32>,
}

struct SearchParamsVisitor;

impl<'de> Visitor<'de> for SearchParamsVisitor {
    type Value = SearchParams;

    fn expecting(&self, f: &mut fmt::Formatter) -> fmt::Result {
        f.write_str("search parameters")
    }

    fn visit_map<A: MapAccess<'de>>(self, mut map: A) -> Result<SearchParams, A::Error> {
        let mut q: Option<String> = None;
        let mut page: Option<u32> = None;
        while let Some(key) = map.next_key::<String>()? {
            match key.as_str() {
                "q" => q = Some(map.next_value::<String>()?),
                "page" => page = Some(map.next_value::<u32>()?),
                _ => {
                    map.next_value::<IgnoredAny>()?;
                }
            }
        }
        match q {
            Some(q) => Ok(SearchParams { q, page }),
            None => Err(serde::de::Error::missing_field("q")),
        }
    }
}

impl<'de> Deserialize<'de> for SearchParams {
    fn deserialize<D: Deserializer<'de>>(deserializer: D) -> Result<Self, D::Error> {
        deserializer.deserialize_map(SearchParamsVisitor)
    }
}

fn request(query: Option<&str>, pairs: &[(&'static str, &'static str)]) -> Req {
    let mut headers = HeaderMap::new();
    for (name, value) in pairs {
        headers.append(*name, HeaderValue::from_static(value));
    }
    Req::new("POST", "/search", query, headers)
}

/// The query extractor as a caller runs it.
fn extract_query(req: &Req) -> Result<Query<SearchParams>, Error> {
    let query = Query::<SearchParams>::source(req)?;
    Query::from_parsed(serde_urlencoded::from_str::<SearchParams>(query).map_err(|e| e.to_string()))
}

/// The JSON extractor as a caller runs it, on a body that is at hand.
fn extract_json(req: &mut Req, body: &'static [u8]) -> Result<Json<HashMap<String, String>>, Error> {
    let bytes = match Json::<HashMap<String, String>>::source(req)? {
        Extract::Done(bytes) => bytes,
        Extract::ReadBody => {
            req.supply_body(Bytes::from_static(body));
            match Json::<HashMap<String, String>>::source(req)? {
                Extract::Done(bytes) => bytes,
                Extract::ReadBody => panic!("the body was asked for twice"),
            }
        }
    };
    Json::from_parsed(serde_json::from_slice(&bytes).map_err(|e| e.to_string()))
}

/// The form extractor as a caller runs it, on a body that is at hand.
fn extract_form(req: &mut Req, body: &'static [u8]) -> Result<Form<SearchParams>, Error> {
    let bytes = match Form::<SearchParams>::source(req)? {
        Extract::Done(bytes) => bytes,
        Extract::ReadBody => {
            req.supply_body(Bytes::from_static(body));
            match Form::<SearchParams>::source(req)? {
                Extract::Done(bytes) => bytes,
                Extract::ReadBody => panic!("the body was asked for twice"),
            }
        }
    };
    Form::from_parsed(serde_urlencoded::from_bytes(&bytes).map_err(|e| e.to_string()))
}

fn status_of(error: &Error) -> u16 {
    error.status_code()
}

#[test]
fn query_example() {
    let req = request(Some("q=rust&page=2"), &[]);
    let Query(params) = extract_query(&req).unwrap();
    assert_eq!(params, SearchParams { q: "rust".to_string(), page: Some(2) });
}

#[test]
fn query_with_an_optional_field_left_out() {
    let req = request(Some("q=verus"), &[]);
    let Query(params) = extract_query(&req).unwrap();
    assert_eq!(params, SearchParams { q: "verus".to_string(), page: None });
}

#[test]
fn missing_query_string_is_a_bad_request() {
    let req = request(None, &[]);
    assert_eq!(
        extract_query(&req).err(),
        Some(Error::Status(400, Some("Missing query string".to_string())))
    );
}

#[test]
fn query_that_does_not_fit_is_a_bad_request() {
    let req = request(Some("page=2"), &[]);
    match extract_query(&req) {
        Err(Error::Status(400, Some(message))) => {
            assert_eq!(message, "Invalid query parameters: missing field `q`")
        }
        _ => panic!("a query without `q` was accepted"),
    }
    let req = request(Some("q=x&page=two"), &[]);
    match extract_query(&req) {
        Err(Error::Status(400, Some(message))) => {
            assert!(message.starts_with("Invalid query parameters: "))
        }
        _ => panic!("a page that is no number was accepted"),
    }
}

#[test]
fn json_with_the_wrong_content_type_fails_before_the_body_is_read() {
    let mut req = request(None, &[("Content-Type", "text/plain")]);
    let error = extract_json(&mut req, b"{\"name\":\"Alice\"}").err().unwrap();
    assert_eq!(error, Error::Status(400, Some("Content-Type must be application/json".to_string())));
    assert_eq!(status_of(&error), 400);
    assert!(req.cached_body().is_none());
    assert!(matches!(req.body(), Ok(BodyStep::Read)));
}

#[test]
fn json_without_a_content_type_fails() {
    let mut req = request(None, &[]);
    assert_eq!(
        extract_json(&mut req, b"{}").err(),
        Some(Error::Status(400, Some("Content-Type must be application/json".to_string())))
    );
}

#[test]
fn json_body_is_extracted() {
    let mut req = request(None, &[("Content-Type", "application/json; charset=utf-8")]);
    let Json(value) = extract_json(&mut req, b"{\"name\":\"Alice\"}").unwrap();
    assert_eq!(value.get("name").map(|s| s.as_str()), Some("Alice"));
    assert_eq!(value.len(), 1);
}

#[test]
fn malformed_json_is_a_bad_request() {
    let mut req = request(None, &[("Content-Type", "application/json")]);
    match extract_json(&mut req, b"{\"name\":") {
        Err(Error::Status(400, Some(message))) => assert!(message.starts_with("Invalid JSON: ")),
        _ => panic!("malformed JSON was accepted"),
    }
}

#[test]
fn form_body_is_extracted() {
    let mut req = request(None, &[("Content-Type", "application/x-www-form-urlencoded")]);
    let Form(form) = extract_form(&mut req, b"q=a+b&page=3").unwrap();
    assert_eq!(form, SearchParams { q: "a b".to_string(), page: Some(3) });
}

#[test]
fn form_with_the_wrong_content_type_is_a_bad_request() {
    let mut req = request(None, &[("Content-Type", "application/json")]);
    assert_eq!(
        extract_form(&mut req, b"q=a").err(),
        Some(Error::Status(
            400,
            Some("Content-Type must be application/x-www-form-urlencoded".to_string())
        ))
    );
    assert!(req.cached_body().is_none());
}

#[test]
fn form_that_does_not_fit_is_unprocessable() {
    let mut req = request(None, &[("Content-Type", "application/x-www-form-urlencoded")]);
    match extract_form(&mut req, b"page=1") {
        Err(Error::Status(422, Some(message))) => {
            assert_eq!(message, "Invalid form data: missing field `q`")
        }
        _ => panic!("a form without `q` was accepted"),
    }
}

#[test]
fn two_body_extractors_share_one_read() {
    let mut req = request(None, &[("Content-Type", "application/json")]);
    let Json(first) = extract_json(&mut req, b"{\"a\":\"1\"}").unwrap();
    let Json(second) = extract_json(&mut req, b"{\"never\":\"read\"}").unwrap();
    assert_eq!(first, second);
    match <BodyBytes as FromRequest<()>>::from_request(&mut req, &()) {
        Ok(Extract::Done(BodyBytes(bytes))) => assert_eq!(&bytes[..], b"{\"a\":\"1\"}"),
        _ => panic!("the cached body was not handed out"),
    }
}

#[test]
fn path_parameters_stay_strings() {
    let mut req = request(None, &[]);
    req.set_path_params(vec![("id".to_string(), "42".to_string())]);
    let text = Path::<HashMap<String, String>>::source(&req).unwrap();
    assert_eq!(text, "{\"id\":\"42\"}");

    let as_strings =
        serde_json::from_str::<HashMap<String, String>>(&text).map_err(|e| e.to_string());
    let Path(params) = Path::from_parsed(as_strings).unwrap();
    assert_eq!(params.get("id").map(|s| s.as_str()), Some("42"));

    let as_numbers = serde_json::from_str::<HashMap<String, u32>>(&text).map_err(|e| e.to_string());
    match Path::from_parsed(as_numbers) {
        Err(Error::Status(400, Some(message))) => {
            assert!(message.starts_with("Invalid path parameters: "));
            assert!(message.ends_with(
                ". Note: path parameters are strings, use String type or implement custom deserializer for type conversion"
            ));
        }
        _ => panic!("a string was accepted as a number"),
    }
}

#[test]
fn path_source_is_one_object_with_the_last_value_of_each_name() {
    let mut req = request(None, &[]);
    assert_eq!(Path::<()>::source(&req).unwrap(), "{}");
    req.set_path_params(vec![
        ("b".to_string(), "1".to_string()),
        ("a".to_string(), "say \"hi\"".to_string()),
        ("b".to_string(), "2".to_string()),
    ]);
    assert_eq!(Path::<()>::source(&req).unwrap(), "{\"a\":\"say \\\"hi\\\"\",\"b\":\"2\"}");
}

#[test]
fn failed_serialization_of_path_parameters_is_a_bad_request() {
    assert_eq!(Path::<()>::source_of(Ok("{}".to_string())), Ok("{}".to_string()));
    assert_eq!(
        Path::<()>::source_of(Err("no".to_string())),
        Err(Error::Status(400, Some("Failed to serialize path parameters: no".to_string())))
    );
}

#[test]
fn state_is_cloned() {
    let mut req = request(None, &[]);
    let state = vec![1u8, 2, 3];
    match State::<Vec<u8>>::from_request(&mut req, &state) {
        Ok(Extract::Done(State(copy))) => assert_eq!(copy, state),
        _ => panic!("the state was not extracted"),
    }
}

#[test]
fn headers_are_copied() {
    let mut req = request(None, &[("X-A", "1"), ("X-A", "2"), ("X-B", "3")]);
    match <Headers as FromRequest<()>>::from_request(&mut req, &()) {
        Ok(Extract::Done(Headers(headers))) => {
            assert_eq!(headers.len(), 3);
            assert_eq!(headers.get("x-a").map(|v| v.as_bytes()), Some(&b"1"[..]));
            assert_eq!(headers.get_all("x-a").iter().count(), 2);
            assert_eq!(headers.get("x-b").map(|v| v.as_bytes()), Some(&b"3"[..]));
        }
        _ => panic!("the headers were not extracted"),
    }
}

#[test]
fn raw_body_asks_for_a_read_first() {
    let mut req = request(None, &[]);
    assert!(matches!(
        <BodyBytes as FromRequest<()>>::from_request(&mut req, &()),
        Ok(Extract::ReadBody)
    ));
    req.supply_body(Bytes::from_static(b"raw"));
    match <BodyBytes as FromRequest<()>>::from_request(&mut req, &()) {
        Ok(Extract::Done(BodyBytes(bytes))) => assert_eq!(&bytes[..], b"raw"),
        _ => panic!("the body was not extracted"),
    }
    match body_bytes(&mut req) {
        Ok(Extract::Done(bytes)) => assert_eq!(&bytes[..], b"raw"),
        _ => panic!("the body was not extracted"),
    }
}

#[test]
fn media_type_is_a_prefix_of_the_content_type() {
    let req = request(None, &[("Content-Type", "application/json; charset=utf-8")]);
    assert!(check_media_type(&req, "application/json"));
    assert!(!check_media_type(&req, "json"));
    assert!(!check_media_type(&req, "application/x-www-form-urlencoded"));
    assert!(check_media_type(&req, ""));
    assert!(!check_media_type(&request(None, &[]), "application/json"));
}

#[test]
fn complaints_are_classified() {
    assert_eq!(classify(Ok(5u8), 400, "p: ", "."), Ok(5u8));
    assert_eq!(
        classify::<u8>(Err("bad".to_string()), 418, "p: ", "."),
        Err(Error::Status(418, Some("p: bad.".to_string())))
    );
}

fn parse_json(bytes: Bytes) -> Result<HashMap<String, String>, String> {
    serde_json::from_slice(&bytes).map_err(|e| e.to_string())
}

fn parse_form(bytes: Bytes) -> Result<SearchParams, String> {
    serde_urlencoded::from_bytes(&bytes).map_err(|e| e.to_string())
}

fn parse_query(query: &str) -> Result<SearchParams, String> {
    serde_urlencoded::from_str(query).map_err(|e| e.to_string())
}

fn parse_path(text: &str) -> Result<HashMap<String, u32>, String> {
    serde_json::from_str(text).map_err(|e| e.to_string())
}

#[test]
fn whole_json_extraction_refuses_the_wrong_content_type_unread() {
    let mut req = request(None, &[("Content-Type", "text/plain")]);
    let asked = std::cell::Cell::new(false);
    let res = Json::from_request(&mut req, |bytes| {
        asked.set(true);
        parse_json(bytes)
    });
    match res {
        Err(e) => assert_eq!(
            e,
            Error::Status(400, Some("Content-Type must be application/json".to_string()))
        ),
        Ok(_) => panic!("JSON was extracted from a text/plain request"),
    }
    assert!(!asked.get());
    assert!(req.cached_body().is_none());
    assert!(matches!(req.body(), Ok(BodyStep::Read)));
}

#[test]
fn whole_json_extraction() {
    let mut req = request(None, &[("Content-Type", "application/json")]);
    assert!(matches!(Json::from_request(&mut req, parse_json), Ok(Extract::ReadBody)));
    req.supply_body(Bytes::from_static(b"{\"name\":\"Alice\"}"));
    match Json::from_request(&mut req, parse_json) {
        Ok(Extract::Done(Json(value))) => {
            assert_eq!(value.get("name").map(|s| s.as_str()), Some("Alice"))
        }
        _ => panic!("the JSON body was not extracted"),
    }
    let mut req = request(None, &[("Content-Type", "application/json")]);
    req.supply_body(Bytes::from_static(b"[1]"));
    match Json::from_request(&mut req, parse_json) {
        Err(Error::Status(400, Some(message))) => assert!(message.starts_with("Invalid JSON: ")),
        _ => panic!("a JSON array was accepted as an object"),
    }
}

#[test]
fn whole_form_extraction() {
    let mut req = request(None, &[("Content-Type", "application/x-www-form-urlencoded")]);
    assert!(matches!(Form::from_request(&mut req, parse_form), Ok(Extract::ReadBody)));
    req.supply_body(Bytes::from_static(b"q=x&page=7"));
    match Form::from_request(&mut req, parse_form) {
        Ok(Extract::Done(Form(form))) => {
            assert_eq!(form, SearchParams { q: "x".to_string(), page: Some(7) })
        }
        _ => panic!("the form was not extracted"),
    }
    let mut req = request(None, &[("Content-Type", "application/x-www-form-urlencoded")]);
    req.supply_body(Bytes::from_static(b"page=7"));
    match Form::from_request(&mut req, parse_form) {
        Err(Error::Status(422, Some(message))) => {
            assert_eq!(message, "Invalid form data: missing field `q`")
        }
        _ => panic!("a form without `q` was accepted"),
    }
    let mut req = request(None, &[("Content-Type", "multipart/form-data")]);
    match Form::from_request(&mut req, parse_form) {
        Err(e) => assert_eq!(e.status_code(), 400),
        Ok(_) => panic!("a multipart body was accepted as a form"),
    }
    assert!(req.cached_body().is_none());
}

#[test]
fn whole_query_extraction() {
    let req = request(Some("q=rust&page=2"), &[]);
    match Query::from_request(&req, parse_query) {
        Ok(Extract::Done(Query(params))) => {
            assert_eq!(params, SearchParams { q: "rust".to_string(), page: Some(2) })
        }
        _ => panic!("the query was not extracted"),
    }
    let req = request(None, &[]);
    match Query::from_request(&req, parse_query) {
        Err(e) => assert_eq!(e, Error::Status(400, Some("Missing query string".to_string()))),
        Ok(_) => panic!("a query was extracted from a request without one"),
    }
    let req = request(Some("page=x"), &[]);
    match Query::from_request(&req, parse_query) {
        Err(Error::Status(400, Some(message))) => {
            assert!(message.starts_with("Invalid query parameters: "))
        }
        _ => panic!("a query that does not fit was accepted"),
    }
}

#[test]
fn whole_path_extraction() {
    let mut req = request(None, &[]);
    req.set_path_params(vec![("id".to_string(), "42".to_string())]);
    match Path::from_request(&req, parse_path) {
        Err(Error::Status(400, Some(message))) => {
            assert!(message.starts_with("Invalid path parameters: "));
            assert!(message.ends_with("for type conversion"));
        }
        _ => panic!("a string was accepted as a number"),
    }
    let as_strings =
        |text: &str| serde_json::from_str::<HashMap<String, String>>(text).map_err(|e| e.to_string());
    match Path::from_request(&req, as_strings) {
        Ok(Extract::Done(Path(params))) => {
            assert_eq!(params.get("id").map(|s| s.as_str()), Some("42"))
        }
        _ => panic!("the path parameters were not extracted"),
    }
}
