//! Typed extraction from a request.
//!
//! An extractor makes a typed value from a request and the shared state, or
//! fails with a classified error. The library reads no network and parses no
//! JSON and no form data: an extractor that needs the body says so when the
//! body is not cached yet, and an extractor for a caller's own type checks
//! the request, names the text to parse, and classifies what the parser
//! answered.

use vstd::prelude::*;
use bytes::Bytes;
use hyper::header::HeaderValue;
use hyper::HeaderMap;
use crate::buffer::held;
use crate::error::{Error, ErrorView};
use crate::headers::{header_map_clone, header_values};
use crate::params::params_json;
use crate::req::{BodyState, BodyStep, Req};
use crate::text::{push_text, text_starts_with};

verus! {

/// What an extractor answers when it does not fail.
pub enum Extract<T> {
    /// The value.
    Done(T),
    /// The body is needed and not cached: read the incoming stream, supply
    /// the bytes to the request, and extract again.
    ReadBody,
}

/// A value that can be made from a request and the shared state.
pub trait FromRequest<S>: Sized {
    /// Makes the value, asks for the body to be read first, or fails.
    fn from_request(req: &mut Req, state: &S) -> Result<Extract<Self>, Error>;
}

/// The shared application state.
pub struct State<S>(pub S);

impl<S: Clone> FromRequest<S> for State<S> {
    /// Always succeeds, with a clone of the state; the request is left alone.
    fn from_request(req: &mut Req, state: &S) -> (res: Result<Extract<Self>, Error>)
        ensures
            res matches Ok(Extract::Done(extracted)) && cloned(*state, extracted.0),
            *final(req) == *old(req),
    {
        Ok(Extract::Done(State(state.clone())))
    }
}

/// All headers of the request.
pub struct Headers(pub HeaderMap<HeaderValue>);

impl<S> FromRequest<S> for Headers {
    /// Always succeeds, with a copy of the header collection.
    fn from_request(req: &mut Req, state: &S) -> (res: Result<Extract<Self>, Error>)
        ensures
            res matches Ok(Extract::Done(headers)) && header_values(headers.0)
                == old(req).spec_headers(),
            *final(req) == *old(req),
    {
        Ok(Extract::Done(Headers(header_map_clone(req.headers()))))
    }
}

/// What asking a request for its body bytes gives, by the state of the body:
/// the cached bytes, a demand to read the stream, or a failure.
pub open spec fn body_outcome(state: BodyState) -> Result<Option<Seq<u8>>, ErrorView> {
    match state {
        BodyState::Consumed(bytes) => Ok(Some(bytes)),
        BodyState::Streaming => Ok(None),
        BodyState::Taken => Err(
            ErrorView::Status(500, Some("Request body already consumed"@)),
        ),
    }
}

/// Whether an answer of an extractor for bytes is the given outcome.
pub open spec fn is_outcome(
    res: Result<Extract<Bytes>, Error>,
    outcome: Result<Option<Seq<u8>>, ErrorView>,
) -> bool {
    match outcome {
        Ok(Some(bytes)) => res matches Ok(Extract::Done(b)) && held(b) == bytes,
        Ok(None) => res matches Ok(Extract::ReadBody),
        Err(error) => res matches Err(e) && e@ == error,
    }
}

/// Asks a request for its body bytes.
pub fn body_bytes(req: &mut Req) -> (res: Result<Extract<Bytes>, Error>)
    ensures
        is_outcome(res, body_outcome(old(req).body_state())),
        final(req).same_head(old(req)),
        final(req).body_state() == old(req).body_state().ask().after,
{
    match req.body() {
        Ok(BodyStep::Ready(bytes)) => Ok(Extract::Done(bytes)),
        Ok(BodyStep::Read) => Ok(Extract::ReadBody),
        Err(e) => Err(e),
    }
}

/// The raw body bytes.
pub struct BodyBytes(pub Bytes);

impl<S> FromRequest<S> for BodyBytes {
    /// Gives the cached body, or asks for the stream to be read where the
    /// body is not cached yet.
    fn from_request(req: &mut Req, state: &S) -> (res: Result<Extract<Self>, Error>)
        ensures
            match body_outcome(old(req).body_state()) {
                Ok(Some(bytes)) => res matches Ok(Extract::Done(body)) && held(body.0) == bytes,
                Ok(None) => res matches Ok(Extract::ReadBody),
                Err(error) => res matches Err(e) && e@ == error,
            },
            final(req).same_head(old(req)),
            final(req).body_state() == old(req).body_state().ask().after,
    {
        match body_bytes(req) {
            Ok(Extract::Done(bytes)) => Ok(Extract::Done(BodyBytes(bytes))),
            Ok(Extract::ReadBody) => Ok(Extract::ReadBody),
            Err(e) => Err(e),
        }
    }
}

/// The error for a parser's complaint: a status, and a message made of a
/// prefix, the parser's own words and a suffix.
pub open spec fn parse_failure(
    status: u16,
    prefix: Seq<char>,
    complaint: Seq<char>,
    suffix: Seq<char>,
) -> ErrorView {
    ErrorView::Status(status, Some(prefix + complaint + suffix))
}

/// Classifies what a parser answered: its value, or the error for its
/// complaint.
pub fn classify<T>(parsed: Result<T, String>, status: u16, prefix: &str, suffix: &str) -> (res:
    Result<T, Error>)
    ensures
        match parsed {
            Ok(value) => res matches Ok(v) && v == value,
            Err(complaint) => res matches Err(e) && e@ == parse_failure(
                status,
                prefix@,
                complaint@,
                suffix@,
            ),
        },
{
    match parsed {
        Ok(value) => Ok(value),
        Err(complaint) => {
            let mut message = prefix.to_owned();
            push_text(&mut message, complaint.as_str());
            push_text(&mut message, suffix);
            Err(Error::Status(status, Some(message)))
        },
    }
}

/// Whether a request's `Content-Type` begins with a media type. A request
/// without a readable `Content-Type` has none.
pub open spec fn has_media_type(req: &Req, media_type: Seq<char>) -> bool {
    match req.spec_header("content-type"@) {
        Some(content_type) => media_type.is_prefix_of(content_type),
        None => media_type.is_prefix_of(Seq::<char>::empty()),
    }
}

/// Checks that a request's `Content-Type` begins with a media type.
pub fn check_media_type(req: &Req, media_type: &str) -> (b: bool)
    ensures
        b == has_media_type(req, media_type@),
{
    proof {
        reveal_strlit("");
        assert(""@ =~= Seq::<char>::empty());
    }
    match req.content_type() {
        Some(content_type) => text_starts_with(content_type.as_str(), media_type),
        None => text_starts_with("", media_type),
    }
}

/// Whether an answer of an extractor is what classifying a parser's answer
/// gives: the value, or the error for the parser's complaint.
pub open spec fn is_classified<T>(
    res: Result<Extract<T>, Error>,
    parsed: Result<T, String>,
    status: u16,
    prefix: Seq<char>,
    suffix: Seq<char>,
) -> bool {
    match parsed {
        Ok(value) => res matches Ok(Extract::Done(v)) && v == value,
        Err(complaint) => res matches Err(e) && e@ == parse_failure(
            status,
            prefix,
            complaint@,
            suffix,
        ),
    }
}

/// Whether a parser of bytes can be given any bytes.
pub open spec fn parses_all_bytes<T, F: FnOnce(Bytes) -> Result<T, String>>(parse: F) -> bool {
    forall|b: Bytes| #[trigger] parse.requires((b,))
}

/// Whether a parser of text can be given any text.
pub open spec fn parses_all_text<T, F: FnOnce(&str) -> Result<T, String>>(parse: F) -> bool {
    forall|t: &str| #[trigger] parse.requires((t,))
}

/// Whether `parsed` is what a parser answered for some buffer that holds
/// `bytes`.
pub open spec fn parsed_bytes<T, F: FnOnce(Bytes) -> Result<T, String>>(
    parse: F,
    bytes: Seq<u8>,
    parsed: Result<T, String>,
) -> bool {
    exists|b: Bytes| held(b) == bytes && #[trigger] parse.ensures((b,), parsed)
}

/// Whether `parsed` is what a parser answered for the text `text`.
pub open spec fn parsed_text<T, F: FnOnce(&str) -> Result<T, String>>(
    parse: F,
    text: Seq<char>,
    parsed: Result<T, String>,
) -> bool {
    exists|t: &str| t@ == text && #[trigger] parse.ensures((t,), parsed)
}

/// What extracting from a typed body gives, for a parser: the failure of the
/// `Content-Type` check or of the body, before the parser is asked; a demand
/// to read the body; or what classifying the parser's answer for the cached
/// bytes gives.
pub open spec fn is_typed_extraction<T, F: FnOnce(Bytes) -> Result<T, String>>(
    res: Result<Extract<T>, Error>,
    req: &Req,
    media_type: Seq<char>,
    complaint: Seq<char>,
    parse: F,
    status: u16,
    prefix: Seq<char>,
) -> bool {
    match typed_body_outcome(req, media_type, complaint) {
        Err(error) => res matches Err(e) && e@ == error,
        Ok(None) => res matches Ok(Extract::ReadBody),
        Ok(Some(bytes)) => exists|parsed: Result<T, String>| #[trigger]
            parsed_bytes(parse, bytes, parsed) && is_classified(res, parsed, status, prefix, ""@),
    }
}

/// What extracting from a text gives, for a parser: what classifying the
/// parser's answer for the text gives.
pub open spec fn is_text_extraction<T, F: FnOnce(&str) -> Result<T, String>>(
    res: Result<Extract<T>, Error>,
    text: Seq<char>,
    parse: F,
    status: u16,
    prefix: Seq<char>,
    suffix: Seq<char>,
) -> bool {
    exists|parsed: Result<T, String>| #[trigger]
        parsed_text(parse, text, parsed) && is_classified(res, parsed, status, prefix, suffix)
}

/// Classifies what a parser answered, as the answer of an extractor.
pub fn classify_extracted<T>(parsed: Result<T, String>, status: u16, prefix: &str, suffix: &str) -> (res:
    Result<Extract<T>, Error>)
    ensures
        is_classified(res, parsed, status, prefix@, suffix@),
{
    match classify(parsed, status, prefix, suffix) {
        Ok(value) => Ok(Extract::Done(value)),
        Err(e) => Err(e),
    }
}

/// Extracts from a typed body with a parser: checks the `Content-Type`, asks
/// for the body, and has the cached bytes parsed.
pub fn extract_typed_body<T, F: FnOnce(Bytes) -> Result<T, String>>(
    req: &mut Req,
    media_type: &str,
    complaint: &str,
    parse: F,
    status: u16,
    prefix: &str,
) -> (res: Result<Extract<T>, Error>)
    requires
        parses_all_bytes(parse),
    ensures
        is_typed_extraction(res, old(req), media_type@, complaint@, parse, status, prefix@),
        final(req).same_head(old(req)),
        final(req).body_state() == if has_media_type(old(req), media_type@) {
            old(req).body_state().ask().after
        } else {
            old(req).body_state()
        },
{
    match typed_body(req, media_type, complaint) {
        Err(e) => Err(e),
        Ok(Extract::ReadBody) => Ok(Extract::ReadBody),
        Ok(Extract::Done(bytes)) => {
            let parsed = parse(bytes);
            assert(parsed_bytes(parse, held(bytes), parsed));
            classify_extracted(parsed, status, prefix, "")
        },
    }
}

/// Extracts from a text with a parser.
pub fn extract_text<T, F: FnOnce(&str) -> Result<T, String>>(
    text: &str,
    parse: F,
    status: u16,
    prefix: &str,
    suffix: &str,
) -> (res: Result<Extract<T>, Error>)
    requires
        parses_all_text(parse),
    ensures
        is_text_extraction(res, text@, parse, status, prefix@, suffix@),
{
    let parsed = parse(text);
    assert(parsed_text(parse, text@, parsed));
    classify_extracted(parsed, status, prefix, suffix)
}

/// An extractor's answer with its value taken out of its wrapper.
pub open spec fn peeled<W, T>(res: Result<Extract<W>, Error>, peel: spec_fn(W) -> T) -> Result<
    Extract<T>,
    Error,
> {
    match res {
        Ok(Extract::Done(wrapper)) => Ok(Extract::Done(peel(wrapper))),
        Ok(Extract::ReadBody) => Ok(Extract::ReadBody),
        Err(error) => Err(error),
    }
}

/// Query parameters, deserialized into `T`.
pub struct Query<T>(pub T);

impl<T> Query<T> {
    /// The query string to deserialize. A request without one fails with
    /// status 400.
    pub fn source(req: &Req) -> (res: Result<&str, Error>)
        ensures
            match req.spec_query() {
                Some(query) => res matches Ok(q) && q@ == query,
                None => res matches Err(e) && e@ == ErrorView::Status(
                    400,
                    Some("Missing query string"@),
                ),
            },
    {
        match req.query() {
            Some(query) => Ok(query),
            None => Err(Error::bad_request("Missing query string")),
        }
    }

    /// Extracts with a deserializer. A request without a query string fails
    /// with status 400 and the deserializer is not asked; a query string that
    /// does not fit `T` fails with status 400.
    pub fn from_request<F: FnOnce(&str) -> Result<T, String>>(req: &Req, parse: F) -> (res: Result<
        Extract<Self>,
        Error,
    >)
        requires
            parses_all_text(parse),
        ensures
            match req.spec_query() {
                Some(query) => is_text_extraction(
                    peeled(res, |q: Query<T>| q.0),
                    query,
                    parse,
                    400,
                    "Invalid query parameters: "@,
                    ""@,
                ),
                None => res matches Err(e) && e@ == ErrorView::Status(
                    400,
                    Some("Missing query string"@),
                ),
            },
            !(res matches Ok(Extract::ReadBody)),
    {
        match Self::source(req) {
            Err(e) => Err(e),
            Ok(query) => {
                let inner = extract_text(query, parse, 400, "Invalid query parameters: ", "");
                let res = match inner {
                    Ok(Extract::Done(value)) => Ok(Extract::Done(Query(value))),
                    Ok(Extract::ReadBody) => Ok(Extract::ReadBody),
                    Err(e) => Err(e),
                };
                assert(peeled(res, |q: Query<T>| q.0) == inner);
                res
            },
        }
    }

    /// The extractor for what the deserializer answered: a query string that
    /// does not fit `T` fails with status 400.
    pub fn from_parsed(parsed: Result<T, String>) -> (res: Result<Self, Error>)
        ensures
            match parsed {
                Ok(value) => res matches Ok(q) && q.0 == value,
                Err(complaint) => res matches Err(e) && e@ == parse_failure(
                    400,
                    "Invalid query parameters: "@,
                    complaint@,
                    ""@,
                ),
            },
    {
        match classify(parsed, 400, "Invalid query parameters: ", "") {
            Ok(value) => Ok(Query(value)),
            Err(e) => Err(e),
        }
    }
}

/// What the check of a body extractor gives: a failure with status 400 where
/// the `Content-Type` does not begin with the media type, before the body is
/// touched; otherwise what asking for the body gives.
pub open spec fn typed_body_outcome(req: &Req, media_type: Seq<char>, complaint: Seq<char>)
    -> Result<Option<Seq<u8>>, ErrorView> {
    if has_media_type(req, media_type) {
        body_outcome(req.body_state())
    } else {
        Err(ErrorView::Status(400, Some(complaint)))
    }
}

/// Checks the `Content-Type` and, where it fits, asks for the body bytes.
pub fn typed_body(req: &mut Req, media_type: &str, complaint: &str) -> (res: Result<
    Extract<Bytes>,
    Error,
>)
    ensures
        is_outcome(res, typed_body_outcome(old(req), media_type@, complaint@)),
        final(req).same_head(old(req)),
        final(req).body_state() == if has_media_type(old(req), media_type@) {
            old(req).body_state().ask().after
        } else {
            old(req).body_state()
        },
{
    if !check_media_type(req, media_type) {
        return Err(Error::bad_request(complaint));
    }
    body_bytes(req)
}

/// Form data from the body, deserialized into `T`.
pub struct Form<T>(pub T);

impl<T> Form<T> {
    /// The body bytes to deserialize. The `Content-Type` must begin with
    /// `application/x-www-form-urlencoded`, or the request fails with status
    /// 400 and its body is not read.
    pub fn source(req: &mut Req) -> (res: Result<Extract<Bytes>, Error>)
        ensures
            is_outcome(
                res,
                typed_body_outcome(
                    old(req),
                    "application/x-www-form-urlencoded"@,
                    "Content-Type must be application/x-www-form-urlencoded"@,
                ),
            ),
            final(req).same_head(old(req)),
            final(req).body_state() == if has_media_type(
                old(req),
                "application/x-www-form-urlencoded"@,
            ) {
                old(req).body_state().ask().after
            } else {
                old(req).body_state()
            },
    {
        typed_body(
            req,
            "application/x-www-form-urlencoded",
            "Content-Type must be application/x-www-form-urlencoded",
        )
    }

    /// Extracts with a deserializer. A `Content-Type` that does not begin
    /// with `application/x-www-form-urlencoded` fails with status 400, before
    /// the body is read and before the deserializer is asked; form data that
    /// does not fit `T` fails with status 422.
    pub fn from_request<F: FnOnce(Bytes) -> Result<T, String>>(req: &mut Req, parse: F) -> (res:
        Result<Extract<Self>, Error>)
        requires
            parses_all_bytes(parse),
        ensures
            is_typed_extraction(
                peeled(res, |f: Form<T>| f.0),
                old(req),
                "application/x-www-form-urlencoded"@,
                "Content-Type must be application/x-www-form-urlencoded"@,
                parse,
                422,
                "Invalid form data: "@,
            ),
            !has_media_type(old(req), "application/x-www-form-urlencoded"@) ==> (res matches Err(
                e,
            ) && e@ == ErrorView::Status(
                400,
                Some("Content-Type must be application/x-www-form-urlencoded"@),
            )),
            final(req).same_head(old(req)),
            final(req).body_state() == if has_media_type(
                old(req),
                "application/x-www-form-urlencoded"@,
            ) {
                old(req).body_state().ask().after
            } else {
                old(req).body_state()
            },
    {
        let inner = extract_typed_body(
            req,
            "application/x-www-form-urlencoded",
            "Content-Type must be application/x-www-form-urlencoded",
            parse,
            422,
            "Invalid form data: ",
        );
        let res = match inner {
            Ok(Extract::Done(value)) => Ok(Extract::Done(Form(value))),
            Ok(Extract::ReadBody) => Ok(Extract::ReadBody),
            Err(e) => Err(e),
        };
        assert(peeled(res, |f: Form<T>| f.0) == inner);
        res
    }

    /// The extractor for what the deserializer answered: form data that does
    /// not fit `T` fails with status 422.
    pub fn from_parsed(parsed: Result<T, String>) -> (res: Result<Self, Error>)
        ensures
            match parsed {
                Ok(value) => res matches Ok(f) && f.0 == value,
                Err(complaint) => res matches Err(e) && e@ == parse_failure(
                    422,
                    "Invalid form data: "@,
                    complaint@,
                    ""@,
                ),
            },
    {
        match classify(parsed, 422, "Invalid form data: ", "") {
            Ok(value) => Ok(Form(value)),
            Err(e) => Err(e),
        }
    }
}

/// JSON from the body, deserialized into `T`.
pub struct Json<T>(pub T);

impl<T> Json<T> {
    /// The body bytes to deserialize. The `Content-Type` must begin with
    /// `application/json`, or the request fails with status 400 and its body
    /// is not read.
    pub fn source(req: &mut Req) -> (res: Result<Extract<Bytes>, Error>)
        ensures
            is_outcome(
                res,
                typed_body_outcome(
                    old(req),
                    "application/json"@,
                    "Content-Type must be application/json"@,
                ),
            ),
            final(req).same_head(old(req)),
            final(req).body_state() == if has_media_type(old(req), "application/json"@) {
                old(req).body_state().ask().after
            } else {
                old(req).body_state()
            },
    {
        typed_body(req, "application/json", "Content-Type must be application/json")
    }

    /// Extracts with a deserializer. A `Content-Type` that does not begin
    /// with `application/json` fails with status 400, before the body is read
    /// and before the deserializer is asked; a body that is not JSON, or does
    /// not fit `T`, fails with status 400.
    pub fn from_request<F: FnOnce(Bytes) -> Result<T, String>>(req: &mut Req, parse: F) -> (res:
        Result<Extract<Self>, Error>)
        requires
            parses_all_bytes(parse),
        ensures
            is_typed_extraction(
                peeled(res, |j: Json<T>| j.0),
                old(req),
                "application/json"@,
                "Content-Type must be application/json"@,
                parse,
                400,
                "Invalid JSON: "@,
            ),
            !has_media_type(old(req), "application/json"@) ==> (res matches Err(e) && e@
                == ErrorView::Status(400, Some("Content-Type must be application/json"@))),
            final(req).same_head(old(req)),
            final(req).body_state() == if has_media_type(old(req), "application/json"@) {
                old(req).body_state().ask().after
            } else {
                old(req).body_state()
            },
    {
        let inner = extract_typed_body(
            req,
            "application/json",
            "Content-Type must be application/json",
            parse,
            400,
            "Invalid JSON: ",
        );
        let res = match inner {
            Ok(Extract::Done(value)) => Ok(Extract::Done(Json(value))),
            Ok(Extract::ReadBody) => Ok(Extract::ReadBody),
            Err(e) => Err(e),
        };
        assert(peeled(res, |j: Json<T>| j.0) == inner);
        res
    }

    /// The extractor for what the deserializer answered: a body that is not
    /// JSON, or does not fit `T`, fails with status 400.
    pub fn from_parsed(parsed: Result<T, String>) -> (res: Result<Self, Error>)
        ensures
            match parsed {
                Ok(value) => res matches Ok(j) && j.0 == value,
                Err(complaint) => res matches Err(e) && e@ == parse_failure(
                    400,
                    "Invalid JSON: "@,
                    complaint@,
                    ""@,
                ),
            },
    {
        match classify(parsed, 400, "Invalid JSON: ", "") {
            Ok(value) => Ok(Json(value)),
            Err(e) => Err(e),
        }
    }
}

/// The hint that ends the message of a failed path extraction.
pub open spec fn path_hint() -> Seq<char> {
    ". Note: path parameters are strings, use String type or implement custom deserializer for type conversion"@
}

/// Path parameters, deserialized into `T`.
///
/// Path parameters are captured as strings and stay strings: they reach the
/// deserializer as a JSON object of strings, so a numeric field of `T` does
/// not accept them. Declare such a field as a string, or give `T` a
/// deserializer that converts.
pub struct Path<T>(pub T);

/// What serializing the path parameters gave, as the source of a path
/// extraction: the JSON text, or a failure with status 400.
pub open spec fn path_source(serialized: Result<String, String>) -> Result<Seq<char>, ErrorView> {
    match serialized {
        Ok(text) => Ok(text@),
        Err(complaint) => Err(
            parse_failure(400, "Failed to serialize path parameters: "@, complaint@, ""@),
        ),
    }
}

impl<T> Path<T> {
    /// Classifies what serializing the path parameters gave.
    pub fn source_of(serialized: Result<String, String>) -> (res: Result<String, Error>)
        ensures
            match path_source(serialized) {
                Ok(text) => res matches Ok(t) && t@ == text,
                Err(error) => res matches Err(e) && e@ == error,
            },
    {
        classify(serialized, 400, "Failed to serialize path parameters: ", "")
    }

    /// The JSON text to deserialize: the path parameters as one object of
    /// strings. Path parameters can always be serialized.
    pub fn source(req: &Req) -> (res: Result<String, Error>)
        ensures
            res matches Ok(text) && text@ == params_json(req.spec_params()),
    {
        Self::source_of(req.path_params().to_json())
    }

    /// Extracts with a deserializer, which is given the path parameters as
    /// the text of one JSON object of strings: parameters that do not fit `T`
    /// fail with status 400.
    pub fn from_request<F: FnOnce(&str) -> Result<T, String>>(req: &Req, parse: F) -> (res: Result<
        Extract<Self>,
        Error,
    >)
        requires
            parses_all_text(parse),
        ensures
            is_text_extraction(
                peeled(res, |p: Path<T>| p.0),
                params_json(req.spec_params()),
                parse,
                400,
                "Invalid path parameters: "@,
                path_hint(),
            ),
            !(res matches Ok(Extract::ReadBody)),
    {
        match Self::source(req) {
            Err(e) => Err(e),
            Ok(text) => {
                let inner = extract_text(
                    text.as_str(),
                    parse,
                    400,
                    "Invalid path parameters: ",
                    ". Note: path parameters are strings, use String type or implement custom deserializer for type conversion",
                );
                let res = match inner {
                    Ok(Extract::Done(value)) => Ok(Extract::Done(Path(value))),
                    Ok(Extract::ReadBody) => Ok(Extract::ReadBody),
                    Err(e) => Err(e),
                };
                assert(peeled(res, |p: Path<T>| p.0) == inner);
                res
            },
        }
    }

    /// The extractor for what the deserializer answered: parameters that do
    /// not fit `T` fail with status 400.
    pub fn from_parsed(parsed: Result<T, String>) -> (res: Result<Self, Error>)
        ensures
            match parsed {
                Ok(value) => res matches Ok(p) && p.0 == value,
                Err(complaint) => res matches Err(e) && e@ == parse_failure(
                    400,
                    "Invalid path parameters: "@,
                    complaint@,
                    path_hint(),
                ),
            },
    {
        match classify(
            parsed,
            400,
            "Invalid path parameters: ",
            ". Note: path parameters are strings, use String type or implement custom deserializer for type conversion",
        ) {
            Ok(value) => Ok(Path(value)),
            Err(e) => Err(e),
        }
    }
}

} // verus!
