//! The request context: method, target, headers, path parameters, an open
//! property bag, and a body that is read at most once.
//!
//! The library never touches the network. The body accessor says what has to
//! happen next: either the cached bytes are there, or the caller must read
//! the incoming stream, once, and hand the bytes in.

use vstd::prelude::*;
use bytes::Bytes;
use hyper::header::HeaderValue;
use hyper::http::Extensions;
use hyper::HeaderMap;
use crate::buffer::{bytes_clone, held};
use crate::error::{opt_text, Error, ErrorView};
use crate::headers::{header_text, header_values, spec_header_text};
use crate::params::{lookup, params_map, PathParams};
use crate::text::{
    ascii_lower, spec_contains, text_contains, text_eq_ignore_case, text_to_ascii_lower,
};

verus! {

#[verifier::external_type_specification]
#[verifier::external_body]
pub struct ExExtensions(Extensions);

/// `Extensions::new`: an empty property bag.
#[verifier::external_body]
pub(crate) fn extensions_new() -> Extensions {
    Extensions::new()
}

/// Where the body of a request stands.
pub enum BodyState {
    /// Not read yet: the incoming stream is still to be taken.
    Streaming,
    /// The stream was handed out for reading and its bytes are not in yet.
    Taken,
    /// Read and cached.
    Consumed(Seq<u8>),
}

/// What the body accessor asks of its caller.
pub enum BodyStep {
    /// The body is cached: here it is.
    Ready(Bytes),
    /// Read the incoming stream to its end and supply the bytes.
    Read,
}

/// The outcome of asking for the body in some state: the state afterwards,
/// whether the stream must be read, and whether the call fails.
pub struct BodyAsk {
    pub after: BodyState,
    pub read: bool,
    pub fails: bool,
}

impl BodyState {
    /// Asking for the body. A fresh stream is handed out for reading, once. A
    /// cached body is returned as it is. A stream that was handed out and
    /// never supplied is a logic error.
    pub open spec fn ask(self) -> BodyAsk {
        match self {
            BodyState::Streaming => BodyAsk { after: BodyState::Taken, read: true, fails: false },
            BodyState::Taken => BodyAsk { after: BodyState::Taken, read: false, fails: true },
            BodyState::Consumed(bytes) => BodyAsk {
                after: BodyState::Consumed(bytes),
                read: false,
                fails: false,
            },
        }
    }

    /// Supplying the bytes that were read. The first supply is cached; a
    /// cached body is never replaced.
    pub open spec fn supply(self, bytes: Seq<u8>) -> BodyState {
        match self {
            BodyState::Consumed(cached) => BodyState::Consumed(cached),
            _ => BodyState::Consumed(bytes),
        }
    }
}

enum Body {
    Streaming { taken: bool },
    Consumed(Bytes),
}

/// An inbound request.
pub struct Req {
    method: String,
    path: String,
    query: Option<String>,
    headers: HeaderMap<HeaderValue>,
    body: Body,
    path_params: PathParams,
    extensions: Extensions,
}

/// The mathematical value of a [`Req`].
pub struct ReqView {
    /// The HTTP method.
    pub method: Seq<char>,
    /// The path of the target.
    pub path: Seq<char>,
    /// The query string of the target, without the question mark.
    pub query: Option<Seq<char>>,
    /// What the header collection holds.
    pub headers: Map<Seq<char>, Seq<Seq<u8>>>,
    /// The path parameters.
    pub params: Map<Seq<char>, Seq<char>>,
    /// Where the body stands.
    pub body: BodyState,
    /// The property bag.
    pub extensions: Extensions,
}

impl View for Req {
    type V = ReqView;

    closed spec fn view(&self) -> ReqView {
        ReqView {
            method: self.method@,
            path: self.path@,
            query: opt_text(self.query),
            headers: header_values(self.headers),
            params: self.path_params@,
            body: match self.body {
                Body::Streaming { taken } => if taken {
                    BodyState::Taken
                } else {
                    BodyState::Streaming
                },
                Body::Consumed(bytes) => BodyState::Consumed(held(bytes)),
            },
            extensions: self.extensions,
        }
    }
}

impl ReqView {
    /// The text of a header's first value.
    pub open spec fn header(self, name: Seq<char>) -> Option<Seq<char>> {
        spec_header_text(self.headers, name)
    }
}

impl Req {
    /// The HTTP method.
    pub open spec fn spec_method(&self) -> Seq<char> {
        self@.method
    }

    /// The path of the target.
    pub open spec fn spec_path(&self) -> Seq<char> {
        self@.path
    }

    /// The query string of the target, without the question mark.
    pub open spec fn spec_query(&self) -> Option<Seq<char>> {
        self@.query
    }

    /// What the header collection holds.
    pub open spec fn spec_headers(&self) -> Map<Seq<char>, Seq<Seq<u8>>> {
        self@.headers
    }

    /// The path parameters.
    pub open spec fn spec_params(&self) -> Map<Seq<char>, Seq<char>> {
        self@.params
    }

    /// Where the body stands.
    pub open spec fn body_state(&self) -> BodyState {
        self@.body
    }

    /// The text of a header's first value.
    pub open spec fn spec_header(&self, name: Seq<char>) -> Option<Seq<char>> {
        self@.header(name)
    }

    /// Whether two requests agree in everything but the body.
    pub open spec fn same_head(&self, other: &Req) -> bool {
        self@ == (ReqView { body: self@.body, ..other@ })
    }

    /// A request with a method, a target split into path and query, and
    /// headers. Its body is still to be read; it has no path parameters.
    pub fn new(method: &str, path: &str, query: Option<&str>, headers: HeaderMap<HeaderValue>) -> (req:
        Req)
        ensures
            req.spec_method() == method@,
            req.spec_path() == path@,
            req.spec_query() == (match query {
                Some(q) => Some(q@),
                None => None,
            }),
            req.spec_headers() == header_values(headers),
            req.spec_params() == Map::<Seq<char>, Seq<char>>::empty(),
            req.body_state() == BodyState::Streaming,
    {
        let query = match query {
            Some(q) => Some(q.to_owned()),
            None => None,
        };
        Req {
            method: method.to_owned(),
            path: path.to_owned(),
            query,
            headers,
            body: Body::Streaming { taken: false },
            path_params: PathParams::new(),
            extensions: extensions_new(),
        }
    }

    /// The HTTP method.
    pub fn method(&self) -> (method: &str)
        ensures
            method@ == self.spec_method(),
    {
        self.method.as_str()
    }

    /// The path of the target.
    pub fn path(&self) -> (path: &str)
        ensures
            path@ == self.spec_path(),
    {
        self.path.as_str()
    }

    /// The query string, if the target has one.
    pub fn query(&self) -> (query: Option<&str>)
        ensures
            match query {
                Some(q) => self.spec_query() == Some(q@),
                None => self.spec_query() is None,
            },
    {
        match &self.query {
            Some(q) => Some(q.as_str()),
            None => None,
        }
    }

    /// The text of the first value of a header, looked up without regard to
    /// case. A value that is not visible ASCII counts as absent.
    pub fn header(&self, name: &str) -> (value: Option<String>)
        ensures
            opt_text(value) == self.spec_header(name@),
    {
        header_text(&self.headers, name)
    }

    /// The whole header collection.
    pub fn headers(&self) -> (headers: &HeaderMap<HeaderValue>)
        ensures
            header_values(*headers) == self.spec_headers(),
    {
        &self.headers
    }

    /// The `Content-Type` header.
    pub fn content_type(&self) -> (value: Option<String>)
        ensures
            opt_text(value) == self.spec_header("content-type"@),
    {
        self.header("content-type")
    }

    /// Whether the `Content-Type` names JSON.
    pub fn is_json(&self) -> (b: bool)
        ensures
            b == (match self.spec_header("content-type"@) {
                Some(ct) => spec_contains(ct, "application/json"@),
                None => false,
            }),
    {
        match self.content_type() {
            Some(ct) => text_contains(ct.as_str(), "application/json"),
            None => false,
        }
    }

    /// The value of a path parameter.
    pub fn param(&self, name: &str) -> (value: Option<&str>)
        ensures
            match value {
                Some(v) => lookup(self.spec_params(), name@) == Some(v@),
                None => lookup(self.spec_params(), name@) is None,
            },
    {
        self.path_params.get(name)
    }

    /// All path parameters.
    pub fn params(&self) -> (params: &PathParams)
        ensures
            params@ == self.spec_params(),
    {
        &self.path_params
    }

    /// All path parameters, for extraction.
    pub fn path_params(&self) -> (params: &PathParams)
        ensures
            params@ == self.spec_params(),
    {
        &self.path_params
    }

    /// Sets the path parameters that routing captured, from name-value
    /// pairs. Their values are always strings. Of two pairs with one name,
    /// the later one counts.
    pub fn set_path_params(&mut self, params: Vec<(String, String)>)
        ensures
            final(self)@ == (ReqView {
                params: params_map(crate::res::lines_view(params@)),
                ..old(self)@
            }),
    {
        self.path_params = PathParams::from_pairs(params);
    }

    /// Whether the headers ask for an upgrade to the message protocol: an
    /// `Upgrade` header that says `websocket` and a `Connection` header that
    /// mentions `upgrade`, both without regard to case.
    pub open spec fn spec_is_websocket_upgrade(&self) -> bool {
        &&& self.spec_header("upgrade"@) matches Some(upgrade)
        &&& ascii_lower(upgrade) == ascii_lower("websocket"@)
        &&& self.spec_header("connection"@) matches Some(connection)
        &&& spec_contains(ascii_lower(connection), "upgrade"@)
    }

    /// Whether the request asks for an upgrade to the message protocol.
    pub fn is_websocket_upgrade(&self) -> (b: bool)
        ensures
            b == self.spec_is_websocket_upgrade(),
    {
        match self.header("upgrade") {
            Some(upgrade) => {
                if text_eq_ignore_case(upgrade.as_str(), "websocket") {
                    match self.header("connection") {
                        Some(connection) => {
                            let lower = text_to_ascii_lower(connection.as_str());
                            text_contains(lower.as_str(), "upgrade")
                        },
                        None => false,
                    }
                } else {
                    false
                }
            },
            None => false,
        }
    }

    /// The handshake key: the text of the `Sec-WebSocket-Key` header.
    pub fn websocket_key(&self) -> (key: Option<String>)
        ensures
            opt_text(key) == self.spec_header("sec-websocket-key"@),
    {
        self.header("sec-websocket-key")
    }

    /// The property bag.
    pub fn extensions(&self) -> (bag: &Extensions)
        ensures
            *bag == self@.extensions,
    {
        &self.extensions
    }

    /// The property bag, for writing.
    pub fn extensions_mut(&mut self) -> (bag: &mut Extensions)
        ensures
            *bag == old(self)@.extensions,
            final(self)@ == (ReqView { extensions: *final(bag), ..old(self)@ }),
    {
        &mut self.extensions
    }

    /// Asks for the body.
    ///
    /// A cached body is returned, as often as it is asked for. The first
    /// call on a fresh request answers `Read`: the caller reads the incoming
    /// stream and supplies the bytes with [`Req::supply_body`]. Asking again
    /// before they were supplied fails with status 500.
    pub fn body(&mut self) -> (res: Result<BodyStep, Error>)
        ensures
            final(self).same_head(old(self)),
            final(self).body_state() == old(self).body_state().ask().after,
            res is Err == old(self).body_state().ask().fails,
            (res matches Ok(BodyStep::Read)) == old(self).body_state().ask().read,
            match old(self).body_state() {
                BodyState::Streaming => res matches Ok(BodyStep::Read),
                BodyState::Taken => res matches Err(e) && e@ == ErrorView::Status(
                    500,
                    Some("Request body already consumed"@),
                ),
                BodyState::Consumed(bytes) => res matches Ok(BodyStep::Ready(b)) && held(b)
                    == bytes,
            },
    {
        match &self.body {
            Body::Consumed(bytes) => Ok(BodyStep::Ready(bytes_clone(bytes))),
            Body::Streaming { taken } => {
                if *taken {
                    Err(Error::internal("Request body already consumed"))
                } else {
                    self.body = Body::Streaming { taken: true };
                    Ok(BodyStep::Read)
                }
            },
        }
    }

    /// Supplies the bytes that were read from the incoming stream; a request
    /// without a body supplies none. They are cached, unless a body is
    /// cached already: that one stays.
    pub fn supply_body(&mut self, bytes: Bytes)
        ensures
            final(self).same_head(old(self)),
            final(self).body_state() == old(self).body_state().supply(held(bytes)),
    {
        match &self.body {
            Body::Consumed(_) => {},
            Body::Streaming { .. } => {
                self.body = Body::Consumed(bytes);
            },
        }
    }

    /// The cached body, if it was read.
    pub fn cached_body(&self) -> (body: Option<&Bytes>)
        ensures
            match body {
                Some(b) => self.body_state() == BodyState::Consumed(held(*b)),
                None => !(self.body_state() is Consumed),
            },
    {
        match &self.body {
            Body::Consumed(bytes) => Some(bytes),
            Body::Streaming { .. } => None,
        }
    }
}

} // verus!
