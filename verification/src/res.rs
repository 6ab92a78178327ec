//! The response that handlers and interceptors produce.

use vstd::prelude::*;
use vstd::utf8::encode_utf8;
use crate::error::opt_text;
use crate::frame::push_bytes;
use crate::text::{ascii_lower, push_text, text_eq_ignore_case};

verus! {

/// An outbound response: status, header lines in order, and body.
#[derive(Debug, Clone, PartialEq, Eq)]
pub struct Res {
    status: u16,
    headers: Vec<(String, String)>,
    body: Vec<u8>,
}

/// The mathematical value of a [`Res`].
pub struct ResView {
    pub status: u16,
    pub headers: Seq<(Seq<char>, Seq<char>)>,
    pub body: Seq<u8>,
}

/// The header lines of a vector of owned pairs.
pub open spec fn lines_view(lines: Seq<(String, String)>) -> Seq<(Seq<char>, Seq<char>)> {
    Seq::new(lines.len(), |i: int| (lines[i].0@, lines[i].1@))
}

/// Whether two header names are the same, without regard to case.
pub open spec fn same_name(a: Seq<char>, b: Seq<char>) -> bool {
    ascii_lower(a) == ascii_lower(b)
}

/// The lines that are left when every line named `name` is taken out.
pub open spec fn without_header(lines: Seq<(Seq<char>, Seq<char>)>, name: Seq<char>) -> Seq<
    (Seq<char>, Seq<char>),
>
    decreases lines.len(),
{
    if lines.len() == 0 {
        Seq::empty()
    } else {
        let rest = without_header(lines.drop_last(), name);
        if same_name(lines.last().0, name) {
            rest
        } else {
            rest.push(lines.last())
        }
    }
}

/// Setting a header: every earlier line of that name goes, and the new line
/// comes last.
pub open spec fn set_header(
    lines: Seq<(Seq<char>, Seq<char>)>,
    name: Seq<char>,
    value: Seq<char>,
) -> Seq<(Seq<char>, Seq<char>)> {
    without_header(lines, name).push((name, value))
}

/// The value of the first line named `name`.
pub open spec fn find_header(lines: Seq<(Seq<char>, Seq<char>)>, name: Seq<char>) -> Option<
    Seq<char>,
>
    decreases lines.len(),
{
    if lines.len() == 0 {
        None
    } else if same_name(lines.first().0, name) {
        Some(lines.first().1)
    } else {
        find_header(lines.drop_first(), name)
    }
}

/// Sets a header in a vector of lines.
pub fn put_header(lines: &Vec<(String, String)>, name: &str, value: &str) -> (out: Vec<
    (String, String),
>)
    ensures
        lines_view(out@) == set_header(lines_view(lines@), name@, value@),
{
    let mut out: Vec<(String, String)> = Vec::new();
    let mut i: usize = 0;
    while i < lines.len()
        invariant
            i <= lines@.len(),
            lines_view(out@) == without_header(lines_view(lines@).subrange(0, i as int), name@),
        decreases lines@.len() - i,
    {
        let ghost before = lines_view(lines@).subrange(0, i as int);
        let ghost after = lines_view(lines@).subrange(0, i + 1);
        assert(after.drop_last() =~= before);
        assert(after.last() == (lines@[i as int].0@, lines@[i as int].1@));
        if !text_eq_ignore_case(lines[i].0.as_str(), name) {
            let ghost old_out = out@;
            out.push((lines[i].0.clone(), lines[i].1.clone()));
            assert(lines_view(out@) =~= lines_view(old_out).push(after.last()));
        }
        i = i + 1;
    }
    assert(lines_view(lines@).subrange(0, i as int) =~= lines_view(lines@));
    let ghost old_out = out@;
    out.push((name.to_owned(), value.to_owned()));
    assert(lines_view(out@) =~= lines_view(old_out).push((name@, value@)));
    out
}

/// Finds the value of the first line with a name.
pub fn get_header(lines: &Vec<(String, String)>, name: &str) -> (value: Option<String>)
    ensures
        opt_text(value) == find_header(lines_view(lines@), name@),
{
    let mut i: usize = 0;
    assert(lines_view(lines@).subrange(0, lines@.len() as int) =~= lines_view(lines@));
    while i < lines.len()
        invariant
            i <= lines@.len(),
            find_header(lines_view(lines@), name@) == find_header(
                lines_view(lines@).subrange(i as int, lines@.len() as int),
                name@,
            ),
        decreases lines@.len() - i,
    {
        let ghost tail = lines_view(lines@).subrange(i as int, lines@.len() as int);
        assert(tail.first() == (lines@[i as int].0@, lines@[i as int].1@));
        assert(tail.drop_first() =~= lines_view(lines@).subrange(i + 1, lines@.len() as int));
        if text_eq_ignore_case(lines[i].0.as_str(), name) {
            return Some(lines[i].1.clone());
        }
        i = i + 1;
    }
    None
}

impl View for Res {
    type V = ResView;

    closed spec fn view(&self) -> ResView {
        ResView { status: self.status, headers: lines_view(self.headers@), body: self.body@ }
    }
}

impl ResView {
    /// A response of status 200 with one `Content-Type` line and a body.
    pub open spec fn typed(content_type: Seq<char>, body: Seq<u8>) -> ResView {
        ResView { status: 200, headers: seq![("Content-Type"@, content_type)], body }
    }

    /// This response with a header set.
    pub open spec fn with_header(self, name: Seq<char>, value: Seq<char>) -> ResView {
        ResView { headers: set_header(self.headers, name, value), ..self }
    }

    /// The value of the first header line with a name.
    pub open spec fn header(self, name: Seq<char>) -> Option<Seq<char>> {
        find_header(self.headers, name)
    }
}

/// The body of the response that reports a failed JSON serialization.
pub open spec fn serialization_failure_body(reason: Seq<char>) -> Seq<char> {
    "{\"error\": \"JSON serialization failed: "@ + reason + "\"}"@
}

impl Res {
    /// A 200 response with a plain-text body.
    pub fn text(body: &str) -> (res: Res)
        ensures
            res@ == ResView::typed("text/plain; charset=utf-8"@, encode_utf8(body@)),
    {
        Res::builder().text(body)
    }

    /// A 200 response with an HTML body.
    pub fn html(body: &str) -> (res: Res)
        ensures
            res@ == ResView::typed("text/html; charset=utf-8"@, encode_utf8(body@)),
    {
        Res::builder().html(body)
    }

    /// A JSON response from the outcome of serializing a value: the bytes
    /// with status 200, or, where serializing failed, status 500 and a JSON
    /// body that gives the reason.
    pub fn json(serialized: Result<Vec<u8>, String>) -> (res: Res)
        ensures
            res@ == (match serialized {
                Ok(bytes) => ResView::typed("application/json"@, bytes@),
                Err(reason) => ResView {
                    status: 500,
                    headers: seq![("Content-Type"@, "application/json"@)],
                    body: encode_utf8(serialization_failure_body(reason@)),
                },
            }),
    {
        Res::builder().json(serialized)
    }

    /// A response with a status, no headers and an empty body.
    pub fn status(code: u16) -> (res: Res)
        ensures
            res@ == (ResView { status: code, headers: Seq::empty(), body: Seq::empty() }),
    {
        let res = Res { status: code, headers: Vec::new(), body: Vec::new() };
        assert(res@.headers =~= Seq::empty());
        res
    }

    /// A builder that starts from status 200 and no headers.
    pub fn builder() -> (b: ResBuilder)
        ensures
            b@ == (ResView { status: 200, headers: Seq::empty(), body: Seq::empty() }),
    {
        let b = ResBuilder { status: 200, headers: Vec::new() };
        assert(lines_view(b.headers@) =~= Seq::empty());
        b
    }

    /// This response with a header set: earlier lines of that name go.
    pub fn with_header(self, name: &str, value: &str) -> (res: Res)
        ensures
            res@ == self@.with_header(name@, value@),
    {
        let headers = put_header(&self.headers, name, value);
        Res { status: self.status, headers, body: self.body }
    }

    /// The status code.
    pub fn status_code(&self) -> (code: u16)
        ensures
            code == self@.status,
    {
        self.status
    }

    /// The value of the first header line with a name, compared without
    /// regard to case.
    pub fn header(&self, name: &str) -> (value: Option<String>)
        ensures
            opt_text(value) == self@.header(name@),
    {
        get_header(&self.headers, name)
    }

    /// The header lines, in order.
    pub fn headers(&self) -> (lines: &Vec<(String, String)>)
        ensures
            lines_view(lines@) == self@.headers,
    {
        &self.headers
    }

    /// The body.
    pub fn body(&self) -> (body: &Vec<u8>)
        ensures
            body@ == self@.body,
    {
        &self.body
    }
}

/// Builds a response step by step: status and headers first, the body last.
#[derive(Debug, Clone, PartialEq, Eq)]
pub struct ResBuilder {
    status: u16,
    headers: Vec<(String, String)>,
}

impl View for ResBuilder {
    type V = ResView;

    /// The response that the builder would give with an empty body and no
    /// content type of its own.
    closed spec fn view(&self) -> ResView {
        ResView { status: self.status, headers: lines_view(self.headers@), body: Seq::empty() }
    }
}

impl ResView {
    /// The response that a builder gives for a body of some content type.
    /// A `Content-Type` that was set on the builder stays; otherwise the
    /// body's own is added.
    pub open spec fn finished(self, content_type: Seq<char>, body: Seq<u8>) -> ResView {
        ResView {
            status: self.status,
            headers: if self.header("Content-Type"@) is Some {
                self.headers
            } else {
                self.headers.push(("Content-Type"@, content_type))
            },
            body,
        }
    }
}

impl ResBuilder {
    /// Sets the status.
    pub fn status(self, code: u16) -> (b: ResBuilder)
        ensures
            b@ == (ResView { status: code, ..self@ }),
    {
        ResBuilder { status: code, headers: self.headers }
    }

    /// Sets a header: earlier lines of that name go.
    pub fn header(self, name: &str, value: &str) -> (b: ResBuilder)
        ensures
            b@ == self@.with_header(name@, value@),
    {
        let headers = put_header(&self.headers, name, value);
        ResBuilder { status: self.status, headers }
    }

    fn finish(self, content_type: &str, body: Vec<u8>) -> (res: Res)
        ensures
            res@ == self@.finished(content_type@, body@),
    {
        let mut headers = self.headers;
        let present = get_header(&headers, "Content-Type");
        if present.is_none() {
            let ghost old_lines = headers@;
            headers.push(("Content-Type".to_owned(), content_type.to_owned()));
            assert(lines_view(headers@) =~= lines_view(old_lines).push(
                ("Content-Type"@, content_type@),
            ));
        }
        Res { status: self.status, headers, body }
    }

    /// Finishes with a plain-text body.
    pub fn text(self, body: &str) -> (res: Res)
        ensures
            res@ == self@.finished("text/plain; charset=utf-8"@, encode_utf8(body@)),
    {
        let mut bytes: Vec<u8> = Vec::new();
        push_bytes(&mut bytes, body.as_bytes());
        assert(bytes@ =~= encode_utf8(body@));
        self.finish("text/plain; charset=utf-8", bytes)
    }

    /// Finishes with an HTML body.
    pub fn html(self, body: &str) -> (res: Res)
        ensures
            res@ == self@.finished("text/html; charset=utf-8"@, encode_utf8(body@)),
    {
        let mut bytes: Vec<u8> = Vec::new();
        push_bytes(&mut bytes, body.as_bytes());
        assert(bytes@ =~= encode_utf8(body@));
        self.finish("text/html; charset=utf-8", bytes)
    }

    /// Finishes with a JSON body from the outcome of serializing a value.
    /// Where serializing failed, the status becomes 500 and the body gives
    /// the reason.
    pub fn json(self, serialized: Result<Vec<u8>, String>) -> (res: Res)
        ensures
            res@ == (match serialized {
                Ok(bytes) => self@.finished("application/json"@, bytes@),
                Err(reason) => (ResView { status: 500, ..self@ }).finished(
                    "application/json"@,
                    encode_utf8(serialization_failure_body(reason@)),
                ),
            }),
    {
        match serialized {
            Ok(bytes) => self.finish("application/json", bytes),
            Err(reason) => {
                let mut text = "{\"error\": \"JSON serialization failed: ".to_owned();
                push_text(&mut text, reason.as_str());
                push_text(&mut text, "\"}");
                let mut bytes: Vec<u8> = Vec::new();
                push_bytes(&mut bytes, text.as_str().as_bytes());
                assert(bytes@ =~= encode_utf8(serialization_failure_body(reason@)));
                let b = ResBuilder { status: 500, headers: self.headers };
                b.finish("application/json", bytes)
            },
        }
    }
}

} // verus!
