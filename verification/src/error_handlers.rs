//! Error handlers: the policies that turn a classified error into a response.

use vstd::prelude::*;
use vstd::utf8::encode_utf8;
use crate::error::{Error, ErrorView};
use crate::res::{Res, ResView};
use crate::text::{decimal, push_char, push_decimal, push_text};

verus! {

/// The character of a hexadecimal digit, in lower case.
pub open spec fn hex_digit(digit: nat) -> char
    recommends
        digit < 16,
{
    if digit < 10 {
        (48 + digit) as char
    } else {
        (87 + digit) as char
    }
}

/// Whether a character is a control character: one below U+0020.
pub open spec fn is_control(c: char) -> bool {
    (c as u32) < 0x20
}

/// What a character becomes inside a JSON string. A backslash, a quote, a
/// line feed, a carriage return and a tab are written as two-character
/// escapes; any other control character as `\u00` and its two hexadecimal
/// digits; any other character stays.
pub open spec fn escape_char(c: char) -> Seq<char> {
    if c == '\\' {
        seq!['\\', '\\']
    } else if c == '"' {
        seq!['\\', '"']
    } else if c == '\n' {
        seq!['\\', 'n']
    } else if c == '\r' {
        seq!['\\', 'r']
    } else if c == '\t' {
        seq!['\\', 't']
    } else if is_control(c) {
        seq![
            '\\',
            'u',
            '0',
            '0',
            hex_digit((c as u32 / 16) as nat),
            hex_digit((c as u32 % 16) as nat),
        ]
    } else {
        seq![c]
    }
}

/// A text with each character escaped for a JSON string.
pub open spec fn spec_escape_json(text: Seq<char>) -> Seq<char>
    decreases text.len(),
{
    if text.len() == 0 {
        Seq::empty()
    } else {
        spec_escape_json(text.drop_last()) + escape_char(text.last())
    }
}

/// The character of a hexadecimal digit.
fn hex_digit_char(digit: u8) -> (c: char)
    requires
        digit < 16,
    ensures
        c == hex_digit(digit as nat),
{
    if digit < 10 {
        (48u8 + digit) as char
    } else {
        (87u8 + digit) as char
    }
}

/// Appends what a character becomes inside a JSON string.
pub fn push_escaped(out: &mut String, c: char)
    ensures
        final(out)@ == old(out)@ + escape_char(c),
{
    proof {
        reveal_strlit("\\\\");
        reveal_strlit("\\\"");
        reveal_strlit("\\n");
        reveal_strlit("\\r");
        reveal_strlit("\\t");
        reveal_strlit("\\u00");
        assert("\\\\"@ =~= seq!['\\', '\\']);
        assert("\\\""@ =~= seq!['\\', '"']);
        assert("\\n"@ =~= seq!['\\', 'n']);
        assert("\\r"@ =~= seq!['\\', 'r']);
        assert("\\t"@ =~= seq!['\\', 't']);
        assert("\\u00"@ =~= seq!['\\', 'u', '0', '0']);
    }
    let code: u32 = c as u32;
    if c == '\\' {
        push_text(out, "\\\\");
    } else if c == '"' {
        push_text(out, "\\\"");
    } else if c == '\n' {
        push_text(out, "\\n");
    } else if c == '\r' {
        push_text(out, "\\r");
    } else if c == '\t' {
        push_text(out, "\\t");
    } else if code < 0x20 {
        push_text(out, "\\u00");
        push_char(out, hex_digit_char((code / 16) as u8));
        push_char(out, hex_digit_char((code % 16) as u8));
        assert(final(out)@ =~= old(out)@ + escape_char(c));
    } else {
        push_char(out, c);
        assert(final(out)@ =~= old(out)@ + escape_char(c));
    }
}

/// Escapes a text for use inside a JSON string: between double quotes the
/// result is a JSON string that stands for the text.
pub fn escape_json(s: &str) -> (out: String)
    ensures
        out@ == spec_escape_json(s@),
{
    let mut out = String::new();
    for c in it: s.chars()
        invariant
            it.seq() == s@,
            out@ == spec_escape_json(s@.subrange(0, it.index() as int)),
    {
        let ghost before = s@.subrange(0, it.index() as int);
        let ghost after = s@.subrange(0, it.index() + 1);
        assert(after.drop_last() =~= before);
        assert(after.last() == c);
        push_escaped(&mut out, c);
    }
    assert(s@.subrange(0, s@.len() as int) =~= s@);
    out
}

/// The reason phrase of a status code; `HTTP` and the number for a code that
/// has no phrase here.
pub open spec fn spec_status_text(code: u16) -> Seq<char> {
    if code == 400 {
        "Bad Request"@
    } else if code == 401 {
        "Unauthorized"@
    } else if code == 403 {
        "Forbidden"@
    } else if code == 404 {
        "Not Found"@
    } else if code == 405 {
        "Method Not Allowed"@
    } else if code == 413 {
        "Payload Too Large"@
    } else if code == 422 {
        "Unprocessable Entity"@
    } else if code == 500 {
        "Internal Server Error"@
    } else if code == 502 {
        "Bad Gateway"@
    } else if code == 503 {
        "Service Unavailable"@
    } else {
        "HTTP "@ + decimal(code as nat)
    }
}

/// The reason phrase of a status code.
pub fn status_text(code: u16) -> (text: String)
    ensures
        text@ == spec_status_text(code),
{
    match code {
        400 => "Bad Request".to_owned(),
        401 => "Unauthorized".to_owned(),
        403 => "Forbidden".to_owned(),
        404 => "Not Found".to_owned(),
        405 => "Method Not Allowed".to_owned(),
        413 => "Payload Too Large".to_owned(),
        422 => "Unprocessable Entity".to_owned(),
        500 => "Internal Server Error".to_owned(),
        502 => "Bad Gateway".to_owned(),
        503 => "Service Unavailable".to_owned(),
        _ => {
            let mut text = "HTTP ".to_owned();
            push_decimal(&mut text, code as u64);
            text
        },
    }
}

/// Turns errors into responses. Invoked whenever extraction or a handler
/// fails.
pub trait ErrorHandler {
    /// The response for an error.
    fn handle(&self, error: Error) -> Res;
}

/// The message that the plain-text policy renders: status and message for an
/// explicit status, the reason phrase where it has no message, the source
/// behind a label for the other kinds, and a custom message as it is.
pub open spec fn plain_message(error: ErrorView) -> Seq<char> {
    match error {
        ErrorView::Status(code, Some(message)) => decimal(code as nat) + " "@ + message,
        ErrorView::Status(code, None) => spec_status_text(code),
        ErrorView::Deserialize(source) => "JSON error: "@ + source,
        ErrorView::Transport(source) => "HTTP error: "@ + source,
        ErrorView::Io(source) => "IO error: "@ + source,
        ErrorView::Custom(message) => message,
    }
}

/// The response of the plain-text policy.
pub open spec fn plain_response(error: ErrorView) -> ResView {
    ResView {
        status: error.status_code(),
        headers: seq![("Content-Type"@, "text/plain; charset=utf-8"@)],
        body: encode_utf8(plain_message(error)),
    }
}

/// The message that the structured policy renders.
pub open spec fn json_message(error: ErrorView) -> Seq<char> {
    match error {
        ErrorView::Status(_, Some(message)) => message,
        ErrorView::Status(code, None) => spec_status_text(code),
        ErrorView::Deserialize(source) => "JSON error: "@ + source,
        ErrorView::Transport(source) => "HTTP error: "@ + source,
        ErrorView::Io(source) => "IO error: "@ + source,
        ErrorView::Custom(message) => message,
    }
}

/// The JSON object of the structured policy: the escaped message under
/// `error` and the code under `status`.
pub open spec fn json_body(message: Seq<char>, status: u16) -> Seq<char> {
    "{\"error\": \""@ + spec_escape_json(message) + "\", \"status\": "@ + decimal(
        status as nat,
    ) + "}"@
}

/// The response of the structured policy.
pub open spec fn json_response(error: ErrorView) -> ResView {
    ResView {
        status: error.status_code(),
        headers: seq![("Content-Type"@, "application/json"@)],
        body: encode_utf8(json_body(json_message(error), error.status_code())),
    }
}

/// The mapping table. Both policies answer with the status that the error
/// stands for: an explicit status as it is, 400 for malformed input, 500 for
/// the rest.
pub proof fn lemma_policies_share_status(error: ErrorView)
    ensures
        plain_response(error).status == error.status_code(),
        json_response(error).status == error.status_code(),
        error matches ErrorView::Status(code, _) ==> error.status_code() == code,
        error is Deserialize ==> error.status_code() == 400,
        error is Transport || error is Io || error is Custom ==> error.status_code() == 500,
{
}

/// The plain-text policy.
#[derive(Debug, Clone, Copy)]
pub struct DefaultErrorHandler;

impl DefaultErrorHandler {
    /// The text that the policy renders for an error.
    pub fn message(error: &Error) -> (text: String)
        ensures
            text@ == plain_message(error@),
    {
        match error {
            Error::Status(code, Some(message)) => {
                let mut text = String::new();
                push_decimal(&mut text, *code as u64);
                push_text(&mut text, " ");
                push_text(&mut text, message.as_str());
                assert(text@ =~= decimal(*code as nat) + " "@ + message@);
                text
            },
            Error::Status(code, None) => status_text(*code),
            Error::Deserialize(source) => {
                let mut text = "JSON error: ".to_owned();
                push_text(&mut text, source.as_str());
                text
            },
            Error::Transport(source) => {
                let mut text = "HTTP error: ".to_owned();
                push_text(&mut text, source.as_str());
                text
            },
            Error::Io(source) => {
                let mut text = "IO error: ".to_owned();
                push_text(&mut text, source.as_str());
                text
            },
            Error::Custom(message) => message.clone(),
        }
    }
}

impl ErrorHandler for DefaultErrorHandler {
    /// Renders the error as plain text.
    fn handle(&self, error: Error) -> (res: Res)
        ensures
            res@ == plain_response(error@),
    {
        let text = DefaultErrorHandler::message(&error);
        let res = Res::builder().status(error.status_code()).text(text.as_str());
        assert(res@.headers =~= plain_response(error@).headers);
        res
    }
}

/// The structured policy.
#[derive(Debug, Clone, Copy)]
pub struct JsonErrorHandler;

impl JsonErrorHandler {
    /// The message that the policy renders for an error, before escaping.
    pub fn message(error: &Error) -> (text: String)
        ensures
            text@ == json_message(error@),
    {
        match error {
            Error::Status(_, Some(message)) => message.clone(),
            Error::Status(code, None) => status_text(*code),
            Error::Deserialize(source) => {
                let mut text = "JSON error: ".to_owned();
                push_text(&mut text, source.as_str());
                text
            },
            Error::Transport(source) => {
                let mut text = "HTTP error: ".to_owned();
                push_text(&mut text, source.as_str());
                text
            },
            Error::Io(source) => {
                let mut text = "IO error: ".to_owned();
                push_text(&mut text, source.as_str());
                text
            },
            Error::Custom(message) => message.clone(),
        }
    }
}

impl ErrorHandler for JsonErrorHandler {
    /// Renders the error as a JSON object.
    fn handle(&self, error: Error) -> (res: Res)
        ensures
            res@ == json_response(error@),
    {
        let status = error.status_code();
        let message = JsonErrorHandler::message(&error);
        let escaped = escape_json(message.as_str());
        let mut json = "{\"error\": \"".to_owned();
        push_text(&mut json, escaped.as_str());
        push_text(&mut json, "\", \"status\": ");
        push_decimal(&mut json, status as u64);
        push_text(&mut json, "}");
        assert(json@ =~= json_body(json_message(error@), status));
        let res = Res::builder().status(status).header("Content-Type", "application/json").text(
            json.as_str(),
        );
        proof {
            let empty = Seq::<(Seq<char>, Seq<char>)>::empty();
            let lines = crate::res::set_header(empty, "Content-Type"@, "application/json"@);
            assert(crate::res::without_header(empty, "Content-Type"@) =~= empty);
            assert(lines =~= seq![("Content-Type"@, "application/json"@)]);
            assert(lines.drop_first() =~= empty);
            assert(crate::res::find_header(lines, "Content-Type"@) is Some);
            assert(res@.headers =~= json_response(error@).headers);
        }
        res
    }
}

/// Whether a function can be called on every error.
pub open spec fn handles_all<F: Fn(Error) -> Res>(f: F) -> bool {
    forall|e: Error| #[trigger] f.requires((e,))
}

/// An error handler made of a function.
pub struct FnErrorHandler<F: Fn(Error) -> Res> {
    function: F,
}

impl<F: Fn(Error) -> Res> FnErrorHandler<F> {
    #[verifier::type_invariant]
    spec fn wf(self) -> bool {
        handles_all(self.function)
    }

    /// The function inside.
    pub closed spec fn function(&self) -> F {
        self.function
    }

    /// Makes a handler of a function that accepts every error.
    pub fn new(function: F) -> (handler: Self)
        requires
            handles_all(function),
        ensures
            handler.function() == function,
    {
        Self { function }
    }
}

impl<F: Fn(Error) -> Res> ErrorHandler for FnErrorHandler<F> {
    /// Answers with what the function answers.
    fn handle(&self, error: Error) -> (res: Res)
        ensures
            self.function().ensures((error,), res),
    {
        proof {
            use_type_invariant(self);
        }
        (self.function)(error)
    }
}

} // verus!
