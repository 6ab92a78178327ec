//! Laws of JSON escaping: what is escaped is the body of a JSON string, and it
//! reads back as the text that was escaped.

use vstd::prelude::*;
use crate::error::ErrorView;
use crate::error_handlers::{
    escape_char, hex_digit, is_control, json_body, json_message, json_response, spec_escape_json,
};
use crate::text::decimal;

verus! {

/// Whether a character is a hexadecimal digit.
pub open spec fn is_hex_digit(c: char) -> bool {
    ('0' <= c <= '9') || ('a' <= c <= 'f') || ('A' <= c <= 'F')
}

/// The number that a hexadecimal digit stands for.
pub open spec fn hex_value(c: char) -> nat
    recommends
        is_hex_digit(c),
{
    if '0' <= c <= '9' {
        (c as u32 - 48) as nat
    } else if 'a' <= c <= 'f' {
        (c as u32 - 87) as nat
    } else {
        (c as u32 - 55) as nat
    }
}

/// Whether a text is the body of a JSON string, as it stands between the two
/// quotes: no control character and no quote stands by itself, and every
/// backslash starts an escape, one of `\"`, `\\`, `\/`, `\b`, `\f`, `\n`,
/// `\r`, `\t`, or `\u` and four hexadecimal digits.
pub open spec fn is_json_string_body(text: Seq<char>) -> bool
    decreases text.len(),
{
    if text.len() == 0 {
        true
    } else if text[0] == '\\' {
        if text.len() < 2 {
            false
        } else if text[1] == 'u' {
            text.len() >= 6 && is_hex_digit(text[2]) && is_hex_digit(text[3]) && is_hex_digit(
                text[4],
            ) && is_hex_digit(text[5]) && is_json_string_body(text.subrange(6, text.len() as int))
        } else {
            (text[1] == '"' || text[1] == '\\' || text[1] == '/' || text[1] == 'b' || text[1]
                == 'f' || text[1] == 'n' || text[1] == 'r' || text[1] == 't')
                && is_json_string_body(text.subrange(2, text.len() as int))
        }
    } else {
        !is_control(text[0]) && text[0] != '"' && is_json_string_body(text.drop_first())
    }
}

/// The character that the letter after a backslash stands for.
pub open spec fn escaped_letter(letter: char) -> char {
    if letter == 'n' {
        '\n'
    } else if letter == 'r' {
        '\r'
    } else if letter == 't' {
        '\t'
    } else if letter == 'b' {
        '\u{8}'
    } else if letter == 'f' {
        '\u{c}'
    } else {
        letter
    }
}

/// The text that the body of a JSON string stands for.
pub open spec fn spec_unescape_json(text: Seq<char>) -> Seq<char>
    decreases text.len(),
{
    if text.len() == 0 {
        Seq::empty()
    } else if text[0] == '\\' && text.len() >= 2 {
        if text[1] == 'u' && text.len() >= 6 {
            seq![
                ((hex_value(text[2]) * 4096 + hex_value(text[3]) * 256 + hex_value(text[4]) * 16
                    + hex_value(text[5])) as u32) as char,
            ] + spec_unescape_json(text.subrange(6, text.len() as int))
        } else {
            seq![escaped_letter(text[1])] + spec_unescape_json(
                text.subrange(2, text.len() as int),
            )
        }
    } else {
        seq![text[0]] + spec_unescape_json(text.drop_first())
    }
}

/// A hexadecimal digit that was written stands for the number it was
/// written for.
pub proof fn lemma_hex_digit_reads_back(digit: nat)
    requires
        digit < 16,
    ensures
        is_hex_digit(hex_digit(digit)),
        hex_value(hex_digit(digit)) == digit,
{
}

/// Escaping goes character by character: the escape of two texts in a row is
/// their escapes in a row.
pub proof fn lemma_escape_concat(a: Seq<char>, b: Seq<char>)
    ensures
        spec_escape_json(a + b) == spec_escape_json(a) + spec_escape_json(b),
    decreases b.len(),
{
    if b.len() == 0 {
        assert(a + b =~= a);
        assert(spec_escape_json(a) + spec_escape_json(b) =~= spec_escape_json(a));
    } else {
        lemma_escape_concat(a, b.drop_last());
        assert((a + b).drop_last() =~= a + b.drop_last());
        assert((a + b).last() == b.last());
        assert(spec_escape_json(a + b) =~= spec_escape_json(a) + spec_escape_json(b));
    }
}

/// The escape of a text is the escape of its first character, then the
/// escape of the rest.
pub proof fn lemma_escape_first(text: Seq<char>)
    requires
        text.len() > 0,
    ensures
        spec_escape_json(text) == escape_char(text[0]) + spec_escape_json(text.drop_first()),
{
    let first = seq![text[0]];
    assert(text =~= first + text.drop_first());
    lemma_escape_concat(first, text.drop_first());
    assert(first.drop_last() =~= Seq::<char>::empty());
    assert(spec_escape_json(first) =~= escape_char(text[0])) by {
        reveal_with_fuel(spec_escape_json, 2);
    }
}

/// One escaped character in front of the body of a JSON string is again the
/// body of a JSON string, and it reads back as that character in front of
/// what the rest reads back as.
pub proof fn lemma_escaped_char_reads_back(c: char, rest: Seq<char>)
    ensures
        is_json_string_body(escape_char(c) + rest) == is_json_string_body(rest),
        spec_unescape_json(escape_char(c) + rest) == seq![c] + spec_unescape_json(rest),
{
    let text = escape_char(c) + rest;
    if c == '\\' || c == '"' || c == '\n' || c == '\r' || c == '\t' {
        assert(text[0] == '\\');
        assert(text.subrange(2, text.len() as int) =~= rest);
    } else if is_control(c) {
        let high = (c as u32 / 16) as nat;
        let low = (c as u32 % 16) as nat;
        lemma_hex_digit_reads_back(high);
        lemma_hex_digit_reads_back(low);
        assert(text[0] == '\\' && text[1] == 'u' && text[2] == '0' && text[3] == '0');
        assert(text[4] == hex_digit(high) && text[5] == hex_digit(low));
        assert(text.subrange(6, text.len() as int) =~= rest);
        assert(hex_value('0') == 0);
        assert(high * 16 + low == c as u32);
    } else {
        assert(text[0] == c);
        assert(text.drop_first() =~= rest);
    }
}

/// Escaped text is JSON. Whatever the text, its escape between two quotes is
/// a JSON string: no control character and no quote is left unescaped.
pub proof fn lemma_escaped_is_json(text: Seq<char>)
    ensures
        is_json_string_body(spec_escape_json(text)),
    decreases text.len(),
{
    if text.len() > 0 {
        lemma_escape_first(text);
        lemma_escaped_is_json(text.drop_first());
        lemma_escaped_char_reads_back(text[0], spec_escape_json(text.drop_first()));
    }
}

/// Escaped text reads back. Whatever the text, the JSON string of its escape
/// stands for that text.
pub proof fn lemma_unescape_escape(text: Seq<char>)
    ensures
        spec_unescape_json(spec_escape_json(text)) == text,
    decreases text.len(),
{
    if text.len() > 0 {
        lemma_escape_first(text);
        lemma_unescape_escape(text.drop_first());
        lemma_escaped_char_reads_back(text[0], spec_escape_json(text.drop_first()));
        assert(seq![text[0]] + text.drop_first() =~= text);
    }
}

/// The structured policy writes JSON. For every error, the body is the UTF-8
/// of one JSON object with the two keys `error` and `status`: under `error` a
/// JSON string that stands for the policy's message, under `status` the
/// numeral of the status that the error stands for.
pub proof fn lemma_structured_body_is_json(error: ErrorView)
    ensures
        json_response(error).body == vstd::utf8::encode_utf8(
            "{\"error\": \""@ + spec_escape_json(json_message(error)) + "\", \"status\": "@
                + decimal(error.status_code() as nat) + "}"@,
        ),
        is_json_string_body(spec_escape_json(json_message(error))),
        spec_unescape_json(spec_escape_json(json_message(error))) == json_message(error),
{
    lemma_escaped_is_json(json_message(error));
    lemma_unescape_escape(json_message(error));
}

} // verus!
