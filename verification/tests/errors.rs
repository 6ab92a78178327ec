use rust_api::error_handlers::{escape_json, status_text};
use rust_api::text::decimal_string;
use rust_api::{DefaultErrorHandler, Error, ErrorHandler, FnErrorHandler, JsonErrorHandler, Res};

fn body_text(res: &Res) -> String {
    String::from_utf8(res.body().clone()).unwrap()
}

#[test]
fn constructors() {
    assert_eq!(Error::bad_request("no"), Error::Status(400, Some("no".to_string())));
    assert_eq!(Error::unprocessable("no"), Error::Status(422, Some("no".to_string())));
    assert_eq!(Error::internal("no"), Error::Status(500, Some("no".to_string())));
    assert_eq!(Error::status(404, "gone"), Error::Status(404, Some("gone".to_string())));
    assert_eq!(Error::custom("odd"), Error::Custom("odd".to_string()));
}

#[test]
fn status_codes_follow_the_mapping_table() {
    assert_eq!(Error::Status(418, None).status_code(), 418);
    assert_eq!(Error::Status(404, Some("x".to_string())).status_code(), 404);
    assert_eq!(Error::Deserialize("x".to_string()).status_code(), 400);
    assert_eq!(Error::Transport("x".to_string()).status_code(), 500);
    assert_eq!(Error::Io("x".to_string()).status_code(), 500);
    assert_eq!(Error::Custom("x".to_string()).status_code(), 500);
}

#[test]
fn plain_policy() {
    let handler = DefaultErrorHandler;
    let res = handler.handle(Error::Status(404, Some("no such user".to_string())));
    assert_eq!(res.status_code(), 404);
    assert_eq!(body_text(&res), "404 no such user");
    assert_eq!(res.header("content-type"), Some("text/plain; charset=utf-8".to_string()));

    let res = handler.handle(Error::Status(403, None));
    assert_eq!(res.status_code(), 403);
    assert_eq!(body_text(&res), "Forbidden");

    let res = handler.handle(Error::Deserialize("expected value at line 1".to_string()));
    assert_eq!(res.status_code(), 400);
    assert_eq!(body_text(&res), "JSON error: expected value at line 1");

    let res = handler.handle(Error::Transport("connection reset".to_string()));
    assert_eq!(res.status_code(), 500);
    assert_eq!(body_text(&res), "HTTP error: connection reset");

    let res = handler.handle(Error::Io("broken pipe".to_string()));
    assert_eq!(res.status_code(), 500);
    assert_eq!(body_text(&res), "IO error: broken pipe");

    let res = handler.handle(Error::Custom("out of cheese".to_string()));
    assert_eq!(res.status_code(), 500);
    assert_eq!(body_text(&res), "out of cheese");
}

#[test]
fn structured_policy() {
    let handler = JsonErrorHandler;
    let res = handler.handle(Error::Status(422, Some("name is \"empty\"\n".to_string())));
    assert_eq!(res.status_code(), 422);
    assert_eq!(res.headers().len(), 1);
    assert_eq!(res.header("Content-Type"), Some("application/json".to_string()));
    assert_eq!(body_text(&res), "{\"error\": \"name is \\\"empty\\\"\\n\", \"status\": 422}");

    let res = handler.handle(Error::Status(404, None));
    assert_eq!(body_text(&res), "{\"error\": \"Not Found\", \"status\": 404}");

    let res = handler.handle(Error::Deserialize("eof".to_string()));
    assert_eq!(res.status_code(), 400);
    assert_eq!(body_text(&res), "{\"error\": \"JSON error: eof\", \"status\": 400}");

    let res = handler.handle(Error::Transport("reset".to_string()));
    assert_eq!(body_text(&res), "{\"error\": \"HTTP error: reset\", \"status\": 500}");

    let res = handler.handle(Error::Io("pipe".to_string()));
    assert_eq!(body_text(&res), "{\"error\": \"IO error: pipe\", \"status\": 500}");

    let res = handler.handle(Error::Custom("a\\b\tc\r".to_string()));
    assert_eq!(res.status_code(), 500);
    assert_eq!(body_text(&res), "{\"error\": \"a\\\\b\\tc\\r\", \"status\": 500}");
}

#[test]
fn both_policies_agree_on_the_status() {
    let errors = vec![
        Error::Status(429, None),
        Error::Status(401, Some("who".to_string())),
        Error::Deserialize("d".to_string()),
        Error::Transport("t".to_string()),
        Error::Io("i".to_string()),
        Error::Custom("c".to_string()),
    ];
    for error in errors {
        let plain = DefaultErrorHandler.handle(error.clone());
        let structured = JsonErrorHandler.handle(error.clone());
        assert_eq!(plain.status_code(), error.status_code());
        assert_eq!(structured.status_code(), error.status_code());
    }
}

#[test]
fn function_as_handler() {
    let handler = FnErrorHandler::new(|error: Error| Res::status(error.status_code() + 1));
    assert_eq!(handler.handle(Error::Status(300, None)).status_code(), 301);
}

#[test]
fn reason_phrases() {
    assert_eq!(status_text(400), "Bad Request");
    assert_eq!(status_text(401), "Unauthorized");
    assert_eq!(status_text(403), "Forbidden");
    assert_eq!(status_text(404), "Not Found");
    assert_eq!(status_text(405), "Method Not Allowed");
    assert_eq!(status_text(413), "Payload Too Large");
    assert_eq!(status_text(422), "Unprocessable Entity");
    assert_eq!(status_text(500), "Internal Server Error");
    assert_eq!(status_text(502), "Bad Gateway");
    assert_eq!(status_text(503), "Service Unavailable");
    assert_eq!(status_text(418), "HTTP 418");
    assert_eq!(status_text(0), "HTTP 0");
    assert_eq!(status_text(65535), "HTTP 65535");
}

#[test]
fn json_escapes() {
    assert_eq!(escape_json(""), "");
    assert_eq!(escape_json("plain ünïcode"), "plain ünïcode");
    assert_eq!(escape_json("a\"b"), "a\\\"b");
    assert_eq!(escape_json("a\\b"), "a\\\\b");
    assert_eq!(escape_json("a\nb\rc\td"), "a\\nb\\rc\\td");
    assert_eq!(escape_json("\\n"), "\\\\n");
    assert_eq!(escape_json("\\\""), "\\\\\\\"");
}

#[test]
fn json_escapes_of_control_characters() {
    assert_eq!(escape_json("\u{8}"), "\\u0008");
    assert_eq!(escape_json("\u{0}"), "\\u0000");
    assert_eq!(escape_json("\u{c}"), "\\u000c");
    assert_eq!(escape_json("\u{1f}"), "\\u001f");
    assert_eq!(escape_json("a\u{1b}[0mb"), "a\\u001b[0mb");
    assert_eq!(escape_json(" "), " ");
    assert_eq!(escape_json("\u{7f}"), "\u{7f}");
    for code in 0u32..0x20 {
        let c = char::from_u32(code).unwrap();
        let escaped = escape_json(&c.to_string());
        assert!(escaped.starts_with('\\'));
        assert!(escaped.chars().all(|e| e >= ' '));
        let quoted = format!("\"{}\"", escaped);
        assert_eq!(serde_json::from_str::<String>(&quoted).unwrap(), c.to_string());
    }
}

#[test]
fn escaped_text_reads_back_as_json() {
    for text in ["", "plain", "q\"uote", "back\\slash", "line\nfeed\r\ttab", "bell\u{7}", "ünï ✓"] {
        let quoted = format!("\"{}\"", escape_json(text));
        assert_eq!(serde_json::from_str::<String>(&quoted).unwrap(), text);
    }
}

#[test]
fn structured_policy_escapes_control_characters() {
    let res = JsonErrorHandler.handle(Error::Custom("a\u{8}b".to_string()));
    assert_eq!(body_text(&res), "{\"error\": \"a\\u0008b\", \"status\": 500}");
    let parsed: serde_json::Value = serde_json::from_slice(res.body()).unwrap();
    assert_eq!(parsed["error"], "a\u{8}b");
    assert_eq!(parsed["status"], 500);
    assert_eq!(parsed.as_object().map(|o| o.len()), Some(2));
}

#[test]
fn decimal_numerals() {
    assert_eq!(decimal_string(0), "0");
    assert_eq!(decimal_string(7), "7");
    assert_eq!(decimal_string(10), "10");
    assert_eq!(decimal_string(3600), "3600");
    assert_eq!(decimal_string(u64::MAX), "18446744073709551615");
}
