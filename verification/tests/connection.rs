use hyper::header::HeaderValue;
use hyper::HeaderMap;
use rust_api::frame::encode_frame;
use rust_api::{
    CloseFrame, Error, Extract, FromRequest, Message, Received, Req, WebSocket, WebSocketUpgrade,
};

fn upgrade_request(pairs: &[(&'static str, &'static str)]) -> Req {
    let mut headers = HeaderMap::new();
    for (name, value) in pairs {
        headers.insert(*name, HeaderValue::from_static(value));
    }
    Req::new("GET", "/ws", None, headers)
}

#[test]
fn new_connection_needs_data() {
    let mut socket = WebSocket::new();
    assert!(!socket.is_closed());
    assert_eq!(socket.receive(), Ok(Received::NeedData));
}

#[test]
fn fed_bytes_become_messages() {
    let mut socket = WebSocket::new();
    let frame = encode_frame(&Message::Text("hi".to_string())).unwrap();
    socket.feed(&frame[..3]);
    assert_eq!(socket.receive(), Ok(Received::NeedData));
    socket.feed(&frame[3..]);
    assert_eq!(socket.receive(), Ok(Received::Message(Message::Text("hi".to_string()))));
    assert_eq!(socket.receive(), Ok(Received::NeedData));
    assert!(!socket.is_closed());
}

#[test]
fn close_frame_closes_the_connection() {
    let mut socket = WebSocket::new();
    socket.feed(&[0x88, 0x00, 0x81, 0x01, b'x']);
    assert_eq!(socket.receive(), Ok(Received::Message(Message::Close(None))));
    assert!(socket.is_closed());
    assert_eq!(socket.receive(), Ok(Received::Closed));
    socket.feed(&[0x81, 0x01, b'y']);
    assert_eq!(socket.receive(), Ok(Received::Closed));
}

#[test]
fn empty_read_closes_the_connection() {
    let mut socket = WebSocket::new();
    socket.feed(&[0x81]);
    socket.feed(&[]);
    assert!(socket.is_closed());
    assert_eq!(socket.receive(), Ok(Received::Closed));
}

#[test]
fn protocol_error_is_reported_and_the_frame_dropped() {
    let mut socket = WebSocket::new();
    socket.feed(&[0x8B, 0x00, 0x89, 0x00]);
    assert_eq!(socket.receive(), Err(Error::Custom("Unknown opcode: 11".to_string())));
    assert_eq!(socket.receive(), Ok(Received::Message(Message::Ping(vec![]))));
}

#[test]
fn sending_gives_the_frame_to_write() {
    let socket = WebSocket::new();
    assert_eq!(socket.send_text("ok").unwrap(), vec![0x81, 0x02, b'o', b'k']);
    assert_eq!(socket.send_binary(vec![1, 2, 3]).unwrap(), vec![0x82, 0x03, 1, 2, 3]);
    assert_eq!(socket.send(Message::Pong(vec![4])).unwrap(), vec![0x8A, 0x01, 4]);
}

#[test]
fn closing_gives_the_close_frame() {
    assert_eq!(WebSocket::new().close().unwrap(), vec![0x88, 0x00]);
    assert_eq!(
        WebSocket::new().close_with(1000, "done").unwrap(),
        encode_frame(&Message::Close(Some(CloseFrame { code: 1000, reason: "done".to_string() })))
            .unwrap()
    );
    assert_eq!(
        WebSocket::new().close_with(1000, "done").unwrap(),
        vec![0x88, 0x06, 0x03, 0xE8, b'd', b'o', b'n', b'e']
    );
}

#[test]
fn upgrade_request_is_recognised() {
    let mut req = upgrade_request(&[
        ("Upgrade", "WebSocket"),
        ("Connection", "keep-alive, Upgrade"),
        ("Sec-WebSocket-Key", "dGhlIHNhbXBsZSBub25jZQ=="),
    ]);
    assert!(req.is_websocket_upgrade());
    let upgrade = match <WebSocketUpgrade as FromRequest<()>>::from_request(&mut req, &()) {
        Ok(Extract::Done(upgrade)) => upgrade,
        _ => panic!("the upgrade request was refused"),
    };
    assert_eq!(upgrade.key(), "dGhlIHNhbXBsZSBub25jZQ==");
    let res = upgrade.upgrade("s3pPLMBiTxaQ9kYGzzhZRbK+xOo=");
    assert_eq!(res.status_code(), 101);
    assert_eq!(
        res.headers(),
        &vec![
            ("Upgrade".to_string(), "websocket".to_string()),
            ("Connection".to_string(), "Upgrade".to_string()),
            ("Sec-WebSocket-Accept".to_string(), "s3pPLMBiTxaQ9kYGzzhZRbK+xOo=".to_string()),
        ]
    );
    assert!(res.body().is_empty());
}

#[test]
fn request_without_upgrade_headers_is_refused() {
    for pairs in [
        &[("Sec-WebSocket-Key", "abc")][..],
        &[("Upgrade", "websocket"), ("Sec-WebSocket-Key", "abc")][..],
        &[("Upgrade", "h2c"), ("Connection", "Upgrade"), ("Sec-WebSocket-Key", "abc")][..],
        &[("Upgrade", "websocket"), ("Connection", "close"), ("Sec-WebSocket-Key", "abc")][..],
    ] {
        let mut req = upgrade_request(pairs);
        assert!(!req.is_websocket_upgrade());
        match <WebSocketUpgrade as FromRequest<()>>::from_request(&mut req, &()) {
            Err(e) => assert_eq!(e, Error::Custom("Not a WebSocket upgrade request".to_string())),
            Ok(_) => panic!("a request without the upgrade headers was accepted"),
        }
    }
}

#[test]
fn upgrade_request_without_key_is_refused() {
    let mut req = upgrade_request(&[("Upgrade", "websocket"), ("Connection", "Upgrade")]);
    match <WebSocketUpgrade as FromRequest<()>>::from_request(&mut req, &()) {
        Err(e) => assert_eq!(e, Error::Custom("Missing Sec-WebSocket-Key header".to_string())),
        Ok(_) => panic!("an upgrade request without a key was accepted"),
    }
}
