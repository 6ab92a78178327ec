//! The framing codec of the upgraded connection.
//!
//! A frame is one byte of fin bit and opcode, one byte of mask bit and a
//! 7-bit length, an optional 2 or 8 byte big-endian length, an optional 4-byte
//! mask key, and the payload. Frames written here are never masked and never
//! fragmented.

use vstd::prelude::*;
use bytes::BytesMut;
use vstd::utf8::{decode_utf8, valid_utf8};
use crate::buffer::{buffer_advance, buffer_byte, buffer_copy_range, buffer_len, buffered};
use crate::error::{Error, ErrorView};
use crate::text::{decimal, lossy_text, push_decimal, text_from_utf8, text_from_utf8_lossy};
use crate::websocket::{CloseFrame, CloseFrameView, Message, MessageView};

verus! {

/// The number that a run of bytes spells, most significant byte first.
pub open spec fn be_value(bytes: Seq<u8>) -> nat
    decreases bytes.len(),
{
    if bytes.len() == 0 {
        0
    } else {
        be_value(bytes.drop_last()) * 256 + bytes.last() as nat
    }
}

/// The `width` low-order base-256 digits of `value`, most significant first.
pub open spec fn be_bytes(value: nat, width: nat) -> Seq<u8>
    decreases width,
{
    if width == 0 {
        Seq::empty()
    } else {
        be_bytes(value / 256, (width - 1) as nat).push((value % 256) as u8)
    }
}

/// 256 to the power `width`: how many values `width` bytes can spell.
pub open spec fn radix_pow(width: nat) -> nat
    decreases width,
{
    if width == 0 {
        1
    } else {
        256 * radix_pow((width - 1) as nat)
    }
}

/// A big-endian field has exactly the width asked for.
pub proof fn lemma_be_bytes_len(value: nat, width: nat)
    ensures
        be_bytes(value, width).len() == width,
    decreases width,
{
    if width > 0 {
        lemma_be_bytes_len(value / 256, (width - 1) as nat);
    }
}

/// A run of bytes spells a number below 256 to the power of its length.
pub proof fn lemma_be_value_bound(bytes: Seq<u8>)
    ensures
        be_value(bytes) < radix_pow(bytes.len()),
    decreases bytes.len(),
{
    if bytes.len() > 0 {
        lemma_be_value_bound(bytes.drop_last());
    }
}

/// Reading back a field gives the number written, when the number fits.
pub proof fn lemma_be_value_of_bytes(value: nat, width: nat)
    requires
        value < radix_pow(width),
    ensures
        be_value(be_bytes(value, width)) == value,
    decreases width,
{
    if width > 0 {
        let rest = be_bytes(value / 256, (width - 1) as nat);
        lemma_be_value_of_bytes(value / 256, (width - 1) as nat);
        assert(be_bytes(value, width).drop_last() =~= rest);
    }
}

/// Two and eight bytes spell the numbers below 2^16 and 2^64.
pub proof fn lemma_radix_pow_values()
    ensures
        radix_pow(0) == 1,
        radix_pow(1) == 0x100,
        radix_pow(2) == 0x1_0000,
        radix_pow(8) == 0x1_0000_0000_0000_0000,
{
    reveal_with_fuel(radix_pow, 9);
}

/// More bytes spell more numbers.
pub proof fn lemma_radix_pow_monotonic(a: nat, b: nat)
    requires
        a <= b,
    ensures
        radix_pow(a) <= radix_pow(b),
    decreases b,
{
    if a < b {
        lemma_radix_pow_monotonic(a, (b - 1) as nat);
    }
}

/// Appends `value` as a big-endian field of `width` bytes.
pub fn push_be(out: &mut Vec<u8>, value: u64, width: u8)
    ensures
        final(out)@ == old(out)@ + be_bytes(value as nat, width as nat),
    decreases width,
{
    if width > 0 {
        push_be(out, value / 256, width - 1);
        out.push((value % 256) as u8);
        assert(final(out)@ =~= old(out)@ + be_bytes(value as nat, width as nat));
    } else {
        assert(out@ =~= old(out)@ + be_bytes(value as nat, width as nat));
    }
}

/// Reads the big-endian field of `width` bytes that starts at `start`.
pub fn read_be(buffer: &BytesMut, start: usize, width: usize) -> (value: u64)
    requires
        width <= 8,
        start + width <= buffered(*buffer).len(),
    ensures
        value == be_value(buffered(*buffer).subrange(start as int, start + width)),
{
    let held: usize = buffer_len(buffer);
    let mut value: u64 = 0;
    let mut i: usize = 0;
    while i < width
        invariant
            i <= width <= 8,
            start + width <= buffered(*buffer).len() == held,
            value == be_value(buffered(*buffer).subrange(start as int, start + i)),
        decreases width - i,
    {
        let b: u8 = buffer_byte(buffer, start + i);
        proof {
            let ghost all = buffered(*buffer);
            let ghost before = all.subrange(start as int, start + i);
            let ghost after = all.subrange(start as int, start + i + 1);
            assert(after.drop_last() =~= before);
            assert(after.last() == b);
            lemma_be_value_bound(before);
            lemma_be_value_bound(after);
            lemma_radix_pow_monotonic((i + 1) as nat, 8);
            lemma_radix_pow_values();
        }
        value = value * 256 + b as u64;
        i = i + 1;
    }
    value
}

/// Appends a copy of `data`.
pub fn push_bytes(out: &mut Vec<u8>, data: &[u8])
    ensures
        final(out)@ == old(out)@ + data@,
{
    let mut i: usize = 0;
    while i < data.len()
        invariant
            i <= data@.len(),
            out@ == old(out)@ + data@.subrange(0, i as int),
        decreases data@.len() - i,
    {
        out.push(data[i]);
        i = i + 1;
        assert(out@ =~= old(out)@ + data@.subrange(0, i as int));
    }
    assert(data@.subrange(0, i as int) =~= data@);
}

/// The bytes in front of a frame's payload: fin bit and opcode, then the
/// payload length in the shortest of the three forms.
pub open spec fn frame_header(opcode: u8, len: nat) -> Seq<u8> {
    if len < 126 {
        seq![0x80u8 | opcode, len as u8]
    } else if len < 65536 {
        seq![0x80u8 | opcode, 126u8] + be_bytes(len, 2)
    } else {
        seq![0x80u8 | opcode, 127u8] + be_bytes(len, 8)
    }
}

/// The frame that carries a message: its header, then its payload, unmasked.
pub open spec fn spec_encode(message: MessageView) -> Seq<u8> {
    frame_header(message.opcode(), message.payload().len()) + message.payload()
}

/// The payload bytes of a message.
pub fn payload_of(message: &Message) -> (payload: Vec<u8>)
    ensures
        payload@ == message@.payload(),
{
    let mut payload: Vec<u8> = Vec::new();
    match message {
        Message::Text(text) => {
            push_bytes(&mut payload, text.as_str().as_bytes());
        },
        Message::Binary(data) => {
            push_bytes(&mut payload, data.as_slice());
        },
        Message::Ping(data) => {
            push_bytes(&mut payload, data.as_slice());
        },
        Message::Pong(data) => {
            push_bytes(&mut payload, data.as_slice());
        },
        Message::Close(frame) => {
            if let Some(f) = frame {
                payload.push((f.code / 256) as u8);
                payload.push((f.code % 256) as u8);
                push_bytes(&mut payload, f.reason.as_str().as_bytes());
            }
        },
    }
    assert(payload@ =~= message@.payload());
    payload
}

/// The opcode that a message travels under.
pub fn opcode_of(message: &Message) -> (opcode: u8)
    ensures
        opcode == message@.opcode(),
{
    match message {
        Message::Text(_) => 0x1,
        Message::Binary(_) => 0x2,
        Message::Close(_) => 0x8,
        Message::Ping(_) => 0x9,
        Message::Pong(_) => 0xA,
    }
}

/// Encodes a message as one unmasked, final frame. Every message can be
/// encoded.
pub fn encode_frame(message: &Message) -> (res: Result<Vec<u8>, Error>)
    ensures
        res matches Ok(frame) && frame@ == spec_encode(message@),
{
    let opcode: u8 = opcode_of(message);
    let payload: Vec<u8> = payload_of(message);
    let payload_len: usize = payload.len();
    let mut frame: Vec<u8> = Vec::new();
    frame.push(0x80u8 | opcode);
    if payload_len < 126 {
        frame.push(payload_len as u8);
    } else if payload_len < 65536 {
        frame.push(126);
        push_be(&mut frame, payload_len as u64, 2);
    } else {
        frame.push(127);
        push_be(&mut frame, payload_len as u64, 8);
    }
    assert(frame@ =~= frame_header(opcode, payload_len as nat));
    push_bytes(&mut frame, payload.as_slice());
    Ok(frame)
}

/// What the first bytes of a frame declare about it.
pub struct FrameHead {
    /// The low four bits of the first byte.
    pub opcode: u8,
    /// Whether a mask key follows the length.
    pub masked: bool,
    /// The declared length of the payload.
    pub payload_len: nat,
    /// The number of bytes up to and including the length field.
    pub prefix_len: nat,
}

impl FrameHead {
    /// Where the payload starts: after the length and, if there is one, the
    /// mask key.
    pub open spec fn payload_start(self) -> nat {
        if self.masked {
            self.prefix_len + 4
        } else {
            self.prefix_len
        }
    }

    /// The length of the whole frame.
    pub open spec fn frame_len(self) -> nat {
        self.payload_start() + self.payload_len
    }
}

/// Reads the head of the frame that `bytes` starts with, or nothing while
/// the length field is not complete.
pub open spec fn spec_head(bytes: Seq<u8>) -> Option<FrameHead> {
    if bytes.len() < 2 {
        None
    } else {
        let opcode = bytes[0] & 0x0F;
        let masked = bytes[1] & 0x80 != 0;
        let short = bytes[1] & 0x7F;
        if short == 126 {
            if bytes.len() < 4 {
                None
            } else {
                Some(
                    FrameHead {
                        opcode,
                        masked,
                        payload_len: be_value(bytes.subrange(2, 4)),
                        prefix_len: 4,
                    },
                )
            }
        } else if short == 127 {
            if bytes.len() < 10 {
                None
            } else {
                Some(
                    FrameHead {
                        opcode,
                        masked,
                        payload_len: be_value(bytes.subrange(2, 10)),
                        prefix_len: 10,
                    },
                )
            }
        } else {
            Some(FrameHead { opcode, masked, payload_len: short as nat, prefix_len: 2 })
        }
    }
}

/// Exclusive-or of each payload byte with the key byte at its index modulo 4.
/// Masking and unmasking are this same operation.
pub open spec fn apply_mask(payload: Seq<u8>, key: Seq<u8>) -> Seq<u8>
    recommends
        key.len() == 4,
{
    Seq::new(payload.len(), |i: int| payload[i] ^ key[i % 4])
}

/// The payload of the frame with head `head` that `bytes` starts with,
/// unmasked where the frame is masked.
pub open spec fn frame_payload(bytes: Seq<u8>, head: FrameHead) -> Seq<u8> {
    let raw = bytes.subrange(head.payload_start() as int, head.frame_len() as int);
    if head.masked {
        apply_mask(raw, bytes.subrange(head.prefix_len as int, head.prefix_len as int + 4))
    } else {
        raw
    }
}

/// The reason text of a close payload: the text that the bytes encode, with
/// malformed parts replaced.
pub open spec fn reason_text(bytes: Seq<u8>) -> Seq<char> {
    if valid_utf8(bytes) {
        decode_utf8(bytes)
    } else {
        lossy_text(bytes)
    }
}

/// Why a complete frame is not a message.
pub enum FrameFault {
    /// A text frame whose payload is not valid UTF-8.
    InvalidText,
    /// An opcode other than text, binary, close, ping and pong.
    UnknownOpcode(u8),
}

/// The message that an opcode and an unmasked payload stand for. A close
/// payload of two bytes or more holds a big-endian status code and a reason;
/// a shorter one holds neither.
pub open spec fn interpret(opcode: u8, payload: Seq<u8>) -> Result<MessageView, FrameFault> {
    if opcode == 0x1 {
        if valid_utf8(payload) {
            Ok(MessageView::Text(decode_utf8(payload)))
        } else {
            Err(FrameFault::InvalidText)
        }
    } else if opcode == 0x2 {
        Ok(MessageView::Binary(payload))
    } else if opcode == 0x8 {
        if payload.len() >= 2 {
            Ok(
                MessageView::Close(
                    Some(
                        CloseFrameView {
                            code: (payload[0] * 256 + payload[1]) as u16,
                            reason: reason_text(payload.subrange(2, payload.len() as int)),
                        },
                    ),
                ),
            )
        } else {
            Ok(MessageView::Close(None))
        }
    } else if opcode == 0x9 {
        Ok(MessageView::Ping(payload))
    } else if opcode == 0xA {
        Ok(MessageView::Pong(payload))
    } else {
        Err(FrameFault::UnknownOpcode(opcode))
    }
}

/// What decoding makes of the bytes buffered so far.
pub enum Decoded {
    /// Fewer bytes than the frame needs: nothing is consumed.
    Incomplete,
    /// A whole frame of `used` bytes, and what it holds.
    Frame { used: nat, outcome: Result<MessageView, FrameFault> },
}

/// Decodes the frame that `bytes` starts with.
pub open spec fn spec_decode(bytes: Seq<u8>) -> Decoded {
    match spec_head(bytes) {
        None => Decoded::Incomplete,
        Some(head) => if bytes.len() < head.frame_len() {
            Decoded::Incomplete
        } else {
            Decoded::Frame {
                used: head.frame_len(),
                outcome: interpret(head.opcode, frame_payload(bytes, head)),
            }
        },
    }
}

/// The error that a fault is reported as.
pub open spec fn fault_error(fault: FrameFault) -> ErrorView {
    match fault {
        FrameFault::InvalidText => ErrorView::Custom("Invalid UTF-8 in text frame"@),
        FrameFault::UnknownOpcode(opcode) => ErrorView::Custom(
            "Unknown opcode: "@ + decimal(opcode as nat),
        ),
    }
}

/// Masks or unmasks `payload` with the four bytes of `key`.
pub fn mask_payload(payload: &Vec<u8>, key: &Vec<u8>) -> (out: Vec<u8>)
    requires
        key@.len() == 4,
    ensures
        out@ == apply_mask(payload@, key@),
{
    let mut out: Vec<u8> = Vec::new();
    let mut i: usize = 0;
    while i < payload.len()
        invariant
            i <= payload@.len(),
            key@.len() == 4,
            out@ == apply_mask(payload@, key@).subrange(0, i as int),
        decreases payload@.len() - i,
    {
        out.push(payload[i] ^ key[i % 4]);
        i = i + 1;
        assert(out@ =~= apply_mask(payload@, key@).subrange(0, i as int));
    }
    assert(out@ =~= apply_mask(payload@, key@));
    out
}

/// Turns an opcode and an unmasked payload into a message, or into the error
/// that says why they are none.
pub fn message_of(opcode: u8, payload: Vec<u8>) -> (res: Result<Message, Error>)
    ensures
        match interpret(opcode, payload@) {
            Ok(m) => res matches Ok(message) && message@ == m,
            Err(fault) => res matches Err(e) && e@ == fault_error(fault),
        },
{
    if opcode == 0x1 {
        match text_from_utf8(payload) {
            Some(text) => Ok(Message::Text(text)),
            None => Err(Error::custom("Invalid UTF-8 in text frame")),
        }
    } else if opcode == 0x2 {
        Ok(Message::Binary(payload))
    } else if opcode == 0x8 {
        if payload.len() >= 2 {
            let code: u16 = payload[0] as u16 * 256 + payload[1] as u16;
            let rest = vstd::slice::slice_subrange(payload.as_slice(), 2, payload.len());
            let reason = text_from_utf8_lossy(rest);
            Ok(Message::Close(Some(CloseFrame { code, reason })))
        } else {
            Ok(Message::Close(None))
        }
    } else if opcode == 0x9 {
        Ok(Message::Ping(payload))
    } else if opcode == 0xA {
        Ok(Message::Pong(payload))
    } else {
        let mut text = "Unknown opcode: ".to_owned();
        push_decimal(&mut text, opcode as u64);
        Err(Error::Custom(text))
    }
}

/// Decodes one frame from the front of `buffer`.
///
/// While the buffer holds less than a whole frame, the result is `Ok(None)`
/// and the buffer is left as it was. Otherwise the frame is taken off the
/// buffer, whether or not it holds a message, and the result is the message
/// or the error that says why it holds none.
pub fn decode_frame(buffer: &mut BytesMut) -> (res: Result<Option<Message>, Error>)
    ensures
        match spec_decode(buffered(*old(buffer))) {
            Decoded::Incomplete => {
                &&& res matches Ok(None)
                &&& buffered(*final(buffer)) == buffered(*old(buffer))
            },
            Decoded::Frame { used, outcome } => {
                &&& buffered(*final(buffer)) == buffered(*old(buffer)).subrange(
                    used as int,
                    buffered(*old(buffer)).len() as int,
                )
                &&& match outcome {
                    Ok(m) => res matches Ok(Some(message)) && message@ == m,
                    Err(fault) => res matches Err(e) && e@ == fault_error(fault),
                }
            },
        },
{
    let held: usize = buffer_len(buffer);
    if held < 2 {
        return Ok(None);
    }
    let first: u8 = buffer_byte(buffer, 0);
    let second: u8 = buffer_byte(buffer, 1);
    let opcode: u8 = first & 0x0F;
    let masked: bool = (second & 0x80) != 0;
    let short: u8 = second & 0x7F;
    let mut declared: u64 = short as u64;
    let mut prefix_len: usize = 2;
    if short == 126 {
        if held < 4 {
            return Ok(None);
        }
        declared = read_be(buffer, 2, 2);
        prefix_len = 4;
    } else if short == 127 {
        if held < 10 {
            return Ok(None);
        }
        declared = read_be(buffer, 2, 8);
        prefix_len = 10;
    }
    let payload_start: usize = if masked {
        prefix_len + 4
    } else {
        prefix_len
    };
    if held < payload_start {
        return Ok(None);
    }
    if declared > (held - payload_start) as u64 {
        return Ok(None);
    }
    let payload_len: usize = declared as usize;
    let frame_len: usize = payload_start + payload_len;
    let raw: Vec<u8> = buffer_copy_range(buffer, payload_start, frame_len);
    let payload: Vec<u8> = if masked {
        let key: Vec<u8> = buffer_copy_range(buffer, prefix_len, prefix_len + 4);
        mask_payload(&raw, &key)
    } else {
        raw
    };
    buffer_advance(buffer, frame_len);
    match message_of(opcode, payload) {
        Ok(message) => Ok(Some(message)),
        Err(e) => Err(e),
    }
}

} // verus!
