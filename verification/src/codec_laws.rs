//! Laws of the framing codec: what is encoded decodes to itself, masked or
//! not.

use vstd::prelude::*;
use vstd::utf8::{encode_utf8_decode_utf8, encode_utf8_valid_utf8};
use crate::frame::{
    apply_mask, be_bytes, be_value, frame_header, frame_payload, interpret, lemma_be_bytes_len,
    lemma_be_value_of_bytes, lemma_radix_pow_values, spec_decode, spec_encode, spec_head, Decoded,
    FrameFault, FrameHead,
};
use crate::websocket::MessageView;

verus! {

/// The header of a masked frame: as the unmasked one, with the mask bit set
/// in the second byte.
pub open spec fn masked_header(opcode: u8, len: nat) -> Seq<u8> {
    if len < 126 {
        seq![0x80u8 | opcode, 0x80u8 | (len as u8)]
    } else if len < 65536 {
        seq![0x80u8 | opcode, 0xFEu8] + be_bytes(len, 2)
    } else {
        seq![0x80u8 | opcode, 0xFFu8] + be_bytes(len, 8)
    }
}

/// The masked frame that carries a message under the 4-byte key `key`, as a
/// client sends it.
pub open spec fn spec_encode_masked(message: MessageView, key: Seq<u8>) -> Seq<u8> {
    masked_header(message.opcode(), message.payload().len()) + key + apply_mask(
        message.payload(),
        key,
    )
}

/// Masking twice with one key gives the payload back.
pub proof fn lemma_mask_involution(payload: Seq<u8>, key: Seq<u8>)
    requires
        key.len() == 4,
    ensures
        apply_mask(apply_mask(payload, key), key) == payload,
{
    assert forall|i: int| 0 <= i < payload.len() implies apply_mask(
        apply_mask(payload, key),
        key,
    )[i] == payload[i] by {
        let a = payload[i];
        let k = key[i % 4];
        assert((a ^ k) ^ k == a) by (bit_vector);
    }
    assert(apply_mask(apply_mask(payload, key), key) =~= payload);
}

/// The head that is read back from an unmasked header.
proof fn lemma_head_unmasked(opcode: u8, len: nat, tail: Seq<u8>)
    requires
        opcode < 16,
        len <= u64::MAX,
    ensures
        spec_head(frame_header(opcode, len) + tail) == Some(
            FrameHead {
                opcode,
                masked: false,
                payload_len: len,
                prefix_len: frame_header(opcode, len).len(),
            },
        ),
        frame_header(opcode, len).len() == if len < 126 {
            2nat
        } else if len < 65536 {
            4nat
        } else {
            10nat
        },
{
    let header = frame_header(opcode, len);
    let bytes = header + tail;
    lemma_radix_pow_values();
    assert((0x80u8 | opcode) & 0x0F == opcode) by (bit_vector)
        requires
            opcode < 16,
    ;
    if len < 126 {
        let n = len as u8;
        assert(n & 0x7F == n && n & 0x80 == 0) by (bit_vector)
            requires
                n < 126,
        ;
        assert(bytes[0] == 0x80u8 | opcode);
        assert(bytes[1] == n);
    } else if len < 65536 {
        lemma_be_bytes_len(len, 2);
        lemma_be_value_of_bytes(len, 2);
        assert(126u8 & 0x7F == 126 && 126u8 & 0x80 == 0) by (bit_vector);
        assert(bytes[0] == 0x80u8 | opcode);
        assert(bytes[1] == 126u8);
        assert(bytes.subrange(2, 4) =~= be_bytes(len, 2));
    } else {
        lemma_be_bytes_len(len, 8);
        lemma_be_value_of_bytes(len, 8);
        assert(127u8 & 0x7F == 127 && 127u8 & 0x80 == 0) by (bit_vector);
        assert(bytes[0] == 0x80u8 | opcode);
        assert(bytes[1] == 127u8);
        assert(bytes.subrange(2, 10) =~= be_bytes(len, 8));
    }
}

/// The head that is read back from a masked header.
proof fn lemma_head_masked(opcode: u8, len: nat, tail: Seq<u8>)
    requires
        opcode < 16,
        len <= u64::MAX,
    ensures
        spec_head(masked_header(opcode, len) + tail) == Some(
            FrameHead {
                opcode,
                masked: true,
                payload_len: len,
                prefix_len: masked_header(opcode, len).len(),
            },
        ),
        masked_header(opcode, len).len() == if len < 126 {
            2nat
        } else if len < 65536 {
            4nat
        } else {
            10nat
        },
{
    let header = masked_header(opcode, len);
    let bytes = header + tail;
    lemma_radix_pow_values();
    assert((0x80u8 | opcode) & 0x0F == opcode) by (bit_vector)
        requires
            opcode < 16,
    ;
    if len < 126 {
        let n = len as u8;
        assert((0x80u8 | n) & 0x7F == n && (0x80u8 | n) & 0x80 != 0) by (bit_vector)
            requires
                n < 126,
        ;
        assert(bytes[0] == 0x80u8 | opcode);
        assert(bytes[1] == 0x80u8 | n);
    } else if len < 65536 {
        lemma_be_bytes_len(len, 2);
        lemma_be_value_of_bytes(len, 2);
        assert(0xFEu8 & 0x7F == 126 && 0xFEu8 & 0x80 != 0) by (bit_vector);
        assert(bytes[0] == 0x80u8 | opcode);
        assert(bytes[1] == 0xFEu8);
        assert(bytes.subrange(2, 4) =~= be_bytes(len, 2));
    } else {
        lemma_be_bytes_len(len, 8);
        lemma_be_value_of_bytes(len, 8);
        assert(0xFFu8 & 0x7F == 127 && 0xFFu8 & 0x80 != 0) by (bit_vector);
        assert(bytes[0] == 0x80u8 | opcode);
        assert(bytes[1] == 0xFFu8);
        assert(bytes.subrange(2, 10) =~= be_bytes(len, 8));
    }
}

/// A message's own opcode and payload are read back as that message.
pub proof fn lemma_interpret_own_payload(message: MessageView)
    ensures
        interpret(message.opcode(), message.payload()) == Ok::<MessageView, FrameFault>(message),
        message.opcode() < 16,
{
    match message {
        MessageView::Text(text) => {
            encode_utf8_valid_utf8(text);
            encode_utf8_decode_utf8(text);
        },
        MessageView::Close(Some(f)) => {
            let payload = message.payload();
            encode_utf8_valid_utf8(f.reason);
            encode_utf8_decode_utf8(f.reason);
            assert(payload.subrange(2, payload.len() as int) =~= vstd::utf8::encode_utf8(f.reason));
            assert(payload[0] == (f.code / 256) as u8);
            assert(payload[1] == (f.code % 256) as u8);
        },
        _ => {},
    }
}

/// Round trip. Decoding the frame that a message was encoded as gives the
/// message back and uses up exactly that frame, whatever follows it in the
/// buffer. This holds of every variant, of the empty payload, and of each of
/// the three forms of the length field.
pub proof fn lemma_decode_encode(message: MessageView, rest: Seq<u8>)
    requires
        message.payload().len() <= u64::MAX,
    ensures
        spec_decode(spec_encode(message) + rest) == (Decoded::Frame {
            used: spec_encode(message).len(),
            outcome: Ok(message),
        }),
{
    let opcode = message.opcode();
    let payload = message.payload();
    let header = frame_header(opcode, payload.len());
    let bytes = spec_encode(message) + rest;
    lemma_interpret_own_payload(message);
    lemma_head_unmasked(opcode, payload.len(), payload + rest);
    assert(bytes =~= header + (payload + rest));
    let head = spec_head(bytes)->0;
    assert(bytes.subrange(head.payload_start() as int, head.frame_len() as int) =~= payload);
    assert(frame_payload(bytes, head) == payload);
}

/// Masking. Decoding a masked frame gives the message whose payload was
/// masked: the payload is unmasked with the frame's key before it is read.
pub proof fn lemma_decode_masked(message: MessageView, key: Seq<u8>, rest: Seq<u8>)
    requires
        key.len() == 4,
        message.payload().len() <= u64::MAX,
    ensures
        spec_decode(spec_encode_masked(message, key) + rest) == (Decoded::Frame {
            used: spec_encode_masked(message, key).len(),
            outcome: Ok(message),
        }),
{
    let opcode = message.opcode();
    let payload = message.payload();
    let masked = apply_mask(payload, key);
    let header = masked_header(opcode, payload.len());
    let bytes = spec_encode_masked(message, key) + rest;
    lemma_interpret_own_payload(message);
    lemma_head_masked(opcode, payload.len(), key + masked + rest);
    assert(bytes =~= header + (key + masked + rest));
    let head = spec_head(bytes)->0;
    assert(bytes.subrange(head.prefix_len as int, head.prefix_len as int + 4) =~= key);
    assert(bytes.subrange(head.payload_start() as int, head.frame_len() as int) =~= masked);
    lemma_mask_involution(payload, key);
    assert(frame_payload(bytes, head) == payload);
}

/// No mask, no change. The payload of a frame whose mask bit is clear is the
/// bytes that follow its length field, as they are.
pub proof fn lemma_unmasked_payload_is_raw(bytes: Seq<u8>, head: FrameHead)
    requires
        !head.masked,
    ensures
        frame_payload(bytes, head) == bytes.subrange(
            head.prefix_len as int,
            (head.prefix_len + head.payload_len) as int,
        ),
{
}

} // verus!
