//! The fixed-width packet: a two-byte sync header, a message code, a
//! zero-padded payload and a two-byte checksum trailer.
//!
//! | offset | field        |
//! |--------|--------------|
//! | 0..2   | sync header  |
//! | 2      | message code |
//! | 3..38  | payload      |
//! | 38..40 | checksum, little-endian, over bytes 0..38 |
//!
//! The checksum is the sum of the bytes before it, kept to sixteen bits.

use crate::wire::{push_u16, read_u16, u16_le, u16_of_le};
use vstd::prelude::*;
use vstd::slice::slice_subrange;

verus! {

/// First byte of the sync header.
pub const SYNC_FIRST: u8 = 0x90;

/// Second byte of the sync header.
pub const SYNC_SECOND: u8 = 0xEB;

/// Width of every packet on the line.
pub const PACKET_LEN: usize = 40;

/// Width of the part that the checksum covers: header, code and payload.
pub const BODY_LEN: usize = 38;

/// Width of the payload.
pub const PAYLOAD_LEN: usize = 35;

/// Offset of the first payload byte.
pub const PAYLOAD_START: usize = 3;

/// The sum of all bytes of a sequence.
pub open spec fn byte_sum(bytes: Seq<u8>) -> int
    decreases bytes.len(),
{
    if bytes.len() == 0 {
        0
    } else {
        byte_sum(bytes.drop_last()) + bytes.last()
    }
}

/// The checksum of a sequence of bytes: their sum, kept to sixteen bits.
pub open spec fn checksum_of(bytes: Seq<u8>) -> u16 {
    (byte_sum(bytes) % 65536) as u16
}

/// The sum of a sequence grows by the byte that is appended.
pub proof fn lemma_byte_sum_push(bytes: Seq<u8>, byte: u8)
    ensures
        byte_sum(bytes.push(byte)) == byte_sum(bytes) + byte,
{
    assert(bytes.push(byte).drop_last() =~= bytes);
}

/// Replacing one byte changes the sum by the difference of the two bytes.
pub proof fn lemma_byte_sum_update(bytes: Seq<u8>, at: int, byte: u8)
    requires
        0 <= at < bytes.len(),
    ensures
        byte_sum(bytes.update(at, byte)) == byte_sum(bytes) - bytes[at] + byte,
    decreases bytes.len(),
{
    let changed = bytes.update(at, byte);
    if at == bytes.len() - 1 {
        assert(changed.drop_last() =~= bytes.drop_last());
    } else {
        lemma_byte_sum_update(bytes.drop_last(), at, byte);
        assert(changed.drop_last() =~= bytes.drop_last().update(at, byte));
    }
}

/// Computes the checksum of `bytes`.
pub fn checksum(bytes: &[u8]) -> (sum: u16)
    ensures
        sum == checksum_of(bytes@),
{
    let mut acc: u32 = 0;
    let mut i: usize = 0;
    while i < bytes.len()
        invariant
            i <= bytes.len(),
            acc < 65536,
            acc == byte_sum(bytes@.subrange(0, i as int)) % 65536,
        decreases bytes.len() - i,
    {
        proof {
            let before = bytes@.subrange(0, i as int);
            lemma_byte_sum_push(before, bytes@[i as int]);
            assert(before.push(bytes@[i as int]) =~= bytes@.subrange(0, i + 1));
        }
        acc = (acc + bytes[i] as u32) % 65536;
        i = i + 1;
    }
    assert(bytes@.subrange(0, i as int) =~= bytes@);
    acc as u16
}

/// A packet that passed validation: its message code and its payload.
#[derive(Debug, Clone, Copy, PartialEq, Eq)]
pub struct Frame {
    /// Message code.
    pub code: u8,
    /// Payload, zero-padded to the fixed width.
    pub payload: [u8; 35],
}

/// Why a run of bytes is not a packet.
#[derive(Debug, Clone, Copy, PartialEq, Eq, Structural)]
pub enum FrameError {
    /// The run is not exactly one packet wide.
    WrongLength,
    /// The first two bytes are not the sync header.
    BadHeader,
    /// The trailer is not the checksum of the bytes before it.
    ChecksumMismatch,
}

/// The part of a packet that the checksum covers.
pub open spec fn body_of(code: u8, payload: Seq<u8>) -> Seq<u8> {
    seq![SYNC_FIRST, SYNC_SECOND, code] + payload
}

/// The packet that carries `code` and `payload`.
pub open spec fn packet_of(code: u8, payload: Seq<u8>) -> Seq<u8> {
    body_of(code, payload) + u16_le(checksum_of(body_of(code, payload)))
}

/// The first reason, if any, for which `bytes` is not a packet: the width is
/// checked first, then the sync header, then the checksum.
pub open spec fn rejection(bytes: Seq<u8>) -> Option<FrameError> {
    if bytes.len() != PACKET_LEN {
        Some(FrameError::WrongLength)
    } else if bytes[0] != SYNC_FIRST || bytes[1] != SYNC_SECOND {
        Some(FrameError::BadHeader)
    } else if u16_of_le(bytes.subrange(BODY_LEN as int, PACKET_LEN as int)) != checksum_of(
        bytes.subrange(0, BODY_LEN as int),
    ) {
        Some(FrameError::ChecksumMismatch)
    } else {
        None
    }
}

impl Frame {
    /// The bytes of this frame on the line.
    pub open spec fn wire(self) -> Seq<u8> {
        packet_of(self.code, self.payload@)
    }

    /// Lays the frame out as a packet.
    pub fn encode(&self) -> (packet: Vec<u8>)
        ensures
            packet@ == self.wire(),
    {
        let mut packet: Vec<u8> = Vec::new();
        packet.push(SYNC_FIRST);
        packet.push(SYNC_SECOND);
        packet.push(self.code);
        let mut i: usize = 0;
        while i < PAYLOAD_LEN
            invariant
                i <= PAYLOAD_LEN,
                packet@ == seq![SYNC_FIRST, SYNC_SECOND, self.code] + self.payload@.subrange(
                    0,
                    i as int,
                ),
            decreases PAYLOAD_LEN - i,
        {
            packet.push(self.payload[i]);
            i = i + 1;
        }
        assert(self.payload@.subrange(0, PAYLOAD_LEN as int) =~= self.payload@);
        let sum: u16 = checksum(packet.as_slice());
        push_u16(&mut packet, sum);
        packet
    }
}

/// Validates `bytes` as one packet and takes it apart.
///
/// Nothing is parsed from a run of bytes that fails any of the three checks.
pub fn decode(bytes: &[u8]) -> (result: Result<Frame, FrameError>)
    ensures
        match result {
            Ok(frame) => rejection(bytes@) is None && frame.wire() == bytes@,
            Err(error) => rejection(bytes@) == Some(error),
        },
{
    if bytes.len() != PACKET_LEN {
        return Err(FrameError::WrongLength);
    }
    if bytes[0] != SYNC_FIRST || bytes[1] != SYNC_SECOND {
        return Err(FrameError::BadHeader);
    }
    let expected: u16 = checksum(slice_subrange(bytes, 0, BODY_LEN));
    let found: u16 = read_u16(bytes, BODY_LEN);
    if found != expected {
        return Err(FrameError::ChecksumMismatch);
    }
    let mut payload: [u8; 35] = [0u8; 35];
    let mut i: usize = 0;
    while i < PAYLOAD_LEN
        invariant
            i <= PAYLOAD_LEN,
            bytes.len() == PACKET_LEN,
            forall|k: int| 0 <= k < i ==> payload@[k] == bytes@[PAYLOAD_START + k],
        decreases PAYLOAD_LEN - i,
    {
        payload[i] = bytes[PAYLOAD_START + i];
        i = i + 1;
    }
    let frame = Frame { code: bytes[2], payload };
    proof {
        let body = bytes@.subrange(0, BODY_LEN as int);
        let trailer = bytes@.subrange(BODY_LEN as int, PACKET_LEN as int);
        assert(body_of(frame.code, frame.payload@) =~= body);
        crate::wire::lemma_u16_le_inverse(0, trailer);
        assert(frame.wire() =~= bytes@);
    }
    Ok(frame)
}

/// The packet built around a code and a payload of the fixed width passes
/// validation and shows both at their offsets.
pub proof fn lemma_packet_accepted(code: u8, payload: Seq<u8>)
    requires
        payload.len() == PAYLOAD_LEN,
    ensures
        packet_of(code, payload).len() == PACKET_LEN,
        rejection(packet_of(code, payload)) is None,
        packet_of(code, payload)[2] == code,
        packet_of(code, payload).subrange(PAYLOAD_START as int, BODY_LEN as int) == payload,
{
    let body = body_of(code, payload);
    let packet = packet_of(code, payload);
    crate::wire::lemma_u16_le_inverse(checksum_of(body), seq![0u8, 0u8]);
    assert(packet.subrange(0, BODY_LEN as int) =~= body);
    assert(packet.subrange(BODY_LEN as int, PACKET_LEN as int) =~= u16_le(checksum_of(body)));
    assert(packet.subrange(PAYLOAD_START as int, BODY_LEN as int) =~= payload);
}

/// A frame that was laid out passes validation, and its packet shows the
/// frame's code and payload at their offsets: taking the packet apart gives
/// the frame back.
pub proof fn lemma_wire_accepted(frame: Frame)
    ensures
        frame.wire().len() == PACKET_LEN,
        rejection(frame.wire()) is None,
        frame.wire()[2] == frame.code,
        frame.wire().subrange(PAYLOAD_START as int, BODY_LEN as int) == frame.payload@,
{
    lemma_packet_accepted(frame.code, frame.payload@);
}

/// Two frames with the same packet are the same frame.
pub proof fn lemma_wire_injective(a: Frame, b: Frame)
    requires
        a.wire() == b.wire(),
    ensures
        a == b,
{
    lemma_wire_accepted(a);
    lemma_wire_accepted(b);
    assert(a.payload@ == b.payload@);
    assert(a.payload =~= b.payload);
}

/// The byte that differs from `byte` in the one bit numbered `bit`.
pub open spec fn flip_bit(byte: u8, bit: u8) -> u8 {
    byte ^ (1u8 << bit)
}

/// A packet that passes validation stops passing when any single bit before
/// its checksum trailer is flipped. A flip inside the sync header is reported
/// as a bad header, a flip in the code or the payload as a checksum mismatch.
pub proof fn lemma_bit_flip_rejected(packet: Seq<u8>, at: int, bit: u8)
    requires
        rejection(packet) is None,
        0 <= at < BODY_LEN,
        bit < 8,
    ensures
        rejection(packet.update(at, flip_bit(packet[at], bit))) == Some(
            if at < 2 {
                FrameError::BadHeader
            } else {
                FrameError::ChecksumMismatch
            },
        ),
{
    let byte = packet[at];
    let flipped = flip_bit(byte, bit);
    assert(byte ^ (1u8 << bit) != byte) by (bit_vector)
        requires
            bit < 8,
    ;
    let damaged = packet.update(at, flipped);
    if at >= 2 {
        let body = packet.subrange(0, BODY_LEN as int);
        lemma_byte_sum_update(body, at, flipped);
        assert(damaged.subrange(0, BODY_LEN as int) =~= body.update(at, flipped));
        assert(damaged.subrange(BODY_LEN as int, PACKET_LEN as int) =~= packet.subrange(
            BODY_LEN as int,
            PACKET_LEN as int,
        ));
        let before = byte_sum(body);
        let after = byte_sum(body.update(at, flipped));
        assert(after == before - byte + flipped);
        assert(before % 65536 != after % 65536);
    }
}

} // verus!
