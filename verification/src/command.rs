//! The command set of the attitude controller and the layout of each
//! command's payload.
//!
//! Every command but the raw passthrough travels in one packet. Its fields
//! are laid out little-endian at the start of the payload, and the rest of
//! the payload is zero. Floating-point fields are carried as their IEEE-754
//! bit patterns.

use crate::packet::{lemma_packet_accepted, packet_of, rejection, Frame, PAYLOAD_LEN};
use crate::wire::{
    i16_le, lemma_i16_le_inverse, lemma_u32_le_inverse, push_i16, push_u32, read_i16, read_u32,
    u32_le,
};
use vstd::prelude::*;

verus! {

/// Message code of the first phase of a reset.
pub const CODE_REQUEST_RESET: u8 = 0x5A;

/// Message code of the second phase of a reset.
pub const CODE_CONFIRM_RESET: u8 = 0xF1;

/// Message code of both mode commands.
pub const CODE_SET_MODE: u8 = 0x00;

/// Message code of the GPS time command.
pub const CODE_SET_GPS_TIME: u8 = 0x44;

/// Message code of the reference vector command.
pub const CODE_SET_REFERENCE_VECTOR: u8 = 0x41;

/// The commands, without their parameters.
#[derive(Debug, Clone, Copy, PartialEq, Eq, Structural)]
pub enum CommandKind {
    /// First phase of a reset.
    RequestReset,
    /// Second phase of a reset.
    ConfirmReset,
    /// Change of the control mode.
    SetMode,
    /// Change to a sun-pointing control mode.
    SetModeSun,
    /// Update of the controller's GPS time.
    SetGpsTime,
    /// Update of the orbit reference vector.
    SetReferenceVector,
    /// Raw bytes, written as they are.
    Passthrough,
}

impl CommandKind {
    /// The message code of the packets of this kind; the passthrough has no
    /// packet and so no code.
    pub open spec fn spec_code(&self) -> Option<u8> {
        match self {
            CommandKind::RequestReset => Some(CODE_REQUEST_RESET),
            CommandKind::ConfirmReset => Some(CODE_CONFIRM_RESET),
            CommandKind::SetMode => Some(CODE_SET_MODE),
            CommandKind::SetModeSun => Some(CODE_SET_MODE),
            CommandKind::SetGpsTime => Some(CODE_SET_GPS_TIME),
            CommandKind::SetReferenceVector => Some(CODE_SET_REFERENCE_VECTOR),
            CommandKind::Passthrough => None,
        }
    }

    /// The message code of the packets of this kind.
    #[verifier::when_used_as_spec(spec_code)]
    pub fn code(&self) -> (code: Option<u8>)
        ensures
            code == self.spec_code(),
    {
        match self {
            CommandKind::RequestReset => Some(CODE_REQUEST_RESET),
            CommandKind::ConfirmReset => Some(CODE_CONFIRM_RESET),
            CommandKind::SetMode => Some(CODE_SET_MODE),
            CommandKind::SetModeSun => Some(CODE_SET_MODE),
            CommandKind::SetGpsTime => Some(CODE_SET_GPS_TIME),
            CommandKind::SetReferenceVector => Some(CODE_SET_REFERENCE_VECTOR),
            CommandKind::Passthrough => None,
        }
    }
}

impl CommandKind {
    /// How many payload bytes the fields of this kind take.
    pub open spec fn spec_fields_len(&self) -> usize {
        match self {
            CommandKind::RequestReset => 0,
            CommandKind::ConfirmReset => 0,
            CommandKind::SetMode => 9,
            CommandKind::SetModeSun => 7,
            CommandKind::SetGpsTime => 4,
            CommandKind::SetReferenceVector => 28,
            CommandKind::Passthrough => 0,
        }
    }

    /// How many payload bytes the fields of this kind take.
    #[verifier::when_used_as_spec(spec_fields_len)]
    pub fn fields_len(&self) -> (len: usize)
        ensures
            len == self.spec_fields_len(),
    {
        match self {
            CommandKind::RequestReset => 0,
            CommandKind::ConfirmReset => 0,
            CommandKind::SetMode => 9,
            CommandKind::SetModeSun => 7,
            CommandKind::SetGpsTime => 4,
            CommandKind::SetReferenceVector => 28,
            CommandKind::Passthrough => 0,
        }
    }
}

/// Whether `code` is the message code of a framed command, and so of the
/// acknowledgement of one: an acknowledgement repeats the code of the
/// command that it answers.
pub open spec fn spec_is_reply_code(code: u8) -> bool {
    code == CODE_REQUEST_RESET || code == CODE_CONFIRM_RESET || code == CODE_SET_MODE || code
        == CODE_SET_GPS_TIME || code == CODE_SET_REFERENCE_VECTOR
}

/// Whether `code` is the message code of a framed command, and so of the
/// acknowledgement of one.
#[verifier::when_used_as_spec(spec_is_reply_code)]
pub fn is_reply_code(code: u8) -> (reply: bool)
    ensures
        reply == spec_is_reply_code(code),
{
    code == CODE_REQUEST_RESET || code == CODE_CONFIRM_RESET || code == CODE_SET_MODE || code
        == CODE_SET_GPS_TIME || code == CODE_SET_REFERENCE_VECTOR
}

/// The reply codes are the codes of the framed commands, no more and no
/// fewer.
pub proof fn lemma_reply_codes(code: u8)
    ensures
        spec_is_reply_code(code) <==> exists|kind: CommandKind| kind.spec_code() == Some(code),
{
    if spec_is_reply_code(code) {
        let kind = if code == CODE_REQUEST_RESET {
            CommandKind::RequestReset
        } else if code == CODE_CONFIRM_RESET {
            CommandKind::ConfirmReset
        } else if code == CODE_SET_MODE {
            CommandKind::SetMode
        } else if code == CODE_SET_GPS_TIME {
            CommandKind::SetGpsTime
        } else {
            CommandKind::SetReferenceVector
        };
        assert(kind.spec_code() == Some(code));
    }
}

/// The passthrough is written as it is: what goes on the line is the
/// caller's bytes, whatever they are, and no reply is awaited for them.
pub proof fn lemma_passthrough_identity(bytes: Vec<u8>)
    ensures
        (Command::Passthrough { bytes }).wire() == bytes@,
        (Command::Passthrough { bytes }).spec_kind().spec_code() is None,
{
}

/// A command for the controller.
#[derive(Debug, Clone, PartialEq, Eq)]
pub enum Command {
    /// First phase of a reset.
    RequestReset,
    /// Second phase of a reset.
    ConfirmReset,
    /// Change of the control mode, with the four parameters of the mode.
    SetMode { mode: u8, params: [i16; 4] },
    /// Change to a sun-pointing mode. `angle` is the bit pattern of the
    /// single-precision rotation angle.
    SetModeSun { mode: u8, sun_flag: i16, angle: u32 },
    /// Update of the controller's GPS time, in seconds.
    SetGpsTime { gps_time: u32 },
    /// Update of the orbit reference vector. Position and velocity hold the
    /// bit patterns of their single-precision components.
    SetReferenceVector { position: [u32; 3], velocity: [u32; 3], gps_time: u32 },
    /// Raw bytes for the controller, written as they are, without a packet
    /// around them.
    Passthrough { bytes: Vec<u8> },
}

/// `count` zero bytes.
pub open spec fn zeros(count: nat) -> Seq<u8> {
    Seq::new(count, |i: int| 0u8)
}

impl Command {
    /// Which command this is.
    pub open spec fn spec_kind(&self) -> CommandKind {
        match self {
            Command::RequestReset => CommandKind::RequestReset,
            Command::ConfirmReset => CommandKind::ConfirmReset,
            Command::SetMode { .. } => CommandKind::SetMode,
            Command::SetModeSun { .. } => CommandKind::SetModeSun,
            Command::SetGpsTime { .. } => CommandKind::SetGpsTime,
            Command::SetReferenceVector { .. } => CommandKind::SetReferenceVector,
            Command::Passthrough { .. } => CommandKind::Passthrough,
        }
    }

    /// Which command this is.
    #[verifier::when_used_as_spec(spec_kind)]
    pub fn kind(&self) -> (kind: CommandKind)
        ensures
            kind == self.spec_kind(),
    {
        match self {
            Command::RequestReset => CommandKind::RequestReset,
            Command::ConfirmReset => CommandKind::ConfirmReset,
            Command::SetMode { .. } => CommandKind::SetMode,
            Command::SetModeSun { .. } => CommandKind::SetModeSun,
            Command::SetGpsTime { .. } => CommandKind::SetGpsTime,
            Command::SetReferenceVector { .. } => CommandKind::SetReferenceVector,
            Command::Passthrough { .. } => CommandKind::Passthrough,
        }
    }

    /// The fields of the command as they lie at the start of the payload.
    /// For the passthrough, which has no payload, this is empty.
    pub open spec fn fields(&self) -> Seq<u8> {
        match self {
            Command::RequestReset => Seq::empty(),
            Command::ConfirmReset => Seq::empty(),
            Command::SetMode { mode, params } => seq![*mode] + i16_le(params[0]) + i16_le(
                params[1],
            ) + i16_le(params[2]) + i16_le(params[3]),
            Command::SetModeSun { mode, sun_flag, angle } => seq![*mode] + i16_le(*sun_flag)
                + u32_le(*angle),
            Command::SetGpsTime { gps_time } => u32_le(*gps_time),
            Command::SetReferenceVector { position, velocity, gps_time } => u32_le(position[0])
                + u32_le(position[1]) + u32_le(position[2]) + u32_le(velocity[0]) + u32_le(
                velocity[1],
            ) + u32_le(velocity[2]) + u32_le(*gps_time),
            Command::Passthrough { .. } => Seq::empty(),
        }
    }

    /// The payload of the command's packet: the fields, then zeros up to the
    /// fixed width.
    pub open spec fn payload(&self) -> Seq<u8> {
        self.fields() + zeros((PAYLOAD_LEN - self.fields().len()) as nat)
    }

    /// The bytes that go on the line for this command: its packet, or, for
    /// the passthrough, the raw bytes and nothing else.
    pub open spec fn wire(&self) -> Seq<u8> {
        match self {
            Command::Passthrough { bytes } => bytes@,
            _ => packet_of(self.spec_kind().spec_code().unwrap(), self.payload()),
        }
    }

    /// The command's fields in payload order.
    fn field_bytes(&self) -> (out: Vec<u8>)
        ensures
            out@ == self.fields(),
            out@.len() <= PAYLOAD_LEN,
    {
        let mut out: Vec<u8> = Vec::new();
        match self {
            Command::RequestReset => {},
            Command::ConfirmReset => {},
            Command::SetMode { mode, params } => {
                out.push(*mode);
                push_i16(&mut out, params[0]);
                push_i16(&mut out, params[1]);
                push_i16(&mut out, params[2]);
                push_i16(&mut out, params[3]);
            },
            Command::SetModeSun { mode, sun_flag, angle } => {
                out.push(*mode);
                push_i16(&mut out, *sun_flag);
                push_u32(&mut out, *angle);
            },
            Command::SetGpsTime { gps_time } => {
                push_u32(&mut out, *gps_time);
            },
            Command::SetReferenceVector { position, velocity, gps_time } => {
                push_u32(&mut out, position[0]);
                push_u32(&mut out, position[1]);
                push_u32(&mut out, position[2]);
                push_u32(&mut out, velocity[0]);
                push_u32(&mut out, velocity[1]);
                push_u32(&mut out, velocity[2]);
                push_u32(&mut out, *gps_time);
            },
            Command::Passthrough { .. } => {},
        }
        assert(out@ =~= self.fields());
        out
    }

    /// The frame that carries this command; the passthrough has none.
    pub fn frame(&self) -> (frame: Option<Frame>)
        ensures
            match frame {
                Some(f) => self.spec_kind().spec_code() == Some(f.code) && f.payload@
                    == self.payload(),
                None => self is Passthrough,
            },
    {
        let code: u8 = match self.kind().code() {
            Some(code) => code,
            None => {
                return None;
            },
        };
        let fields: Vec<u8> = self.field_bytes();
        let mut payload: [u8; 35] = [0u8; 35];
        let mut i: usize = 0;
        while i < fields.len()
            invariant
                i <= fields.len() <= PAYLOAD_LEN,
                forall|k: int| 0 <= k < i ==> payload@[k] == fields@[k],
                forall|k: int| i <= k < PAYLOAD_LEN ==> payload@[k] == 0,
            decreases fields.len() - i,
        {
            payload[i] = fields[i];
            i = i + 1;
        }
        assert(payload@ =~= self.payload());
        Some(Frame { code, payload })
    }
}

/// Lays a command out as the bytes that go on the line.
///
/// The result depends on the command alone. A framed command gives one
/// packet; the passthrough gives its own bytes, with no header and no
/// checksum.
pub fn encode(command: &Command) -> (bytes: Vec<u8>)
    ensures
        bytes@ == command.wire(),
{
    match command.frame() {
        Some(frame) => frame.encode(),
        None => {
            match command {
                Command::Passthrough { bytes } => copy_bytes(bytes),
                _ => Vec::new(),
            }
        },
    }
}

/// A copy of `bytes`.
fn copy_bytes(bytes: &Vec<u8>) -> (copy: Vec<u8>)
    ensures
        copy@ == bytes@,
{
    let mut copy: Vec<u8> = Vec::new();
    let mut i: usize = 0;
    while i < bytes.len()
        invariant
            i <= bytes.len(),
            copy@ == bytes@.subrange(0, i as int),
        decreases bytes.len() - i,
    {
        copy.push(bytes[i]);
        i = i + 1;
    }
    assert(bytes@.subrange(0, i as int) =~= bytes@);
    copy
}

/// What goes on the line for a command depends on nothing but the command:
/// two commands of one kind with the same content give the same bytes.
pub proof fn lemma_wire_by_content(a: Command, b: Command)
    requires
        a.spec_kind() == b.spec_kind(),
        a.fields() == b.fields(),
        a matches Command::Passthrough { bytes: raw_a } ==> (b matches Command::Passthrough {
            bytes: raw_b,
        } && raw_a@ == raw_b@),
    ensures
        a.wire() == b.wire(),
{
}

/// Whether `frame` is the frame of `command`: the code is the command's and
/// the payload is the command's fields followed by zeros.
pub open spec fn carries(frame: Frame, command: Command) -> bool {
    command.spec_kind().spec_code() == Some(frame.code) && command.payload() == frame.payload@
}

/// The index of the first payload byte at or after `start` that is not zero.
fn first_nonzero_from(payload: &[u8; 35], start: usize) -> (found: Option<usize>)
    requires
        start <= PAYLOAD_LEN,
    ensures
        match found {
            Some(k) => start <= k < PAYLOAD_LEN && payload@[k as int] != 0,
            None => forall|k: int| start <= k < PAYLOAD_LEN ==> payload@[k] == 0,
        },
{
    let mut i: usize = start;
    while i < PAYLOAD_LEN
        invariant
            start <= i <= PAYLOAD_LEN,
            forall|k: int| start <= k < i ==> payload@[k] == 0,
        decreases PAYLOAD_LEN - i,
    {
        if payload[i] != 0 {
            return Some(i);
        }
        i = i + 1;
    }
    None
}

/// The payload of a command has the fixed width, starts with the fields of
/// the command's kind and is zero after them.
pub proof fn lemma_payload_shape(command: Command)
    ensures
        command.fields().len() == command.spec_kind().spec_fields_len(),
        command.payload().len() == PAYLOAD_LEN,
        command.payload().subrange(0, command.fields().len() as int) == command.fields(),
        forall|k: int|
            command.fields().len() <= k < PAYLOAD_LEN ==> #[trigger] command.payload()[k] == 0,
{
    assert(command.payload().subrange(0, command.fields().len() as int) =~= command.fields());
}

/// Reads the fields of a mode command from the start of a payload.
fn read_set_mode(payload: &[u8]) -> (command: Command)
    requires
        payload.len() == PAYLOAD_LEN,
    ensures
        command is SetMode,
        command.fields() == payload@.subrange(0, 9),
{
    let ghost bytes: Seq<u8> = payload@;
    let mode: u8 = payload[0];
    let params: [i16; 4] = [
        read_i16(payload, 1),
        read_i16(payload, 3),
        read_i16(payload, 5),
        read_i16(payload, 7),
    ];
    let command = Command::SetMode { mode, params };
    proof {
        lemma_i16_le_inverse(0, bytes.subrange(1, 3));
        lemma_i16_le_inverse(0, bytes.subrange(3, 5));
        lemma_i16_le_inverse(0, bytes.subrange(5, 7));
        lemma_i16_le_inverse(0, bytes.subrange(7, 9));
        assert(command.fields() =~= bytes.subrange(0, 9));
    }
    command
}

/// Reads the fields of a sun mode command from the start of a payload.
fn read_set_mode_sun(payload: &[u8]) -> (command: Command)
    requires
        payload.len() == PAYLOAD_LEN,
    ensures
        command is SetModeSun,
        command.fields() == payload@.subrange(0, 7),
{
    let ghost bytes: Seq<u8> = payload@;
    let mode: u8 = payload[0];
    let sun_flag: i16 = read_i16(payload, 1);
    let angle: u32 = read_u32(payload, 3);
    let command = Command::SetModeSun { mode, sun_flag, angle };
    proof {
        lemma_i16_le_inverse(0, bytes.subrange(1, 3));
        lemma_u32_le_inverse(0, bytes.subrange(3, 7));
        assert(command.fields() =~= bytes.subrange(0, 7));
    }
    command
}

/// Reads the field of a GPS time command from the start of a payload.
fn read_set_gps_time(payload: &[u8]) -> (command: Command)
    requires
        payload.len() == PAYLOAD_LEN,
    ensures
        command is SetGpsTime,
        command.fields() == payload@.subrange(0, 4),
{
    let ghost bytes: Seq<u8> = payload@;
    let gps_time: u32 = read_u32(payload, 0);
    let command = Command::SetGpsTime { gps_time };
    proof {
        lemma_u32_le_inverse(0, bytes.subrange(0, 4));
        assert(command.fields() =~= bytes.subrange(0, 4));
    }
    command
}

/// Reads three consecutive `u32` fields that start at `at`.
fn read_triple(payload: &[u8], at: usize) -> (triple: [u32; 3])
    requires
        at + 12 <= payload.len(),
    ensures
        u32_le(triple[0]) + u32_le(triple[1]) + u32_le(triple[2]) == payload@.subrange(
            at as int,
            at + 12,
        ),
{
    let ghost bytes: Seq<u8> = payload@;
    let triple: [u32; 3] = [
        read_u32(payload, at),
        read_u32(payload, at + 4),
        read_u32(payload, at + 8),
    ];
    proof {
        lemma_u32_le_inverse(0, bytes.subrange(at as int, at + 4));
        lemma_u32_le_inverse(0, bytes.subrange(at + 4, at + 8));
        lemma_u32_le_inverse(0, bytes.subrange(at + 8, at + 12));
        assert(u32_le(triple[0]) + u32_le(triple[1]) + u32_le(triple[2]) =~= bytes.subrange(
            at as int,
            at + 12,
        ));
    }
    triple
}

/// Reads the fields of a reference vector command from the start of a
/// payload.
fn read_set_reference_vector(payload: &[u8]) -> (command: Command)
    requires
        payload.len() == PAYLOAD_LEN,
    ensures
        command is SetReferenceVector,
        command.fields() == payload@.subrange(0, 28),
{
    let ghost bytes: Seq<u8> = payload@;
    let position: [u32; 3] = read_triple(payload, 0);
    let velocity: [u32; 3] = read_triple(payload, 12);
    let gps_time: u32 = read_u32(payload, 24);
    let command = Command::SetReferenceVector { position, velocity, gps_time };
    proof {
        lemma_u32_le_inverse(0, bytes.subrange(24, 28));
        let p = u32_le(position[0]) + u32_le(position[1]) + u32_le(position[2]);
        let v = u32_le(velocity[0]) + u32_le(velocity[1]) + u32_le(velocity[2]);
        assert(command.fields() =~= p + v + u32_le(gps_time));
        assert(p + v + u32_le(gps_time) =~= bytes.subrange(0, 28));
    }
    command
}

/// Reads the fields of a command of the given kind from the start of a
/// payload.
fn read_fields(payload: &[u8], kind: CommandKind) -> (command: Command)
    requires
        payload.len() == PAYLOAD_LEN,
        kind != CommandKind::Passthrough,
    ensures
        command.spec_kind() == kind,
        command.fields() == payload@.subrange(0, kind.spec_fields_len() as int),
{
    match kind {
        CommandKind::RequestReset => {
            assert(payload@.subrange(0, 0) =~= Seq::<u8>::empty());
            Command::RequestReset
        },
        CommandKind::ConfirmReset => {
            assert(payload@.subrange(0, 0) =~= Seq::<u8>::empty());
            Command::ConfirmReset
        },
        CommandKind::SetMode => read_set_mode(payload),
        CommandKind::SetModeSun => read_set_mode_sun(payload),
        CommandKind::SetGpsTime => read_set_gps_time(payload),
        CommandKind::SetReferenceVector => read_set_reference_vector(payload),
        CommandKind::Passthrough => Command::RequestReset,
    }
}

/// Reads `frame` as a command of the given kind.
///
/// The result is the one command of that kind whose frame this is. There is
/// none where the code is another kind's, where a byte after the fields is
/// not zero, or where the kind is the passthrough, which has no frame.
pub fn parse(frame: &Frame, kind: CommandKind) -> (command: Option<Command>)
    ensures
        match command {
            Some(c) => c.spec_kind() == kind && carries(*frame, c),
            None => forall|c: Command| c.spec_kind() == kind ==> !carries(*frame, c),
        },
{
    if kind.code() != Some(frame.code) {
        return None;
    }
    match first_nonzero_from(&frame.payload, kind.fields_len()) {
        Some(k) => {
            assert forall|c: Command| c.spec_kind() == kind implies !carries(*frame, c) by {
                lemma_payload_shape(c);
                assert(c.payload()[k as int] == 0);
            }
            None
        },
        None => {
            let command = read_fields(frame.payload.as_slice(), kind);
            proof {
                lemma_payload_shape(command);
                assert(command.payload() =~= frame.payload@);
            }
            Some(command)
        },
    }
}

/// Two concatenations that agree, with first parts of one length, agree
/// part by part.
proof fn lemma_concat_parts(a1: Seq<u8>, b1: Seq<u8>, a2: Seq<u8>, b2: Seq<u8>)
    requires
        a1 + b1 == a2 + b2,
        a1.len() == a2.len(),
    ensures
        a1 == a2,
        b1 == b2,
{
    let n = a1.len() as int;
    assert(a1 =~= (a1 + b1).subrange(0, n));
    assert(a2 =~= (a2 + b2).subrange(0, n));
    assert(b1 =~= (a1 + b1).subrange(n, (a1 + b1).len() as int));
    assert(b2 =~= (a2 + b2).subrange(n, (a2 + b2).len() as int));
}

/// A prefix followed by a signed field: equal layouts mean equal prefixes
/// and equal fields.
proof fn lemma_split_i16(a: Seq<u8>, x: i16, b: Seq<u8>, y: i16)
    requires
        a + i16_le(x) == b + i16_le(y),
    ensures
        a == b,
        x == y,
{
    lemma_i16_le_inverse(x, Seq::empty());
    lemma_i16_le_inverse(y, Seq::empty());
    assert(a.len() + 2 == (a + i16_le(x)).len());
    assert(b.len() + 2 == (b + i16_le(y)).len());
    lemma_concat_parts(a, i16_le(x), b, i16_le(y));
}

/// A prefix followed by an unsigned field: equal layouts mean equal prefixes
/// and equal fields.
proof fn lemma_split_u32(a: Seq<u8>, x: u32, b: Seq<u8>, y: u32)
    requires
        a + u32_le(x) == b + u32_le(y),
    ensures
        a == b,
        x == y,
{
    lemma_u32_le_inverse(x, Seq::empty());
    lemma_u32_le_inverse(y, Seq::empty());
    assert(a.len() + 4 == (a + u32_le(x)).len());
    assert(b.len() + 4 == (b + u32_le(y)).len());
    lemma_concat_parts(a, u32_le(x), b, u32_le(y));
}

/// Equal mode fields mean equal mode commands.
proof fn lemma_set_mode_fields(ma: u8, pa: [i16; 4], mb: u8, pb: [i16; 4])
    requires
        (Command::SetMode { mode: ma, params: pa }).fields() == (Command::SetMode {
            mode: mb,
            params: pb,
        }).fields(),
    ensures
        ma == mb,
        pa == pb,
{
    let a0 = seq![ma];
    let b0 = seq![mb];
    let a1 = a0 + i16_le(pa[0]);
    let b1 = b0 + i16_le(pb[0]);
    let a2 = a1 + i16_le(pa[1]);
    let b2 = b1 + i16_le(pb[1]);
    let a3 = a2 + i16_le(pa[2]);
    let b3 = b2 + i16_le(pb[2]);
    lemma_split_i16(a3, pa[3], b3, pb[3]);
    lemma_split_i16(a2, pa[2], b2, pb[2]);
    lemma_split_i16(a1, pa[1], b1, pb[1]);
    lemma_split_i16(a0, pa[0], b0, pb[0]);
    assert(a0[0] == b0[0]);
    assert(pa =~= pb);
}

/// Equal sun mode fields mean equal sun mode commands.
proof fn lemma_set_mode_sun_fields(ma: u8, sa: i16, aa: u32, mb: u8, sb: i16, ab: u32)
    requires
        seq![ma] + i16_le(sa) + u32_le(aa) == seq![mb] + i16_le(sb) + u32_le(ab),
    ensures
        ma == mb,
        sa == sb,
        aa == ab,
{
    let a0 = seq![ma];
    let b0 = seq![mb];
    lemma_split_u32(a0 + i16_le(sa), aa, b0 + i16_le(sb), ab);
    lemma_split_i16(a0, sa, b0, sb);
    assert(a0[0] == b0[0]);
}

/// Equal layouts of three unsigned fields after equal-length prefixes mean
/// equal prefixes and equal fields.
proof fn lemma_split_triple(a: Seq<u8>, x: [u32; 3], b: Seq<u8>, y: [u32; 3])
    requires
        a + u32_le(x[0]) + u32_le(x[1]) + u32_le(x[2]) == b + u32_le(y[0]) + u32_le(y[1])
            + u32_le(y[2]),
    ensures
        a == b,
        x == y,
{
    lemma_split_u32(a + u32_le(x[0]) + u32_le(x[1]), x[2], b + u32_le(y[0]) + u32_le(y[1]), y[2]);
    lemma_split_u32(a + u32_le(x[0]), x[1], b + u32_le(y[0]), y[1]);
    lemma_split_u32(a, x[0], b, y[0]);
    assert(x =~= y);
}

/// Equal reference vector fields mean equal reference vector commands.
proof fn lemma_set_reference_vector_fields(
    pa: [u32; 3],
    va: [u32; 3],
    ta: u32,
    pb: [u32; 3],
    vb: [u32; 3],
    tb: u32,
)
    requires
        (Command::SetReferenceVector { position: pa, velocity: va, gps_time: ta }).fields() == (
        Command::SetReferenceVector { position: pb, velocity: vb, gps_time: tb }).fields(),
    ensures
        pa == pb,
        va == vb,
        ta == tb,
{
    let a3 = u32_le(pa[0]) + u32_le(pa[1]) + u32_le(pa[2]);
    let b3 = u32_le(pb[0]) + u32_le(pb[1]) + u32_le(pb[2]);
    let a6 = a3 + u32_le(va[0]) + u32_le(va[1]) + u32_le(va[2]);
    let b6 = b3 + u32_le(vb[0]) + u32_le(vb[1]) + u32_le(vb[2]);
    lemma_split_u32(a6, ta, b6, tb);
    lemma_split_triple(a3, va, b3, vb);
    assert(Seq::<u8>::empty() + u32_le(pa[0]) =~= u32_le(pa[0]));
    assert(Seq::<u8>::empty() + u32_le(pb[0]) =~= u32_le(pb[0]));
    lemma_split_triple(Seq::empty(), pa, Seq::empty(), pb);
}

/// Two commands of one kind with the same fields are the same command:
/// nothing of a framed command is lost in its payload.
pub proof fn lemma_fields_determine_command(a: Command, b: Command)
    requires
        a.spec_kind() == b.spec_kind(),
        !(a is Passthrough),
        a.fields() == b.fields(),
    ensures
        a == b,
{
    match (a, b) {
        (
            Command::SetMode { mode: ma, params: pa },
            Command::SetMode { mode: mb, params: pb },
        ) => {
            lemma_set_mode_fields(ma, pa, mb, pb);
        },
        (
            Command::SetModeSun { mode: ma, sun_flag: sa, angle: aa },
            Command::SetModeSun { mode: mb, sun_flag: sb, angle: ab },
        ) => {
            lemma_set_mode_sun_fields(ma, sa, aa, mb, sb, ab);
        },
        (Command::SetGpsTime { gps_time: ta }, Command::SetGpsTime { gps_time: tb }) => {
            lemma_u32_le_inverse(ta, Seq::empty());
            lemma_u32_le_inverse(tb, Seq::empty());
        },
        (
            Command::SetReferenceVector { position: pa, velocity: va, gps_time: ta },
            Command::SetReferenceVector { position: pb, velocity: vb, gps_time: tb },
        ) => {
            lemma_set_reference_vector_fields(pa, va, ta, pb, vb, tb);
        },
        _ => {},
    }
}

/// What was laid out can be read back. The packet of a framed command
/// passes validation; the frame taken from it carries the command; and the
/// command is the only one of its kind that the frame carries, so reading
/// the frame as that kind recovers every field.
pub proof fn lemma_command_round_trip(command: Command, frame: Frame)
    requires
        !(command is Passthrough),
        frame.wire() == command.wire(),
    ensures
        rejection(command.wire()) is None,
        carries(frame, command),
        forall|other: Command|
            other.spec_kind() == command.spec_kind() && carries(frame, other) ==> other
                == command,
{
    lemma_payload_shape(command);
    let code = command.spec_kind().spec_code().unwrap();
    lemma_packet_accepted(code, command.payload());
    lemma_packet_accepted(frame.code, frame.payload@);
    assert(carries(frame, command));
    assert forall|other: Command|
        other.spec_kind() == command.spec_kind() && carries(frame, other) implies other
        == command by {
        lemma_payload_shape(other);
        lemma_fields_determine_command(other, command);
    }
}

} // verus!
