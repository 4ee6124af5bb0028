//! The telemetry reader: the one place where an incoming frame is told to
//! be the acknowledgement of the command in flight or telemetry.
//!
//! The surrounding loop reads one packet-sized run of bytes after another
//! and hands each to the reader. A run that is not a packet is counted and
//! skipped; it never ends the loop. Only a stop request or a fault of the
//! line does.
//!
//! An acknowledgement repeats the message code of its command. A frame with
//! such a code that nothing waits for is a stray, and is dropped: it is never
//! taken for telemetry.

use crate::command::{is_reply_code, spec_is_reply_code};
use crate::packet::{decode, lemma_wire_accepted, rejection, Frame, FrameError};
use vstd::prelude::*;

verus! {

/// Where an incoming run of bytes goes.
#[derive(Debug, Clone, Copy, PartialEq, Eq)]
pub enum Routing {
    /// Not a packet; counted and dropped.
    Rejected { error: FrameError },
    /// The acknowledgement that the command in flight waits for.
    Ack { frame: Frame },
    /// An acknowledgement that nothing waits for, such as one that comes
    /// after its command has given up; counted and dropped.
    Stray { frame: Frame },
    /// Anything else that is a packet: telemetry.
    Telemetry { frame: Frame },
}

/// What the line gave to the reading loop.
#[derive(Debug, Clone, PartialEq, Eq)]
pub enum ReadEvent {
    /// One packet-sized run of bytes.
    Frame { bytes: Vec<u8> },
    /// The line failed and will not recover.
    Fault,
    /// The loop was asked to stop.
    Stop,
}

/// What the reading loop does next.
#[derive(Debug, Clone, Copy, PartialEq, Eq)]
pub enum ReadAction {
    /// Hand the acknowledgement to the waiting command and read on.
    Deliver { ack: Frame },
    /// Decode the frame as telemetry, publish it and read on.
    Publish { frame: Frame },
    /// Read on; the bytes were not a packet.
    Skip { error: FrameError },
    /// Read on; the frame is an acknowledgement that nothing waits for, and
    /// is not to be applied anywhere.
    Drop { frame: Frame },
    /// Leave the loop.
    Halt,
}

/// A count after one more. It stays at the largest value once it has
/// reached it.
pub open spec fn bumped(count: u64) -> u64 {
    if count < u64::MAX {
        (count + 1) as u64
    } else {
        count
    }
}

/// State of the reading loop.
#[derive(Debug, Clone, Copy, PartialEq, Eq, Structural)]
pub struct Reader {
    /// Reply code that the command in flight waits for, if one does.
    pub pending: Option<u8>,
    /// How many runs of bytes were not packets.
    pub corrupted: u64,
    /// How many acknowledgements came that nothing waited for.
    pub strays: u64,
    /// Whether the loop has ended.
    pub halted: bool,
}

impl Reader {
    /// A reader at the start of its loop: nothing awaited, nothing counted.
    pub fn new() -> (reader: Reader)
        ensures
            reader == (Reader { pending: None, corrupted: 0, strays: 0, halted: false }),
    {
        Reader { pending: None, corrupted: 0, strays: 0, halted: false }
    }

    /// Registers that a command waits for the reply `code`.
    ///
    /// At most one command is in flight: while another reply is awaited the
    /// registration is refused and nothing changes.
    pub fn expect(&mut self, code: u8) -> (accepted: bool)
        ensures
            accepted <==> old(self).pending is None,
            accepted ==> *final(self) == (Reader { pending: Some(code), ..*old(self) }),
            !accepted ==> *final(self) == *old(self),
    {
        match self.pending {
            None => {
                self.pending = Some(code);
                true
            },
            Some(_) => false,
        }
    }

    /// Discards the awaited reply, as after a wait that timed out. A reply
    /// that arrives later is no acknowledgement any more.
    pub fn cancel(&mut self)
        ensures
            *final(self) == (Reader { pending: None, ..*old(self) }),
    {
        self.pending = None;
    }

    /// Routes one incoming run of bytes.
    ///
    /// Bytes that are not a packet are counted and rejected. A packet whose
    /// code is the awaited reply is the acknowledgement: it is handed over
    /// once and nothing is awaited after it. A packet with the code of an
    /// acknowledgement that is not awaited is a stray: counted, and kept
    /// away from the telemetry. Every other packet is telemetry.
    pub fn route(&mut self, bytes: &[u8]) -> (routing: Routing)
        ensures
            final(self).halted == old(self).halted,
            match rejection(bytes@) {
                Some(error) => {
                    &&& routing == Routing::Rejected { error }
                    &&& final(self).corrupted == bumped(old(self).corrupted)
                    &&& final(self).strays == old(self).strays
                    &&& final(self).pending == old(self).pending
                },
                None => {
                    &&& final(self).corrupted == old(self).corrupted
                    &&& if old(self).pending == Some(bytes@[2]) {
                        &&& routing matches Routing::Ack { frame }
                        &&& frame.wire() == bytes@
                        &&& final(self).pending is None
                        &&& final(self).strays == old(self).strays
                    } else if spec_is_reply_code(bytes@[2]) {
                        &&& routing matches Routing::Stray { frame }
                        &&& frame.wire() == bytes@
                        &&& final(self).pending == old(self).pending
                        &&& final(self).strays == bumped(old(self).strays)
                    } else {
                        &&& routing matches Routing::Telemetry { frame }
                        &&& frame.wire() == bytes@
                        &&& final(self).pending == old(self).pending
                        &&& final(self).strays == old(self).strays
                    }
                },
            },
    {
        match decode(bytes) {
            Err(error) => {
                if self.corrupted < u64::MAX {
                    self.corrupted = self.corrupted + 1;
                }
                Routing::Rejected { error }
            },
            Ok(frame) => {
                proof {
                    lemma_wire_accepted(frame);
                }
                if self.pending == Some(frame.code) {
                    self.pending = None;
                    Routing::Ack { frame }
                } else if is_reply_code(frame.code) {
                    if self.strays < u64::MAX {
                        self.strays = self.strays + 1;
                    }
                    Routing::Stray { frame }
                } else {
                    Routing::Telemetry { frame }
                }
            },
        }
    }

    /// One turn of the reading loop.
    ///
    /// The loop ends on a stop request or a fault of the line, and stays
    /// ended. Bytes never end it: they are routed, and the action says what
    /// to do with them.
    pub fn step(&mut self, event: ReadEvent) -> (action: ReadAction)
        ensures
            final(self).halted <==> old(self).halted || event is Fault || event is Stop,
            action is Halt <==> final(self).halted,
            final(self).halted ==> *final(self) == (Reader { halted: true, ..*old(self) }),
            !final(self).halted ==> (event matches ReadEvent::Frame { bytes } && match rejection(
                bytes@,
            ) {
                Some(error) => {
                    &&& action == ReadAction::Skip { error }
                    &&& final(self).corrupted == bumped(old(self).corrupted)
                    &&& final(self).strays == old(self).strays
                    &&& final(self).pending == old(self).pending
                },
                None => {
                    &&& final(self).corrupted == old(self).corrupted
                    &&& if old(self).pending == Some(bytes@[2]) {
                        &&& action matches ReadAction::Deliver { ack }
                        &&& ack.wire() == bytes@
                        &&& final(self).pending is None
                        &&& final(self).strays == old(self).strays
                    } else if spec_is_reply_code(bytes@[2]) {
                        &&& action matches ReadAction::Drop { frame }
                        &&& frame.wire() == bytes@
                        &&& final(self).pending == old(self).pending
                        &&& final(self).strays == bumped(old(self).strays)
                    } else {
                        &&& action matches ReadAction::Publish { frame }
                        &&& frame.wire() == bytes@
                        &&& final(self).pending == old(self).pending
                        &&& final(self).strays == old(self).strays
                    }
                },
            }),
    {
        if self.halted {
            return ReadAction::Halt;
        }
        match event {
            ReadEvent::Fault => {
                self.halted = true;
                ReadAction::Halt
            },
            ReadEvent::Stop => {
                self.halted = true;
                ReadAction::Halt
            },
            ReadEvent::Frame { bytes } => {
                match self.route(bytes.as_slice()) {
                    Routing::Rejected { error } => ReadAction::Skip { error },
                    Routing::Ack { frame } => ReadAction::Deliver { ack: frame },
                    Routing::Stray { frame } => ReadAction::Drop { frame },
                    Routing::Telemetry { frame } => ReadAction::Publish { frame },
                }
            },
        }
    }
}

} // verus!
