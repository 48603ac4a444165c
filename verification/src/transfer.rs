//! The operations on a card, each as a run of transactions.
//!
//! A transfer knows which command buffer goes out next and what to make of
//! the reply. The caller exchanges the buffer with the card and hands the
//! reply back, until the transfer is finished. A frame read is tried up to
//! three times before the transfer fails; status requests and writes are
//! not tried again.

use vstd::prelude::*;
use vstd::slice::{slice_subrange, slice_to_vec};
use crate::command::{
    cmd_raw_frame,
    read_buffer,
    status_buffer,
    write_buffer,
    Command,
};
use crate::errors::PSXError;
use crate::response::{frame_from_reply, read_outcome};

verus! {

/// Attempts that one frame read gets.
pub const READ_ATTEMPTS: u8 = 3;

/// What a transfer does with the card.
#[derive(Clone, Copy, Debug, PartialEq, Eq, Structural)]
pub enum TransferKind {
    /// One status request.
    Status,
    /// Frame reads.
    Read,
    /// Frame writes.
    Write,
}

/// The state of a transfer, as plain values.
pub struct TransferView {
    /// What the transfer does.
    pub kind: TransferKind,
    /// Address of the first frame.
    pub start: int,
    /// Number of transactions that the transfer is made of.
    pub count: int,
    /// Number of transactions that are through.
    pub done: int,
    /// Failed attempts at the current transaction.
    pub attempts: int,
    /// Status: the reply. Read: the frames gathered. Write: the bytes to
    /// write.
    pub data: Seq<u8>,
    /// Whether a read ran out of attempts.
    pub failed: bool,
}

/// Whether `length` frames from `offset` on all lie on the card.
pub open spec fn range_on_card(offset: int, length: int) -> bool {
    0 <= offset <= 0x3ff && 0 <= length && offset + length <= 0x400
}

/// A status request before its transaction.
pub open spec fn status_plan() -> TransferView {
    TransferView {
        kind: TransferKind::Status,
        start: 0,
        count: 1,
        done: 0,
        attempts: 0,
        data: Seq::empty(),
        failed: false,
    }
}

/// A read of `length` frames from `offset` on, before its first
/// transaction.
pub open spec fn read_plan(offset: int, length: int) -> TransferView {
    TransferView {
        kind: TransferKind::Read,
        start: offset,
        count: length,
        done: 0,
        attempts: 0,
        data: Seq::empty(),
        failed: false,
    }
}

/// A write of `data` to `length` frames from `offset` on, before its first
/// transaction.
pub open spec fn write_plan(offset: int, length: int, data: Seq<u8>) -> TransferView {
    TransferView {
        kind: TransferKind::Write,
        start: offset,
        count: length,
        done: 0,
        attempts: 0,
        data,
        failed: false,
    }
}

impl TransferView {
    /// What holds of every state that a transfer can reach.
    pub open spec fn wf(self) -> bool {
        &&& 0 <= self.done <= self.count
        &&& 0 <= self.attempts < 3
        &&& match self.kind {
            TransferKind::Status => self.start == 0 && self.count == 1 && (self.done == 0
                ==> self.data.len() == 0),
            TransferKind::Read => range_on_card(self.start, self.count) && self.data.len()
                == self.done * 128,
            TransferKind::Write => range_on_card(self.start, self.count) && self.data.len()
                == self.count * 128,
        }
        &&& self.failed ==> self.kind == TransferKind::Read && self.done < self.count
    }

    /// Whether nothing is left to exchange.
    pub open spec fn finished(self) -> bool {
        self.failed || self.done >= self.count
    }

    /// Address of the frame that the next transaction is about.
    pub open spec fn frame(self) -> int {
        self.start + self.done
    }

    /// The part of the data that the next write carries.
    pub open spec fn chunk(self) -> Seq<u8> {
        self.data.subrange(self.done * 128, self.done * 128 + 128)
    }

    /// The command buffer that goes out next, if any.
    pub open spec fn command(self) -> Option<Seq<u8>> {
        if self.finished() {
            None
        } else {
            Some(
                match self.kind {
                    TransferKind::Status => status_buffer(),
                    TransferKind::Read => read_buffer(self.frame() as u16),
                    TransferKind::Write => write_buffer(self.frame() as u16, self.chunk()),
                },
            )
        }
    }

    /// The state after the card's reply to the pending command. A finished
    /// transfer takes no reply.
    pub open spec fn after_reply(self, reply: Seq<u8>) -> TransferView {
        if self.finished() {
            self
        } else {
            match self.kind {
                TransferKind::Status => TransferView { data: reply, done: self.done + 1, ..self },
                TransferKind::Write => TransferView { done: self.done + 1, ..self },
                TransferKind::Read => match read_outcome(reply) {
                    Ok(frame) => TransferView {
                        data: self.data + frame,
                        done: self.done + 1,
                        attempts: 0,
                        ..self
                    },
                    Err(_) => if self.attempts + 1 >= 3 {
                        TransferView { failed: true, ..self }
                    } else {
                        TransferView { attempts: self.attempts + 1, ..self }
                    },
                },
            }
        }
    }

    /// What a finished transfer hands to its caller: the status reply, the
    /// frames read, nothing for a write, or the failure of a read. `None`
    /// while transactions are left.
    pub open spec fn outcome(self) -> Option<Result<Seq<u8>, PSXError>> {
        if self.failed {
            Some(Err(PSXError::Read))
        } else if self.done >= self.count {
            Some(
                Ok(
                    match self.kind {
                        TransferKind::Write => Seq::empty(),
                        _ => self.data,
                    },
                ),
            )
        } else {
            None
        }
    }
}

/// What the caller of a transfer does next.
#[derive(Debug)]
pub enum Step {
    /// Exchange this command buffer with the card, and hand the reply to
    /// this transfer.
    Exchange(Transfer, Vec<u8>),
    /// Nothing: the transfer is finished, with this result.
    Done(Result<Vec<u8>, PSXError>),
}

/// An operation on the card that is under way.
#[derive(Debug)]
pub struct Transfer {
    kind: TransferKind,
    start: u16,
    count: u16,
    done: u16,
    attempts: u8,
    data: Vec<u8>,
    failed: bool,
}

impl View for Transfer {
    type V = TransferView;

    closed spec fn view(&self) -> TransferView {
        TransferView {
            kind: self.kind,
            start: self.start as int,
            count: self.count as int,
            done: self.done as int,
            attempts: self.attempts as int,
            data: self.data@,
            failed: self.failed,
        }
    }
}

/// Reads the status of the card. Only official cards answer this.
pub fn get_status() -> (t: Transfer)
    ensures
        t@ == status_plan(),
        t@.wf(),
{
    Transfer {
        kind: TransferKind::Status,
        start: 0,
        count: 1,
        done: 0,
        attempts: 0,
        data: Vec::new(),
        failed: false,
    }
}

/// Reads a certain number of frames.
pub fn read_at(offset: u16, length: u16) -> (r: Result<Transfer, PSXError>)
    ensures
        match r {
            Ok(t) => range_on_card(offset as int, length as int) && t@ == read_plan(
                offset as int,
                length as int,
            ) && t@.wf(),
            Err(e) => !range_on_card(offset as int, length as int) && e == PSXError::FrameOfs,
        },
{
    if offset > 0x3ff || length > 0x400 - offset {
        return Err(PSXError::FrameOfs);
    }
    Ok(
        Transfer {
            kind: TransferKind::Read,
            start: offset,
            count: length,
            done: 0,
            attempts: 0,
            data: Vec::new(),
            failed: false,
        },
    )
}

/// Reads a specific frame.
pub fn read_frame(frame: u16) -> (r: Result<Transfer, PSXError>)
    ensures
        match r {
            Ok(t) => frame <= 0x3ff && t@ == read_plan(frame as int, 1) && t@.wf(),
            Err(e) => frame > 0x3ff && e == PSXError::FrameOfs,
        },
{
    read_at(frame, 1)
}

/// Reads all frames of the card, 0 through 1023.
pub fn read_all_frames() -> (t: Transfer)
    ensures
        t@ == read_plan(0, 0x400),
        t@.wf(),
{
    Transfer {
        kind: TransferKind::Read,
        start: 0,
        count: 0x400,
        done: 0,
        attempts: 0,
        data: Vec::new(),
        failed: false,
    }
}

/// Writes a certain number of frames: `data` holds them one behind the
/// other.
pub fn write_at(offset: u16, length: u16, data: Vec<u8>) -> (r: Result<Transfer, PSXError>)
    ensures
        match r {
            Ok(t) => data@.len() == length * 128 && range_on_card(offset as int, length as int)
                && t@ == write_plan(offset as int, length as int, data@) && t@.wf(),
            Err(e) => if data@.len() != length * 128 {
                e == PSXError::WriteLen
            } else {
                !range_on_card(offset as int, length as int) && e == PSXError::FrameOfs
            },
        },
{
    if data.len() % 128 != 0 || data.len() / 128 != length as usize {
        return Err(PSXError::WriteLen);
    }
    if offset > 0x3ff || length > 0x400 - offset {
        return Err(PSXError::FrameOfs);
    }
    Ok(
        Transfer {
            kind: TransferKind::Write,
            start: offset,
            count: length,
            done: 0,
            attempts: 0,
            data,
            failed: false,
        },
    )
}

/// Writes a specific frame.
pub fn write_frame(frame: u16, data: Vec<u8>) -> (r: Result<Transfer, PSXError>)
    ensures
        match r {
            Ok(t) => data@.len() == 128 && frame <= 0x3ff && t@ == write_plan(
                frame as int,
                1,
                data@,
            ) && t@.wf(),
            Err(e) => if data@.len() != 128 {
                e == PSXError::WriteLen
            } else {
                frame > 0x3ff && e == PSXError::FrameOfs
            },
        },
{
    write_at(frame, 1, data)
}

impl Transfer {
    #[verifier::type_invariant]
    spec fn inv(self) -> bool {
        self@.wf()
    }

    /// Whether nothing is left to exchange.
    pub fn is_finished(&self) -> (b: bool)
        ensures
            b == self@.finished(),
    {
        self.failed || self.done >= self.count
    }

    /// The command buffer to exchange next; `None` once the transfer is
    /// finished.
    pub fn command(&self) -> (r: Option<Vec<u8>>)
        ensures
            self@.wf(),
            match r {
                Some(buf) => self@.command() == Some(buf@),
                None => self@.command().is_none(),
            },
    {
        proof {
            use_type_invariant(self);
        }
        if self.is_finished() {
            return None;
        }
        let frame = self.start + self.done;
        let com = match self.kind {
            TransferKind::Status => Command::Status,
            TransferKind::Read => Command::Read(frame),
            TransferKind::Write => {
                let at = (self.done as usize) * 128;
                let chunk = slice_to_vec(slice_subrange(self.data.as_slice(), at, at + 128));
                Command::Write(frame, chunk)
            },
        };
        match cmd_raw_frame(&com) {
            Ok(buf) => Some(buf),
            Err(_) => None,
        }
    }

    /// Takes in the card's reply to the pending command and moves on.
    pub fn reply(self, reply: &[u8]) -> (next: Transfer)
        ensures
            self@.wf(),
            next@ == self@.after_reply(reply@),
            next@.wf(),
    {
        proof {
            use_type_invariant(&self);
        }
        if self.is_finished() {
            return self;
        }
        let Transfer { kind, start, count, done, attempts, mut data, failed } = self;
        match kind {
            TransferKind::Status => Transfer {
                kind,
                start,
                count,
                done: done + 1,
                attempts,
                data: slice_to_vec(reply),
                failed,
            },
            TransferKind::Write => Transfer {
                kind,
                start,
                count,
                done: done + 1,
                attempts,
                data,
                failed,
            },
            TransferKind::Read => match frame_from_reply(reply) {
                Ok(mut frame) => {
                    data.append(&mut frame);
                    Transfer { kind, start, count, done: done + 1, attempts: 0, data, failed }
                },
                Err(_) => if attempts + 1 >= READ_ATTEMPTS {
                    Transfer { kind, start, count, done, attempts, data, failed: true }
                } else {
                    Transfer { kind, start, count, done, attempts: attempts + 1, data, failed }
                },
            },
        }
    }

    /// What the caller does next: one more exchange, or nothing.
    pub fn step(self) -> (step: Step)
        ensures
            self@.wf(),
            match step {
                Step::Exchange(t, buf) => t@ == self@ && self@.command() == Some(buf@),
                Step::Done(Ok(bytes)) => self@.outcome() == Some(
                    Ok::<Seq<u8>, PSXError>(bytes@),
                ),
                Step::Done(Err(e)) => self@.outcome() == Some(Err::<Seq<u8>, PSXError>(e)),
            },
    {
        proof {
            use_type_invariant(&self);
        }
        match self.command() {
            Some(buf) => Step::Exchange(self, buf),
            None => match self.finish() {
                Some(out) => Step::Done(out),
                None => Step::Done(Err(PSXError::Read)),
            },
        }
    }

    /// What the transfer hands to its caller; `None` while transactions
    /// are left.
    pub fn finish(self) -> (r: Option<Result<Vec<u8>, PSXError>>)
        ensures
            self@.wf(),
            match r {
                Some(Ok(bytes)) => self@.outcome() == Some(Ok::<Seq<u8>, PSXError>(bytes@)),
                Some(Err(e)) => self@.outcome() == Some(Err::<Seq<u8>, PSXError>(e)),
                None => self@.outcome().is_none(),
            },
    {
        proof {
            use_type_invariant(&self);
        }
        if self.failed {
            Some(Err(PSXError::Read))
        } else if self.done >= self.count {
            match self.kind {
                TransferKind::Write => Some(Ok(Vec::new())),
                _ => Some(Ok(self.data)),
            }
        } else {
            None
        }
    }
}

} // verus!
