//! The command buffer that opens every transaction.
//!
//! A buffer is 256 bytes long. It starts with the addressee and the command
//! code, two reserved bytes, then for reads and writes the frame address
//! (high byte first), and for writes the payload and its checksum. The rest
//! is zero: the host keeps clocking while the card answers.

use vstd::prelude::*;
use crate::checksum::{calc_checksum, checksum};
use crate::errors::PSXError;

verus! {

/// Length of every command buffer.
pub const COMMAND_LEN: usize = 256;

/// First byte of every command: the memory card is addressed.
pub const ADDRESSEE: u8 = 0x81;

/// Command code of a status request.
pub const STATUS_CODE: u8 = 0x53;

/// Command code of a frame read.
pub const READ_CODE: u8 = 0x52;

/// Command code of a frame write.
pub const WRITE_CODE: u8 = 0x57;

/// Index of the checksum byte in a write command.
pub const WRITE_CHECKSUM_AT: usize = 134;

/// The transactions that the card understands.
#[derive(Debug, PartialEq)]
pub enum Command {
    /// Ask for the card's status.
    Status,
    /// Read the frame at this address.
    Read(u16),
    /// Write the payload to the frame at this address.
    Write(u16, Vec<u8>),
}

/// `n` zero bytes.
pub open spec fn zeros(n: int) -> Seq<u8> {
    Seq::new(n as nat, |i: int| 0u8)
}

/// A frame address as it goes over the wire: high byte, then low byte.
pub open spec fn frame_address(frame: u16) -> Seq<u8> {
    seq![(frame / 256) as u8, (frame % 256) as u8]
}

/// A command body, padded with zeros to the length of a buffer.
pub open spec fn padded(body: Seq<u8>) -> Seq<u8> {
    body + zeros(256 - body.len())
}

/// The buffer of a status request.
pub open spec fn status_buffer() -> Seq<u8> {
    padded(seq![0x81u8, 0x53u8])
}

/// The buffer of a read of `frame`.
pub open spec fn read_buffer(frame: u16) -> Seq<u8> {
    padded(seq![0x81u8, 0x52u8, 0u8, 0u8] + frame_address(frame))
}

/// The buffer of a write of `payload` to `frame`.
pub open spec fn write_buffer(frame: u16, payload: Seq<u8>) -> Seq<u8> {
    padded(
        seq![0x81u8, 0x57u8, 0u8, 0u8] + frame_address(frame) + payload + seq![
            checksum(frame_address(frame) + payload),
        ],
    )
}

/// The buffer of a command.
pub open spec fn command_buffer(com: Command) -> Seq<u8> {
    match com {
        Command::Status => status_buffer(),
        Command::Read(frame) => read_buffer(frame),
        Command::Write(frame, payload) => write_buffer(frame, payload@),
    }
}

/// A command can be built unless it is a write whose payload is not one
/// frame long.
pub open spec fn command_valid(com: Command) -> bool {
    match com {
        Command::Write(_, payload) => payload@.len() == 128,
        _ => true,
    }
}

/// Appends the two bytes of a frame address.
fn push_frame_address(buf: &mut Vec<u8>, frame: u16)
    ensures
        final(buf)@ == old(buf)@ + frame_address(frame),
{
    buf.push((frame / 256) as u8);
    buf.push((frame % 256) as u8);
    proof {
        assert(buf@ =~= old(buf)@ + frame_address(frame));
    }
}

/// Generates the command buffer of a transaction.
pub fn cmd_raw_frame(com: &Command) -> (r: Result<Vec<u8>, PSXError>)
    ensures
        match r {
            Ok(buf) => command_valid(*com) && buf@ == command_buffer(*com),
            Err(e) => e == PSXError::WriteLen && !command_valid(*com),
        },
{
    let mut buf: Vec<u8> = Vec::new();
    buf.push(ADDRESSEE);
    match com {
        Command::Status => {
            buf.push(STATUS_CODE);
        },
        Command::Read(frame) => {
            buf.push(READ_CODE);
            buf.push(0);
            buf.push(0);
            push_frame_address(&mut buf, *frame);
        },
        Command::Write(frame, payload) => {
            buf.push(WRITE_CODE);
            buf.push(0);
            buf.push(0);
            push_frame_address(&mut buf, *frame);
            if payload.len() != 128 {
                return Err(PSXError::WriteLen);
            }
            let mut i: usize = 0;
            while i < 128
                invariant
                    i <= 128,
                    payload@.len() == 128,
                    buf@ == seq![0x81u8, 0x57u8, 0u8, 0u8] + frame_address(*frame)
                        + payload@.take(i as int),
                decreases 128 - i,
            {
                buf.push(payload[i]);
                i += 1;
                proof {
                    assert(payload@.take(i as int) =~= payload@.take(i - 1).push(payload@[i - 1]));
                }
            }
            proof {
                assert(payload@.take(128) =~= payload@);
                assert(buf@.subrange(4, 134) =~= frame_address(*frame) + payload@);
            }
            let c = calc_checksum(vstd::slice::slice_subrange(buf.as_slice(), 4, 134));
            buf.push(c);
        },
    }
    let ghost body = buf@;
    let ghost whole = command_buffer(*com);
    assert(whole =~= padded(body));
    while buf.len() < COMMAND_LEN
        invariant
            body.len() <= buf@.len() <= 256,
            buf@ == body + zeros(buf@.len() - body.len()),
        decreases 256 - buf@.len(),
    {
        buf.push(0);
        proof {
            assert(buf@ =~= body + zeros(buf@.len() - body.len()));
        }
    }
    Ok(buf)
}

/// Every command that can be built fills the buffer exactly, and starts
/// with the addressee.
pub proof fn lemma_command_length(com: Command)
    requires
        command_valid(com),
    ensures
        command_buffer(com).len() == 256,
        command_buffer(com)[0] == 0x81,
{
}

/// A status command is its two-byte header and nothing but zeros behind it.
pub proof fn lemma_status_layout()
    ensures
        status_buffer().len() == 256,
        status_buffer()[0] == 0x81,
        status_buffer()[1] == 0x53,
        forall|i: int| 2 <= i < 256 ==> status_buffer()[i] == 0,
{
}

/// A read command carries the frame address at bytes 4 and 5, high byte
/// first, and nothing but zeros behind it.
pub proof fn lemma_read_layout(frame: u16)
    ensures
        read_buffer(frame).len() == 256,
        read_buffer(frame)[0] == 0x81,
        read_buffer(frame)[1] == 0x52,
        read_buffer(frame)[2] == 0,
        read_buffer(frame)[3] == 0,
        read_buffer(frame)[4] * 256 + read_buffer(frame)[5] == frame,
        forall|i: int| 6 <= i < 256 ==> read_buffer(frame)[i] == 0,
{
}

/// A write command carries the frame address at bytes 4 and 5, the payload
/// at bytes 6 to 133, and at byte 134 the checksum of bytes 4 to 133.
pub proof fn lemma_write_layout(frame: u16, payload: Seq<u8>)
    requires
        payload.len() == 128,
    ensures
        write_buffer(frame, payload).len() == 256,
        write_buffer(frame, payload)[0] == 0x81,
        write_buffer(frame, payload)[1] == 0x57,
        write_buffer(frame, payload)[2] == 0,
        write_buffer(frame, payload)[3] == 0,
        write_buffer(frame, payload)[4] * 256 + write_buffer(frame, payload)[5] == frame,
        write_buffer(frame, payload).subrange(6, 134) == payload,
        write_buffer(frame, payload)[134] == checksum(
            write_buffer(frame, payload).subrange(4, 134),
        ),
        forall|i: int| 135 <= i < 256 ==> write_buffer(frame, payload)[i] == 0,
{
    let buf = write_buffer(frame, payload);
    assert(buf.subrange(6, 134) =~= payload);
    assert(buf.subrange(4, 134) =~= frame_address(frame) + payload);
}

} // verus!
