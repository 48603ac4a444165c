//! What the card sends back for a frame read, and how a frame is taken out
//! of it.
//!
//! The first byte of a reply is an echo of the shift register and is
//! dropped. Behind the acknowledge pair stand the frame address, the 128
//! bytes of the frame, a checksum over both, and a trailer.

use vstd::prelude::*;
use vstd::slice::slice_subrange;
use crate::checksum::{calc_checksum, checksum};
use crate::command::frame_address;
use crate::errors::PSXError;
use crate::scan::{
    ends_at,
    find_haystack_end,
    haystack_end,
    is_first_end,
    lemma_haystack_end_is,
    lemma_haystack_end_none,
    lemma_haystack_end_sound,
};

verus! {

/// Trailer of a good read.
pub const FRAME_STATUS_GOOD: u8 = 0x47;

/// A reply of at most this many bytes is too short to hold a frame.
pub const SHORT_REPLY: usize = 128;

/// Bytes from the end of the acknowledge pair to the end of the trailer.
pub const REPLY_TAIL_LEN: usize = 132;

/// The pair of bytes with which the card acknowledges a command.
pub open spec fn command_ack() -> Seq<u8> {
    seq![0x5cu8, 0x5du8]
}

/// What one reply to a read yields: the 128 bytes of the frame, or the
/// reason why the reply is no good. The frame is looked for behind the
/// first acknowledge pair that follows the first byte. A reply of at most
/// 128 bytes, one without the pair, and one that ends before its trailer
/// give `Read`; a checksum that does not match gives `Checksum`; behind a
/// good checksum, a trailer that is not the good marker gives `Status`.
pub open spec fn read_outcome(reply: Seq<u8>) -> Result<Seq<u8>, PSXError> {
    if reply.len() <= 128 {
        Err(PSXError::Read)
    } else {
        let data = reply.subrange(1, reply.len() as int);
        match haystack_end(command_ack(), data) {
            None => Err(PSXError::Read),
            Some(ofs) => {
                if ofs + 132 > data.len() {
                    Err(PSXError::Read)
                } else if checksum(data.subrange(ofs, ofs + 130)) != data[ofs + 130] {
                    Err(PSXError::Checksum)
                } else if data[ofs + 131] != 0x47 {
                    Err(PSXError::Status)
                } else {
                    Ok(data.subrange(ofs + 2, ofs + 130))
                }
            },
        }
    }
}

/// The bytes of a reply behind its first byte, which is dropped.
pub open spec fn reply_data(reply: Seq<u8>) -> Seq<u8> {
    reply.subrange(1, reply.len() as int)
}

/// Whether a reply is long enough to hold a frame, its first acknowledge
/// pair ends just before index `ofs` of its data, and the 132 bytes up to
/// the trailer follow.
pub open spec fn framed_at(reply: Seq<u8>, ofs: int) -> bool {
    &&& reply.len() > 128
    &&& is_first_end(command_ack(), reply_data(reply), ofs)
    &&& ofs + 132 <= reply_data(reply).len()
}

/// Whether the checksum byte behind the pair that ends at `ofs` is the
/// checksum of the frame address and the frame.
pub open spec fn checksum_matches(reply: Seq<u8>, ofs: int) -> bool {
    checksum(reply_data(reply).subrange(ofs, ofs + 130)) == reply_data(reply)[ofs + 130]
}

/// Whether the trailer behind the pair that ends at `ofs` is the good
/// marker.
pub open spec fn trailer_good(reply: Seq<u8>, ofs: int) -> bool {
    reply_data(reply)[ofs + 131] == 0x47
}

/// The frame behind the pair that ends at `ofs`.
pub open spec fn frame_at(reply: Seq<u8>, ofs: int) -> Seq<u8> {
    reply_data(reply).subrange(ofs + 2, ofs + 130)
}

/// A reply as a card sends it for a good read: the echo, bytes that lead up
/// to the acknowledge pair, the pair, the frame address, the frame, the
/// checksum of both, the good trailer, and whatever follows.
pub open spec fn good_reply(
    echo: u8,
    lead: Seq<u8>,
    frame: u16,
    payload: Seq<u8>,
    rest: Seq<u8>,
) -> Seq<u8> {
    seq![echo] + lead + command_ack() + frame_address(frame) + payload + seq![
        checksum(frame_address(frame) + payload),
        0x47u8,
    ] + rest
}

/// Takes the frame out of one reply to a read.
pub fn frame_from_reply(reply: &[u8]) -> (r: Result<Vec<u8>, PSXError>)
    ensures
        match r {
            Ok(frame) => read_outcome(reply@) == Ok::<Seq<u8>, PSXError>(frame@)
                && frame@.len() == 128,
            Err(e) => read_outcome(reply@) == Err::<Seq<u8>, PSXError>(e),
        },
{
    if reply.len() <= SHORT_REPLY {
        return Err(PSXError::Read);
    }
    let data = slice_subrange(reply, 1, reply.len());
    let ack: [u8; 2] = [0x5c, 0x5d];
    proof {
        assert(ack@ =~= command_ack());
    }
    let ofs = match find_haystack_end(ack.as_slice(), data) {
        Some(i) => i,
        None => {
            return Err(PSXError::Read);
        },
    };
    if data.len() - ofs < REPLY_TAIL_LEN {
        return Err(PSXError::Read);
    }
    let region = slice_subrange(data, ofs, ofs + 130);
    let calc = calc_checksum(region);
    if data[ofs + 130] != calc {
        return Err(PSXError::Checksum);
    }
    if data[ofs + 131] != FRAME_STATUS_GOOD {
        return Err(PSXError::Status);
    }
    let frame = vstd::slice::slice_to_vec(slice_subrange(data, ofs + 2, ofs + 130));
    Ok(frame)
}

/// A frame that comes out of a reply is 128 bytes long.
pub proof fn lemma_frame_size(reply: Seq<u8>)
    ensures
        match read_outcome(reply) {
            Ok(frame) => frame.len() == 128,
            Err(e) => e == PSXError::Read || e == PSXError::Checksum || e == PSXError::Status,
        },
{
    if reply.len() > 128 {
        lemma_haystack_end_sound(command_ack(), reply.subrange(1, reply.len() as int));
    }
}

/// The outcome of a reply, said by where its first acknowledge pair ends:
/// with `ofs` the index just behind the pair in the bytes that follow the
/// first, the frame is bytes `ofs + 2` to `ofs + 129`, given that the
/// trailer is there, that byte `ofs + 130` is the checksum of the 130
/// bytes before it, and that byte `ofs + 131` is the good marker.
pub proof fn lemma_read_outcome_at(reply: Seq<u8>, ofs: int)
    requires
        reply.len() > 128,
        is_first_end(command_ack(), reply.subrange(1, reply.len() as int), ofs),
    ensures
        ({
            let data = reply.subrange(1, reply.len() as int);
            read_outcome(reply) == (if ofs + 132 > data.len() {
                Err::<Seq<u8>, PSXError>(PSXError::Read)
            } else if checksum(data.subrange(ofs, ofs + 130)) != data[ofs + 130] {
                Err::<Seq<u8>, PSXError>(PSXError::Checksum)
            } else if data[ofs + 131] != 0x47 {
                Err::<Seq<u8>, PSXError>(PSXError::Status)
            } else {
                Ok::<Seq<u8>, PSXError>(data.subrange(ofs + 2, ofs + 130))
            })
        }),
{
    lemma_haystack_end_is(command_ack(), reply.subrange(1, reply.len() as int), ofs);
}

/// A reply is good exactly when it is framed, its checksum matches and
/// its trailer is the good marker; the frame is then the one behind the
/// pair. A checksum that does not match gives `Checksum`, and behind a
/// good checksum a bad trailer gives `Status`.
pub proof fn lemma_framed_reply(reply: Seq<u8>, ofs: int)
    requires
        framed_at(reply, ofs),
    ensures
        checksum_matches(reply, ofs) && trailer_good(reply, ofs) ==> read_outcome(reply) == Ok::<
            Seq<u8>,
            PSXError,
        >(frame_at(reply, ofs)),
        !checksum_matches(reply, ofs) ==> read_outcome(reply) == Err::<Seq<u8>, PSXError>(
            PSXError::Checksum,
        ),
        checksum_matches(reply, ofs) && !trailer_good(reply, ofs) ==> read_outcome(reply)
            == Err::<Seq<u8>, PSXError>(PSXError::Status),
{
    lemma_read_outcome_at(reply, ofs);
}

/// A reply that holds no acknowledge pair behind its first byte is no
/// good.
pub proof fn lemma_read_outcome_without_pair(reply: Seq<u8>)
    requires
        forall|e: int| !ends_at(command_ack(), reply.subrange(1, reply.len() as int), e),
    ensures
        read_outcome(reply) == Err::<Seq<u8>, PSXError>(PSXError::Read),
{
    if reply.len() > 128 {
        lemma_haystack_end_none(command_ack(), reply.subrange(1, reply.len() as int));
    }
}

/// From a good reply whose lead holds no copy of the acknowledge pair,
/// exactly the frame that the card put in comes out.
pub proof fn lemma_good_reply_yields_frame(
    echo: u8,
    lead: Seq<u8>,
    frame: u16,
    payload: Seq<u8>,
    rest: Seq<u8>,
)
    requires
        payload.len() == 128,
        forall|e: int| !ends_at(command_ack(), lead, e),
    ensures
        read_outcome(good_reply(echo, lead, frame, payload, rest)) == Ok::<Seq<u8>, PSXError>(
            payload,
        ),
{
    let reply = good_reply(echo, lead, frame, payload, rest);
    let data = reply.subrange(1, reply.len() as int);
    let start = lead.len() as int;
    let ofs = start + 2;
    assert(data.subrange(start, start + 2) =~= command_ack());
    assert forall|e: int| e < ofs implies !ends_at(command_ack(), data, e) by {
        if ends_at(command_ack(), data, e) {
            let copy = data.subrange(e - 2, e);
            assert(copy == command_ack());
            if e <= start {
                assert(lead.subrange(e - 2, e) =~= copy);
                assert(ends_at(command_ack(), lead, e));
            } else {
                assert(copy[1] == data[start]);
            }
        }
    }
    assert(is_first_end(command_ack(), data, ofs));
    lemma_read_outcome_at(reply, ofs);
    assert(data.subrange(ofs, ofs + 130) =~= frame_address(frame) + payload);
    assert(data[ofs + 130] == checksum(frame_address(frame) + payload));
    assert(data[ofs + 131] == 0x47);
    assert(data.subrange(ofs + 2, ofs + 130) =~= payload);
}

} // verus!
