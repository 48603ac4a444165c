//! What holds of every transfer, whatever the card replies.

use vstd::prelude::*;
use crate::command::{lemma_write_layout, read_buffer, status_buffer, write_buffer};
use crate::errors::PSXError;
use crate::response::{
    checksum_matches,
    command_ack,
    frame_at,
    framed_at,
    good_reply,
    lemma_frame_size,
    lemma_framed_reply,
    lemma_good_reply_yields_frame,
    read_outcome,
    trailer_good,
};
use crate::scan::ends_at;
use crate::transfer::{
    range_on_card,
    read_plan,
    status_plan,
    write_plan,
    TransferKind,
    TransferView,
};

verus! {

/// The state after the card's replies to one command after the other.
pub open spec fn run(s: TransferView, replies: Seq<Seq<u8>>) -> TransferView
    decreases replies.len(),
{
    if replies.len() == 0 {
        s
    } else {
        run(s, replies.drop_last()).after_reply(replies.last())
    }
}

/// Whether a reply to a read holds a valid frame.
pub open spec fn is_good(reply: Seq<u8>) -> bool {
    read_outcome(reply) is Ok
}

/// The frame in a reply to a read; empty where the reply is no good.
pub open spec fn frame_in(reply: Seq<u8>) -> Seq<u8> {
    match read_outcome(reply) {
        Ok(frame) => frame,
        Err(_) => Seq::empty(),
    }
}

/// The frames in a run of replies, one behind the other.
pub open spec fn frames_in(replies: Seq<Seq<u8>>) -> Seq<u8>
    decreases replies.len(),
{
    if replies.len() == 0 {
        Seq::empty()
    } else {
        frames_in(replies.drop_last()) + frame_in(replies.last())
    }
}

/// A reply keeps the state well formed and the plan as it was; a finished
/// transfer stays as it is.
pub proof fn lemma_reply_keeps(s: TransferView, reply: Seq<u8>)
    requires
        s.wf(),
    ensures
        s.after_reply(reply).wf(),
        s.after_reply(reply).kind == s.kind,
        s.after_reply(reply).start == s.start,
        s.after_reply(reply).count == s.count,
        s.done <= s.after_reply(reply).done <= s.done + 1,
        s.finished() ==> s.after_reply(reply) == s,
{
    lemma_frame_size(reply);
}

/// Any run of replies keeps the state well formed and the plan as it was.
pub proof fn lemma_run_keeps(s: TransferView, replies: Seq<Seq<u8>>)
    requires
        s.wf(),
    ensures
        run(s, replies).wf(),
        run(s, replies).kind == s.kind,
        run(s, replies).start == s.start,
        run(s, replies).count == s.count,
        s.done <= run(s, replies).done <= s.done + replies.len(),
    decreases replies.len(),
{
    if replies.len() > 0 {
        lemma_run_keeps(s, replies.drop_last());
        lemma_reply_keeps(run(s, replies.drop_last()), replies.last());
    }
}

/// Every command that a transfer sends names a frame on the card.
pub proof fn lemma_frame_on_card(s: TransferView)
    requires
        s.wf(),
        !s.finished(),
        s.kind != TransferKind::Status,
    ensures
        0 <= s.frame() <= 0x3ff,
{
}

/// A read of `length` frames that succeeds hands back `length` times 128
/// bytes, and a read fails with `Read` only.
pub proof fn lemma_read_length(offset: int, length: int, replies: Seq<Seq<u8>>)
    requires
        range_on_card(offset, length),
    ensures
        match run(read_plan(offset, length), replies).outcome() {
            Some(Ok(bytes)) => bytes.len() == length * 128,
            Some(Err(e)) => e == PSXError::Read,
            None => true,
        },
{
    lemma_run_keeps(read_plan(offset, length), replies);
}

/// A read of one frame that succeeds hands back 128 bytes.
pub proof fn lemma_read_frame_length(frame: int, replies: Seq<Seq<u8>>)
    requires
        0 <= frame <= 0x3ff,
    ensures
        match run(read_plan(frame, 1), replies).outcome() {
            Some(Ok(bytes)) => bytes.len() == 128,
            Some(Err(e)) => e == PSXError::Read,
            None => true,
        },
{
    lemma_read_length(frame, 1, replies);
}

/// A read of the whole card that succeeds hands back 131072 bytes.
pub proof fn lemma_read_all_length(replies: Seq<Seq<u8>>)
    ensures
        match run(read_plan(0, 0x400), replies).outcome() {
            Some(Ok(bytes)) => bytes.len() == 131072,
            Some(Err(e)) => e == PSXError::Read,
            None => true,
        },
{
    lemma_read_length(0, 0x400, replies);
}

/// Replies that are no good use up the attempts of the frame in turn: the
/// third failure in a row ends the transfer with `Read`, fewer leave the
/// same command pending.
pub proof fn lemma_bad_replies(s: TransferView, bad: Seq<Seq<u8>>)
    requires
        s.wf(),
        s.kind == TransferKind::Read,
        !s.finished(),
        forall|i: int| 0 <= i < bad.len() ==> !is_good(#[trigger] bad[i]),
    ensures
        s.attempts + bad.len() >= 3 ==> run(s, bad).outcome() == Some(
            Err::<Seq<u8>, PSXError>(PSXError::Read),
        ),
        s.attempts + bad.len() < 3 ==> run(s, bad) == (TransferView {
            attempts: s.attempts + bad.len(),
            ..s
        }) && run(s, bad).command() == s.command(),
    decreases bad.len(),
{
    if bad.len() > 0 {
        let init = bad.drop_last();
        assert forall|i: int| 0 <= i < init.len() implies !is_good(#[trigger] init[i]) by {
            assert(init[i] == bad[i]);
        }
        lemma_bad_replies(s, init);
        assert(!is_good(bad[bad.len() - 1]));
    }
}

/// A single read whose three replies are all no good makes exactly three
/// exchanges, each with the same read command, and fails with `Read`.
pub proof fn lemma_three_bad_replies(frame: int, r1: Seq<u8>, r2: Seq<u8>, r3: Seq<u8>)
    requires
        0 <= frame <= 0x3ff,
        !is_good(r1),
        !is_good(r2),
        !is_good(r3),
    ensures
        read_plan(frame, 1).command() == Some(read_buffer(frame as u16)),
        run(read_plan(frame, 1), seq![r1]).command() == Some(read_buffer(frame as u16)),
        run(read_plan(frame, 1), seq![r1, r2]).command() == Some(read_buffer(frame as u16)),
        run(read_plan(frame, 1), seq![r1, r2, r3]).command().is_none(),
        run(read_plan(frame, 1), seq![r1, r2, r3]).outcome() == Some(
            Err::<Seq<u8>, PSXError>(PSXError::Read),
        ),
{
    lemma_bad_replies(read_plan(frame, 1), seq![r1]);
    lemma_bad_replies(read_plan(frame, 1), seq![r1, r2]);
    lemma_bad_replies(read_plan(frame, 1), seq![r1, r2, r3]);
}

/// A card whose replies are framed but carry a wrong checksum or a bad
/// trailer: the read makes exactly three exchanges, each with the same
/// read command, and fails with `Read`.
pub proof fn lemma_faulty_replies_fail_read(
    frame: int,
    r1: Seq<u8>,
    r2: Seq<u8>,
    r3: Seq<u8>,
    o1: int,
    o2: int,
    o3: int,
)
    requires
        0 <= frame <= 0x3ff,
        framed_at(r1, o1) && !(checksum_matches(r1, o1) && trailer_good(r1, o1)),
        framed_at(r2, o2) && !(checksum_matches(r2, o2) && trailer_good(r2, o2)),
        framed_at(r3, o3) && !(checksum_matches(r3, o3) && trailer_good(r3, o3)),
    ensures
        read_plan(frame, 1).command() == Some(read_buffer(frame as u16)),
        run(read_plan(frame, 1), seq![r1]).command() == Some(read_buffer(frame as u16)),
        run(read_plan(frame, 1), seq![r1, r2]).command() == Some(read_buffer(frame as u16)),
        run(read_plan(frame, 1), seq![r1, r2, r3]).command().is_none(),
        run(read_plan(frame, 1), seq![r1, r2, r3]).outcome() == Some(
            Err::<Seq<u8>, PSXError>(PSXError::Read),
        ),
{
    lemma_framed_reply(r1, o1);
    lemma_framed_reply(r2, o2);
    lemma_framed_reply(r3, o3);
    lemma_three_bad_replies(frame, r1, r2, r3);
}

/// However many attempts failed before it, fewer than three, the first
/// good reply gives the frame that it carries.
pub proof fn lemma_read_after_retries(frame: int, bad: Seq<Seq<u8>>, good: Seq<u8>)
    requires
        0 <= frame <= 0x3ff,
        bad.len() < 3,
        forall|i: int| 0 <= i < bad.len() ==> !is_good(#[trigger] bad[i]),
        is_good(good),
    ensures
        run(read_plan(frame, 1), bad).outcome().is_none(),
        run(read_plan(frame, 1), bad).command() == Some(read_buffer(frame as u16)),
        run(read_plan(frame, 1), bad.push(good)).outcome() == Some(
            Ok::<Seq<u8>, PSXError>(frame_in(good)),
        ),
{
    let s = read_plan(frame, 1);
    lemma_bad_replies(s, bad);
    assert(bad.push(good).drop_last() =~= bad);
    assert(Seq::<u8>::empty() + frame_in(good) =~= frame_in(good));
}

/// The first valid reply decides a read: where fewer than three replies
/// that are no good come before a reply that is framed, with a matching
/// checksum and the good trailer, the read is still under way before that
/// reply, asks with the same command, and hands back the frame behind
/// that reply's acknowledge pair.
pub proof fn lemma_first_valid_reply(frame: int, bad: Seq<Seq<u8>>, good: Seq<u8>, ofs: int)
    requires
        0 <= frame <= 0x3ff,
        bad.len() < 3,
        forall|i: int| 0 <= i < bad.len() ==> !is_good(#[trigger] bad[i]),
        framed_at(good, ofs),
        checksum_matches(good, ofs),
        trailer_good(good, ofs),
    ensures
        run(read_plan(frame, 1), bad).outcome().is_none(),
        run(read_plan(frame, 1), bad).command() == Some(read_buffer(frame as u16)),
        run(read_plan(frame, 1), bad.push(good)).outcome() == Some(
            Ok::<Seq<u8>, PSXError>(frame_at(good, ofs)),
        ),
{
    lemma_framed_reply(good, ofs);
    lemma_read_after_retries(frame, bad, good);
}

/// Reading a frame again gives the same bytes: where the first good reply
/// of each read carries the same frame, the two reads send the same
/// command and hand back the same bytes, however many attempts each took.
pub proof fn lemma_read_is_repeatable(
    frame: int,
    bad_a: Seq<Seq<u8>>,
    good_a: Seq<u8>,
    bad_b: Seq<Seq<u8>>,
    good_b: Seq<u8>,
)
    requires
        0 <= frame <= 0x3ff,
        bad_a.len() < 3,
        bad_b.len() < 3,
        forall|i: int| 0 <= i < bad_a.len() ==> !is_good(#[trigger] bad_a[i]),
        forall|i: int| 0 <= i < bad_b.len() ==> !is_good(#[trigger] bad_b[i]),
        is_good(good_a),
        is_good(good_b),
        frame_in(good_a) == frame_in(good_b),
    ensures
        run(read_plan(frame, 1), bad_a).command() == run(read_plan(frame, 1), bad_b).command(),
        run(read_plan(frame, 1), bad_a.push(good_a)).outcome() == run(
            read_plan(frame, 1),
            bad_b.push(good_b),
        ).outcome(),
{
    lemma_bad_replies(read_plan(frame, 1), bad_a);
    lemma_bad_replies(read_plan(frame, 1), bad_b);
    lemma_read_after_retries(frame, bad_a, good_a);
    lemma_read_after_retries(frame, bad_b, good_b);
}

/// While the replies are good, a read asks for one frame after the other,
/// in order of address, and gathers the frames in that order.
pub proof fn lemma_read_in_order(offset: int, length: int, replies: Seq<Seq<u8>>)
    requires
        range_on_card(offset, length),
        replies.len() <= length,
        forall|i: int| 0 <= i < replies.len() ==> is_good(#[trigger] replies[i]),
    ensures
        run(read_plan(offset, length), replies) == (TransferView {
            done: replies.len() as int,
            data: frames_in(replies),
            ..read_plan(offset, length)
        }),
        replies.len() < length ==> run(read_plan(offset, length), replies).command() == Some(
            read_buffer((offset + replies.len()) as u16),
        ),
        replies.len() == length ==> run(read_plan(offset, length), replies).outcome() == Some(
            Ok::<Seq<u8>, PSXError>(frames_in(replies)),
        ),
    decreases replies.len(),
{
    if replies.len() > 0 {
        let init = replies.drop_last();
        assert forall|i: int| 0 <= i < init.len() implies is_good(#[trigger] init[i]) by {
            assert(init[i] == replies[i]);
        }
        lemma_read_in_order(offset, length, init);
        assert(is_good(replies[replies.len() - 1]));
    }
}

/// A write sends its data frame by frame, in order of address, whatever
/// the card replies, and hands back nothing when all frames are sent.
pub proof fn lemma_write_in_order(
    offset: int,
    length: int,
    data: Seq<u8>,
    replies: Seq<Seq<u8>>,
)
    requires
        range_on_card(offset, length),
        data.len() == length * 128,
        replies.len() <= length,
    ensures
        run(write_plan(offset, length, data), replies) == (TransferView {
            done: replies.len() as int,
            ..write_plan(offset, length, data)
        }),
        replies.len() < length ==> run(write_plan(offset, length, data), replies).command()
            == Some(
            write_buffer(
                (offset + replies.len()) as u16,
                data.subrange(replies.len() as int * 128, replies.len() as int * 128 + 128),
            ),
        ),
        replies.len() == length ==> run(write_plan(offset, length, data), replies).outcome()
            == Some(Ok::<Seq<u8>, PSXError>(Seq::empty())),
    decreases replies.len(),
{
    if replies.len() > 0 {
        lemma_write_in_order(offset, length, data, replies.drop_last());
    }
}

/// A status request sends the status command once and hands back the
/// reply as it came.
pub proof fn lemma_status_reply(reply: Seq<u8>)
    ensures
        status_plan().command() == Some(status_buffer()),
        run(status_plan(), seq![reply]).outcome() == Some(Ok::<Seq<u8>, PSXError>(reply)),
{
    assert(seq![reply].drop_last() =~= Seq::<Seq<u8>>::empty());
    assert(run(status_plan(), seq![reply].drop_last()) == status_plan());
}

/// Written and read back: the command of a frame write carries the payload
/// at bytes 6 to 133, and a read whose good reply carries those bytes
/// hands back the payload. The acknowledge pair of the reply is the first
/// pair in it: the bytes before it hold none.
pub proof fn lemma_round_trip(
    frame: int,
    payload: Seq<u8>,
    echo: u8,
    lead: Seq<u8>,
    rest: Seq<u8>,
)
    requires
        0 <= frame <= 0x3ff,
        payload.len() == 128,
        forall|e: int| !ends_at(command_ack(), lead, e),
    ensures
        ({
            let sent = write_plan(frame, 1, payload).command();
            let stored = sent->0.subrange(6, 134);
            let reply = good_reply(echo, lead, frame as u16, stored, rest);
            &&& sent == Some(write_buffer(frame as u16, payload))
            &&& stored == payload
            &&& run(read_plan(frame, 1), seq![reply]).outcome() == Some(
                Ok::<Seq<u8>, PSXError>(payload),
            )
        }),
{
    let w = write_plan(frame, 1, payload);
    assert(w.chunk() =~= payload);
    lemma_write_layout(frame as u16, payload);
    let reply = good_reply(echo, lead, frame as u16, payload, rest);
    lemma_good_reply_yields_frame(echo, lead, frame as u16, payload, rest);
    assert(is_good(reply));
    assert(frame_in(reply) == payload);
    assert(Seq::<Seq<u8>>::empty().push(reply) =~= seq![reply]);
    lemma_read_after_retries(frame, Seq::empty(), reply);
}

} // verus!
