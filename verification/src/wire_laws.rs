//! What holds of every exchange, whatever the card does.

use vstd::prelude::*;
use crate::wire::{bit_of, is_output_line, with_bit, ExchangeView, Phase, PinAction, Signal};

verus! {

/// The state after the caller clocked one bit and sampled `level`: two
/// pauses, three drives and the sample.
#[verifier::opaque]
pub open spec fn after_bit(s: ExchangeView, level: bool) -> ExchangeView {
    s.after(Signal::Done).after(Signal::Done).after(Signal::Done).after(Signal::Done).after(
        Signal::Done,
    ).after(Signal::Level(level))
}

/// The state after the caller clocked the eight bits of a byte while the
/// card sent `reply`, released the command line and started the timer.
#[verifier::opaque]
pub open spec fn after_bits(s: ExchangeView, reply: u8) -> ExchangeView {
    let s0 = after_bit(s, bit_of(reply, 0));
    let s1 = after_bit(s0, bit_of(reply, 1));
    let s2 = after_bit(s1, bit_of(reply, 2));
    let s3 = after_bit(s2, bit_of(reply, 3));
    let s4 = after_bit(s3, bit_of(reply, 4));
    let s5 = after_bit(s4, bit_of(reply, 5));
    let s6 = after_bit(s5, bit_of(reply, 6));
    let s7 = after_bit(s6, bit_of(reply, 7));
    s7.after(Signal::Done).after(Signal::Done)
}

/// The state after a whole byte that the card answered with `reply` and
/// acknowledged.
#[verifier::opaque]
pub open spec fn after_byte(s: ExchangeView, reply: u8) -> ExchangeView {
    after_bits(s, reply).after(Signal::Ack { low: true, waited_micros: 0 })
}

/// The state after the card answered and acknowledged each byte of
/// `replies` in turn.
pub open spec fn after_bytes(s: ExchangeView, replies: Seq<u8>) -> ExchangeView
    decreases replies.len(),
{
    if replies.len() == 0 {
        s
    } else {
        after_byte(after_bytes(s, replies.drop_last()), replies.last())
    }
}

/// The state in which the card is selected and the first byte begins.
pub open spec fn selected(input: Seq<u8>) -> ExchangeView {
    ExchangeView::start(input).after(Signal::Done).after(Signal::Done).after(Signal::Done)
}

/// Every step keeps the state well formed, keeps the input, and keeps what
/// was received: the output only ever grows at its end.
pub proof fn lemma_step_keeps(s: ExchangeView, signal: Signal)
    requires
        s.wf(),
    ensures
        s.after(signal).wf(),
        s.after(signal).input == s.input,
        s.output.is_prefix_of(s.after(signal).output),
        s.after(signal).output.len() <= s.output.len() + 1,
        s.phase == Phase::Finished ==> s.after(signal) == s,
{
}

/// The host only ever drives its own lines: the data line and the
/// acknowledge line are left to the card.
pub proof fn lemma_drives_outputs(s: ExchangeView)
    ensures
        match s.pending() {
            PinAction::Drive(line, _) => is_output_line(line),
            _ => true,
        },
{
}

/// A timeout on byte `k` ends the exchange with exactly the `k` bytes
/// received before it.
pub proof fn lemma_timeout_ends(s: ExchangeView, waited_micros: u64)
    requires
        s.wf(),
        s.phase == Phase::AckWait,
        waited_micros > 1_500,
    ensures
        s.after(Signal::Ack { low: false, waited_micros }).phase == Phase::Finished,
        s.after(Signal::Ack { low: false, waited_micros }).output == s.output,
        s.output.len() == s.index,
{
}

/// A poll that finds the line high within the timeout changes nothing: the
/// caller polls again.
pub proof fn lemma_poll_again(s: ExchangeView, waited_micros: u64)
    requires
        s.phase == Phase::AckWait,
        waited_micros <= 1_500,
    ensures
        s.after(Signal::Ack { low: false, waited_micros }) == s,
{
}

/// An acknowledge counts whenever it is seen: the time waited plays no
/// part once the line is low.
pub proof fn lemma_ack_at_any_time(s: ExchangeView, waited_a: u64, waited_b: u64)
    ensures
        s.after(Signal::Ack { low: true, waited_micros: waited_a }) == s.after(
            Signal::Ack { low: true, waited_micros: waited_b },
        ),
{
}

/// Sampling the bits of a byte, least significant first, gives that byte.
pub proof fn lemma_bits_assemble(reply: u8)
    ensures
        with_bit(
            with_bit(
                with_bit(
                    with_bit(
                        with_bit(
                            with_bit(
                                with_bit(with_bit(0u8, 0, bit_of(reply, 0)), 1, bit_of(reply, 1)),
                                2,
                                bit_of(reply, 2),
                            ),
                            3,
                            bit_of(reply, 3),
                        ),
                        4,
                        bit_of(reply, 4),
                    ),
                    5,
                    bit_of(reply, 5),
                ),
                6,
                bit_of(reply, 6),
            ),
            7,
            bit_of(reply, 7),
        ) == reply,
{
    assert(with_bit(
        with_bit(
            with_bit(
                with_bit(
                    with_bit(
                        with_bit(
                            with_bit(with_bit(0u8, 0, bit_of(reply, 0)), 1, bit_of(reply, 1)),
                            2,
                            bit_of(reply, 2),
                        ),
                        3,
                        bit_of(reply, 3),
                    ),
                    4,
                    bit_of(reply, 4),
                ),
                5,
                bit_of(reply, 5),
            ),
            6,
            bit_of(reply, 6),
        ),
        7,
        bit_of(reply, 7),
    ) == reply) by (bit_vector);
}

/// One bit: the sampled level lands in the bit in flight, and the machine
/// moves to the next bit, or behind the eighth to the release.
pub proof fn lemma_after_bit(s: ExchangeView, level: bool)
    requires
        s.wf(),
        s.phase == Phase::PauseLow,
    ensures
        after_bit(s, level) == (if s.bit < 7 {
            ExchangeView { rx: with_bit(s.rx, s.bit, level), bit: (s.bit + 1) as u8, ..s }
        } else {
            ExchangeView { rx: with_bit(s.rx, s.bit, level), phase: Phase::Release, ..s }
        }),
{
    reveal(after_bit);
}

/// One byte: where the card answers `reply` and acknowledges, `reply` is
/// appended to the output and the next byte begins.
pub proof fn lemma_after_byte(s: ExchangeView, reply: u8)
    requires
        s.wf(),
        s.phase == Phase::PauseLow,
        s.bit == 0,
        s.rx == 0,
    ensures
        after_bits(s, reply) == (ExchangeView { rx: reply, bit: 7, phase: Phase::AckWait, ..s }),
        after_byte(s, reply) == (ExchangeView { output: s.output.push(reply), ..s }).at_byte(
            s.index + 1,
        ),
        after_byte(s, reply).wf(),
{
    reveal(after_bits);
    reveal(after_byte);
    let s0 = after_bit(s, bit_of(reply, 0));
    lemma_after_bit(s, bit_of(reply, 0));
    let s1 = after_bit(s0, bit_of(reply, 1));
    lemma_after_bit(s0, bit_of(reply, 1));
    let s2 = after_bit(s1, bit_of(reply, 2));
    lemma_after_bit(s1, bit_of(reply, 2));
    let s3 = after_bit(s2, bit_of(reply, 3));
    lemma_after_bit(s2, bit_of(reply, 3));
    let s4 = after_bit(s3, bit_of(reply, 4));
    lemma_after_bit(s3, bit_of(reply, 4));
    let s5 = after_bit(s4, bit_of(reply, 5));
    lemma_after_bit(s4, bit_of(reply, 5));
    let s6 = after_bit(s5, bit_of(reply, 6));
    lemma_after_bit(s5, bit_of(reply, 6));
    let s7 = after_bit(s6, bit_of(reply, 7));
    lemma_after_bit(s6, bit_of(reply, 7));
    lemma_bits_assemble(reply);
    assert(s7.rx == reply);
    assert(s7 == (ExchangeView { rx: reply, bit: 7, phase: Phase::Release, ..s }));
}

/// Many bytes: where the card answers and acknowledges `replies`, one byte
/// each, the output grows by exactly `replies`, in order.
pub proof fn lemma_after_bytes(s: ExchangeView, replies: Seq<u8>)
    requires
        s.wf(),
        s.phase == Phase::PauseLow,
        s.bit == 0,
        s.rx == 0,
        s.index + replies.len() <= s.input.len(),
    ensures
        after_bytes(s, replies) == (ExchangeView { output: s.output + replies, ..s }).at_byte(
            s.index + replies.len(),
        ),
        after_bytes(s, replies).wf(),
    decreases replies.len(),
{
    if replies.len() == 0 {
        assert(s.output + replies =~= s.output);
    } else {
        let init = replies.drop_last();
        lemma_after_bytes(s, init);
        let mid = after_bytes(s, init);
        lemma_after_byte(mid, replies.last());
        assert((s.output + init).push(replies.last()) =~= s.output + replies);
    }
}

/// A card that answers and acknowledges every byte of the input: the
/// exchange ends by itself, and the output is what the card sent.
pub proof fn lemma_full_exchange(input: Seq<u8>, replies: Seq<u8>)
    requires
        replies.len() == input.len(),
    ensures
        after_bytes(selected(input), replies).phase == Phase::Finished,
        after_bytes(selected(input), replies).output == replies,
{
    if input.len() == 0 {
        assert(replies =~= Seq::<u8>::empty());
    } else {
        lemma_after_bytes(selected(input), replies);
        assert(Seq::<u8>::empty() + replies =~= replies);
    }
}

/// A card that answers and acknowledges `replies.len()` bytes and lets the
/// next one time out: the output is exactly `replies`, whatever was sampled
/// during the byte that timed out.
pub proof fn lemma_early_termination(
    input: Seq<u8>,
    replies: Seq<u8>,
    unacked: u8,
    waited_micros: u64,
)
    requires
        replies.len() < input.len(),
        waited_micros > 1_500,
    ensures
        ({
            let last = after_bits(after_bytes(selected(input), replies), unacked);
            let end = last.after(Signal::Ack { low: false, waited_micros });
            &&& last.phase == Phase::AckWait
            &&& last.index == replies.len()
            &&& end.phase == Phase::Finished
            &&& end.output == replies
        }),
{
    lemma_after_bytes(selected(input), replies);
    assert(Seq::<u8>::empty() + replies =~= replies);
    lemma_after_byte(after_bytes(selected(input), replies), unacked);
}

} // verus!
