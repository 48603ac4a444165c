//! The bit-banged master, as a machine that never touches a pin.
//!
//! An exchange sends one command buffer and gathers what the card sends
//! back. The machine says which pin operation comes next; the caller
//! performs it and reports what it saw. Bytes go out and come in least
//! significant bit first. The command line changes while the clock is low,
//! and the data line is sampled right after the clock has gone high. After
//! each byte the card must pull the acknowledge line low within the
//! timeout, or the exchange ends with the bytes gathered so far.

use vstd::prelude::*;

verus! {

/// Pause after the select line went high, in nanoseconds.
pub const SETTLE_NANOS: u64 = 20_000_000;

/// Pause before each clock edge, in nanoseconds.
pub const HALF_PERIOD_NANOS: u64 = 2_000;

/// How long the card may take to acknowledge a byte, in microseconds.
pub const ACK_TIMEOUT_MICROS: u64 = 1_500;

/// The five lines between host and card.
#[derive(Clone, Copy, Debug, PartialEq, Eq, Structural)]
pub enum Line {
    /// Data, card to host.
    Dat,
    /// Command, host to card.
    Cmd,
    /// Chip select, low while the card is addressed.
    Sel,
    /// Clock, idle high.
    Clk,
    /// Acknowledge, pulled low by the card after a byte.
    Ack,
}

/// The default pin of each line, in BCM numbering.
pub open spec fn pin_of(line: Line) -> u8 {
    match line {
        Line::Dat => 23,
        Line::Cmd => 24,
        Line::Sel => 17,
        Line::Clk => 27,
        Line::Ack => 22,
    }
}

/// Whether the host drives a line: command, select and clock.
pub open spec fn is_output_line(line: Line) -> bool {
    line == Line::Cmd || line == Line::Sel || line == Line::Clk
}

/// The pin of each line in the older wiring, in BCM numbering.
pub open spec fn legacy_pin_of(line: Line) -> u8 {
    match line {
        Line::Dat => 15,
        Line::Cmd => 14,
        Line::Sel => 2,
        Line::Clk => 3,
        Line::Ack => 4,
    }
}

impl Line {
    /// The pin of this line in the older wiring, in BCM numbering.
    pub fn legacy_pin(self) -> (p: u8)
        ensures
            p == legacy_pin_of(self),
    {
        match self {
            Line::Dat => 15,
            Line::Cmd => 14,
            Line::Sel => 2,
            Line::Clk => 3,
            Line::Ack => 4,
        }
    }

    /// The default pin of this line, in BCM numbering.
    pub fn pin(self) -> (p: u8)
        ensures
            p == pin_of(self),
    {
        match self {
            Line::Dat => 23,
            Line::Cmd => 24,
            Line::Sel => 17,
            Line::Clk => 27,
            Line::Ack => 22,
        }
    }

    /// Whether the host drives this line.
    pub fn is_output(self) -> (b: bool)
        ensures
            b == is_output_line(self),
    {
        match self {
            Line::Cmd | Line::Sel | Line::Clk => true,
            Line::Dat | Line::Ack => false,
        }
    }

    /// Whether this line is an input that needs the host's pull-up: the
    /// card drives the data line open-collector.
    pub fn needs_pull_up(self) -> (b: bool)
        ensures
            b == (self == Line::Dat),
    {
        match self {
            Line::Dat => true,
            _ => false,
        }
    }
}

/// One pin operation for the caller to perform.
#[derive(Clone, Copy, Debug, PartialEq, Eq, Structural)]
pub enum PinAction {
    /// Drive an output line high (`true`) or low (`false`).
    Drive(Line, bool),
    /// Pause for this many nanoseconds.
    Sleep(u64),
    /// Read the data line; report `Signal::Level`.
    SampleDat,
    /// Note the time: the wait for the acknowledge begins.
    StartTimer,
    /// Read the acknowledge line and the time waited; report `Signal::Ack`.
    PollAck,
    /// Nothing more to do: the exchange is over.
    Finish,
}

/// What the caller reports after an operation.
#[derive(Clone, Copy, Debug, PartialEq, Eq, Structural)]
pub enum Signal {
    /// A drive, a pause or the start of the timer was carried out.
    Done,
    /// The data line was read: `true` for high.
    Level(bool),
    /// The acknowledge line was read, this long after the timer started.
    Ack { low: bool, waited_micros: u64 },
}

/// Where an exchange stands: the operation that comes next.
#[derive(Clone, Copy, Debug, PartialEq, Eq, Structural)]
pub enum Phase {
    /// Drive the select line high.
    Deselect,
    /// Let the card settle.
    Settle,
    /// Drive the select line low.
    Select,
    /// Pause before the clock falls.
    PauseLow,
    /// Drive the clock low.
    ClockLow,
    /// Put the current bit on the command line.
    Present,
    /// Pause before the clock rises.
    PauseHigh,
    /// Drive the clock high.
    ClockHigh,
    /// Sample the data line.
    Sample,
    /// Drive the command line low behind the eighth bit.
    Release,
    /// Start the timer of the acknowledge wait.
    AckStart,
    /// Poll the acknowledge line.
    AckWait,
    /// The exchange is over.
    Finished,
}

/// Bit `i` of `byte`, counted from the least significant.
pub open spec fn bit_of(byte: u8, i: u8) -> bool {
    (byte >> i) & 1u8 == 1u8
}

/// `rx` with the sampled level in bit `i`.
pub open spec fn with_bit(rx: u8, i: u8, level: bool) -> u8 {
    if level {
        rx | (1u8 << i)
    } else {
        rx
    }
}

/// The state of an exchange, as plain values.
pub struct ExchangeView {
    /// The bytes to send.
    pub input: Seq<u8>,
    /// Index of the byte in flight.
    pub index: int,
    /// Index of the bit in flight.
    pub bit: u8,
    /// The bits sampled so far for the byte in flight.
    pub rx: u8,
    /// The bytes received and acknowledged so far.
    pub output: Seq<u8>,
    /// The operation that comes next.
    pub phase: Phase,
}

impl ExchangeView {
    /// The state before anything happened.
    pub open spec fn start(input: Seq<u8>) -> ExchangeView {
        ExchangeView {
            input,
            index: 0,
            bit: 0,
            rx: 0,
            output: Seq::empty(),
            phase: Phase::Deselect,
        }
    }

    /// What holds of every state that an exchange can reach.
    pub open spec fn wf(self) -> bool {
        &&& 0 <= self.index <= self.input.len()
        &&& self.bit < 8
        &&& self.output.len() == self.index
        &&& (self.phase == Phase::Deselect || self.phase == Phase::Settle || self.phase
            == Phase::Select) ==> self.index == 0
        &&& (self.phase != Phase::Deselect && self.phase != Phase::Settle && self.phase
            != Phase::Select && self.phase != Phase::Finished) ==> self.index < self.input.len()
    }

    /// The state in which byte `index` begins.
    pub open spec fn at_byte(self, index: int) -> ExchangeView {
        if index < self.input.len() {
            ExchangeView { index, bit: 0, rx: 0, phase: Phase::PauseLow, ..self }
        } else {
            ExchangeView { index, bit: 0, rx: 0, phase: Phase::Finished, ..self }
        }
    }

    /// The operation that comes next.
    pub open spec fn pending(self) -> PinAction {
        match self.phase {
            Phase::Deselect => PinAction::Drive(Line::Sel, true),
            Phase::Settle => PinAction::Sleep(20_000_000),
            Phase::Select => PinAction::Drive(Line::Sel, false),
            Phase::PauseLow => PinAction::Sleep(2_000),
            Phase::ClockLow => PinAction::Drive(Line::Clk, false),
            Phase::Present => PinAction::Drive(Line::Cmd, bit_of(self.input[self.index], self.bit)),
            Phase::PauseHigh => PinAction::Sleep(2_000),
            Phase::ClockHigh => PinAction::Drive(Line::Clk, true),
            Phase::Sample => PinAction::SampleDat,
            Phase::Release => PinAction::Drive(Line::Cmd, false),
            Phase::AckStart => PinAction::StartTimer,
            Phase::AckWait => PinAction::PollAck,
            Phase::Finished => PinAction::Finish,
        }
    }

    /// The state after the caller reported `signal`. A signal that does not
    /// answer the pending operation changes nothing.
    pub open spec fn after(self, signal: Signal) -> ExchangeView {
        match (self.phase, signal) {
            (Phase::Deselect, Signal::Done) => ExchangeView { phase: Phase::Settle, ..self },
            (Phase::Settle, Signal::Done) => ExchangeView { phase: Phase::Select, ..self },
            (Phase::Select, Signal::Done) => self.at_byte(0),
            (Phase::PauseLow, Signal::Done) => ExchangeView { phase: Phase::ClockLow, ..self },
            (Phase::ClockLow, Signal::Done) => ExchangeView { phase: Phase::Present, ..self },
            (Phase::Present, Signal::Done) => ExchangeView { phase: Phase::PauseHigh, ..self },
            (Phase::PauseHigh, Signal::Done) => ExchangeView { phase: Phase::ClockHigh, ..self },
            (Phase::ClockHigh, Signal::Done) => ExchangeView { phase: Phase::Sample, ..self },
            (Phase::Sample, Signal::Level(level)) => {
                let rx = with_bit(self.rx, self.bit, level);
                if self.bit < 7 {
                    ExchangeView { rx, bit: (self.bit + 1) as u8, phase: Phase::PauseLow, ..self }
                } else {
                    ExchangeView { rx, phase: Phase::Release, ..self }
                }
            },
            (Phase::Release, Signal::Done) => ExchangeView { phase: Phase::AckStart, ..self },
            (Phase::AckStart, Signal::Done) => ExchangeView { phase: Phase::AckWait, ..self },
            (Phase::AckWait, Signal::Ack { low, waited_micros }) => {
                if low {
                    ExchangeView { output: self.output.push(self.rx), ..self }.at_byte(
                        self.index + 1,
                    )
                } else if waited_micros > 1_500 {
                    ExchangeView { phase: Phase::Finished, ..self }
                } else {
                    self
                }
            },
            _ => self,
        }
    }
}

/// One exchange of a command buffer with the card.
#[derive(Debug)]
pub struct Exchange {
    input: Vec<u8>,
    index: usize,
    bit: u8,
    rx: u8,
    output: Vec<u8>,
    phase: Phase,
}

impl View for Exchange {
    type V = ExchangeView;

    closed spec fn view(&self) -> ExchangeView {
        ExchangeView {
            input: self.input@,
            index: self.index as int,
            bit: self.bit,
            rx: self.rx,
            output: self.output@,
            phase: self.phase,
        }
    }
}

/// Starts to send `input` and to receive as many bytes, least significant
/// bit first.
pub fn send_receive(input: Vec<u8>) -> (x: Exchange)
    ensures
        x@ == ExchangeView::start(input@),
        x@.wf(),
{
    Exchange { input, index: 0, bit: 0, rx: 0, output: Vec::new(), phase: Phase::Deselect }
}

impl Exchange {
    #[verifier::type_invariant]
    spec fn inv(self) -> bool {
        self@.wf()
    }

    /// The operation that the caller performs next.
    pub fn pending(&self) -> (action: PinAction)
        ensures
            self@.wf(),
            action == self@.pending(),
    {
        proof {
            use_type_invariant(self);
        }
        match self.phase {
            Phase::Deselect => PinAction::Drive(Line::Sel, true),
            Phase::Settle => PinAction::Sleep(SETTLE_NANOS),
            Phase::Select => PinAction::Drive(Line::Sel, false),
            Phase::PauseLow => PinAction::Sleep(HALF_PERIOD_NANOS),
            Phase::ClockLow => PinAction::Drive(Line::Clk, false),
            Phase::Present => {
                let byte = self.input[self.index];
                let bit = self.bit;
                assert(bit < 8);
                PinAction::Drive(Line::Cmd, (byte >> bit) & 1u8 == 1u8)
            },
            Phase::PauseHigh => PinAction::Sleep(HALF_PERIOD_NANOS),
            Phase::ClockHigh => PinAction::Drive(Line::Clk, true),
            Phase::Sample => PinAction::SampleDat,
            Phase::Release => PinAction::Drive(Line::Cmd, false),
            Phase::AckStart => PinAction::StartTimer,
            Phase::AckWait => PinAction::PollAck,
            Phase::Finished => PinAction::Finish,
        }
    }

    /// Whether the exchange is over.
    pub fn is_finished(&self) -> (b: bool)
        ensures
            b == (self@.phase == Phase::Finished),
    {
        match self.phase {
            Phase::Finished => true,
            _ => false,
        }
    }

    /// Takes in what the caller saw and moves on.
    pub fn signal(self, signal: Signal) -> (next: Exchange)
        ensures
            self@.wf(),
            next@ == self@.after(signal),
            next@.wf(),
    {
        proof {
            use_type_invariant(&self);
        }
        let Exchange { input, index, bit, rx, mut output, phase } = self;
        match (phase, signal) {
            (Phase::Deselect, Signal::Done) => Exchange {
                input,
                index,
                bit,
                rx,
                output,
                phase: Phase::Settle,
            },
            (Phase::Settle, Signal::Done) => Exchange {
                input,
                index,
                bit,
                rx,
                output,
                phase: Phase::Select,
            },
            (Phase::Select, Signal::Done) => {
                let phase = if input.len() > 0 {
                    Phase::PauseLow
                } else {
                    Phase::Finished
                };
                Exchange { input, index: 0, bit: 0, rx: 0, output, phase }
            },
            (Phase::PauseLow, Signal::Done) => Exchange {
                input,
                index,
                bit,
                rx,
                output,
                phase: Phase::ClockLow,
            },
            (Phase::ClockLow, Signal::Done) => Exchange {
                input,
                index,
                bit,
                rx,
                output,
                phase: Phase::Present,
            },
            (Phase::Present, Signal::Done) => Exchange {
                input,
                index,
                bit,
                rx,
                output,
                phase: Phase::PauseHigh,
            },
            (Phase::PauseHigh, Signal::Done) => Exchange {
                input,
                index,
                bit,
                rx,
                output,
                phase: Phase::ClockHigh,
            },
            (Phase::ClockHigh, Signal::Done) => Exchange {
                input,
                index,
                bit,
                rx,
                output,
                phase: Phase::Sample,
            },
            (Phase::Sample, Signal::Level(level)) => {
                let rx = if level {
                    rx | (1u8 << bit)
                } else {
                    rx
                };
                if bit < 7 {
                    Exchange { input, index, bit: bit + 1, rx, output, phase: Phase::PauseLow }
                } else {
                    Exchange { input, index, bit, rx, output, phase: Phase::Release }
                }
            },
            (Phase::Release, Signal::Done) => Exchange {
                input,
                index,
                bit,
                rx,
                output,
                phase: Phase::AckStart,
            },
            (Phase::AckStart, Signal::Done) => Exchange {
                input,
                index,
                bit,
                rx,
                output,
                phase: Phase::AckWait,
            },
            (Phase::AckWait, Signal::Ack { low, waited_micros }) => {
                if low {
                    assert(index < input.len());
                    output.push(rx);
                    let index = index + 1;
                    let phase = if index < input.len() {
                        Phase::PauseLow
                    } else {
                        Phase::Finished
                    };
                    Exchange { input, index, bit: 0, rx: 0, output, phase }
                } else if waited_micros > ACK_TIMEOUT_MICROS {
                    Exchange { input, index, bit, rx, output, phase: Phase::Finished }
                } else {
                    Exchange { input, index, bit, rx, output, phase }
                }
            },
            _ => Exchange { input, index, bit, rx, output, phase },
        }
    }

    /// The bytes received and acknowledged so far; once the exchange is
    /// over, the card's whole response.
    pub fn received(self) -> (out: Vec<u8>)
        ensures
            out@ == self@.output,
            out@.len() <= self@.input.len(),
    {
        proof {
            use_type_invariant(&self);
        }
        self.output
    }
}

} // verus!
