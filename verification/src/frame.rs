//! The frame layer: a byte stream in, frame payloads out.
//!
//! A frame on the wire is the start byte `0x32`, a big-endian 16-bit size,
//! the payload, a big-endian CRC-16 of the payload and the end byte `0x34`.
//! The size counts itself, the payload and the CRC, so it is the payload
//! length plus four.

use vstd::prelude::*;
use crate::bounded::{
    FrameData, frame_bytes, frame_data_new, frame_data_clear, frame_data_push, frame_data_slice,
};
use crate::wire::{be16, u16_from_be};

verus! {

/// The longest payload that a frame may carry.
pub const MAX_FRAME_SIZE: usize = 1024;

pub const FRAME_START: u8 = 0x32;

pub const FRAME_END: u8 = 0x34;

#[derive(Debug, Clone, Copy, PartialEq, Eq, Structural)]
#[allow(inconsistent_fields)]
pub enum FrameError {
    /// The declared size cannot hold its own four bytes of size and CRC.
    FrameTooShort { size: u16 },
    /// The declared size leaves more than `MAX_FRAME_SIZE` bytes of payload.
    FrameTooLong { size: u16 },
    /// The CRC on the wire differs from the CRC of the payload received.
    BadCrc { received: u16, expected: u16 },
    /// The byte after the CRC is not the end byte.
    BadFrameEnd { received: u8 },
}

/// Where the parser stands inside a frame.
#[derive(Debug, Clone, Copy, PartialEq, Eq, Structural)]
pub enum State {
    Start,
    SizeHi,
    SizeLo { size_hi: u8 },
    Data { remain: usize },
    CrcHi,
    CrcLo { crc_hi: u8 },
    End,
}

/// What one byte did to the parser.
#[derive(Debug, Clone, Copy, PartialEq, Eq, Structural)]
pub enum Transition {
    Next(State),
    Complete,
    Error(FrameError),
}

/// One shift step of the CRC register.
pub open spec fn crc_shift(crc: u16) -> u16 {
    if crc & 0x8000 != 0 {
        (crc << 1) ^ 0x1021
    } else {
        crc << 1
    }
}

/// `n` shift steps of the CRC register.
pub open spec fn crc_shifts(crc: u16, n: nat) -> u16
    decreases n,
{
    if n == 0 {
        crc
    } else {
        crc_shift(crc_shifts(crc, (n - 1) as nat))
    }
}

/// The CRC register after it has taken in one more byte.
pub open spec fn crc_update(crc: u16, byte: u8) -> u16 {
    crc_shifts(crc ^ ((byte as u16) << 8), 8)
}

/// CRC-16 with polynomial `0x1021`, initial value 0, no reflection and no
/// final XOR, over `data`.
pub open spec fn crc16_spec(data: Seq<u8>) -> u16
    decreases data.len(),
{
    if data.len() == 0 {
        0
    } else {
        crc_update(crc16_spec(data.drop_last()), data.last())
    }
}

pub fn crc16(data: &[u8]) -> (crc: u16)
    ensures
        crc == crc16_spec(data@),
{
    let mut crc: u16 = 0;
    let mut i: usize = 0;
    while i < data.len()
        invariant
            i <= data.len(),
            crc == crc16_spec(data@.subrange(0, i as int)),
        decreases data.len() - i,
    {
        let ghost before = crc;
        crc = crc ^ ((data[i] as u16) << 8);
        let ghost mixed = crc;
        let mut k: u8 = 0;
        while k < 8
            invariant
                k <= 8,
                crc == crc_shifts(mixed, k as nat),
            decreases 8 - k,
        {
            if (crc & 0x8000) != 0 {
                crc = (crc << 1) ^ 0x1021;
            } else {
                crc = crc << 1;
            }
            k = k + 1;
        }
        proof {
            let taken = data@.subrange(0, i as int + 1);
            assert(taken.drop_last() =~= data@.subrange(0, i as int));
            assert(taken.last() == data@[i as int]);
        }
        i = i + 1;
    }
    assert(data@.subrange(0, i as int) =~= data@);
    crc
}

/// The parser as a value: its state and the payload bytes gathered so far.
pub struct ParserModel {
    pub state: State,
    pub buffer: Seq<u8>,
}

/// What feeding one byte reports: nothing yet, a completed payload, or an
/// error after which the parser hunts for the next start byte.
pub type FeedResult = Result<Option<Seq<u8>>, FrameError>;

impl ParserModel {
    /// A parser that waits for a start byte.
    pub open spec fn fresh() -> ParserModel {
        ParserModel { state: State::Start, buffer: Seq::empty() }
    }

    /// While payload bytes are owed, at least one is, and the buffer has room
    /// for all of them.
    pub open spec fn wf(self) -> bool {
        &&& self.buffer.len() <= MAX_FRAME_SIZE
        &&& self.state matches State::Data { remain } ==> 1 <= remain && self.buffer.len() + remain
            <= MAX_FRAME_SIZE
    }
}

/// The state in which `remain` payload bytes are still owed.
pub open spec fn data_state(remain: int) -> State {
    if remain > 0 {
        State::Data { remain: remain as usize }
    } else {
        State::CrcHi
    }
}

/// The transition that `byte` causes in state `state` with `buffer` gathered,
/// and the buffer afterwards.
pub open spec fn transition(state: State, buffer: Seq<u8>, byte: u8) -> (Transition, Seq<u8>) {
    match state {
        State::Start => if byte == FRAME_START {
            (Transition::Next(State::SizeHi), buffer)
        } else {
            (Transition::Next(State::Start), buffer)
        },
        State::SizeHi => (Transition::Next(State::SizeLo { size_hi: byte }), buffer),
        State::SizeLo { size_hi } => {
            let size = be16(size_hi, byte);
            if size < 4 {
                (Transition::Error(FrameError::FrameTooShort { size }), buffer)
            } else if size - 4 > MAX_FRAME_SIZE {
                (Transition::Error(FrameError::FrameTooLong { size }), buffer)
            } else {
                (Transition::Next(data_state(size - 4)), Seq::empty())
            }
        },
        State::Data { remain } => (Transition::Next(data_state(remain - 1)), buffer.push(byte)),
        State::CrcHi => (Transition::Next(State::CrcLo { crc_hi: byte }), buffer),
        State::CrcLo { crc_hi } => {
            let received = be16(crc_hi, byte);
            let expected = crc16_spec(buffer);
            if received != expected {
                (Transition::Error(FrameError::BadCrc { received, expected }), buffer)
            } else {
                (Transition::Next(State::End), buffer)
            }
        },
        State::End => if byte == FRAME_END {
            (Transition::Complete, buffer)
        } else {
            (Transition::Error(FrameError::BadFrameEnd { received: byte }), buffer)
        },
    }
}

/// The parser after it was fed `byte`.
pub open spec fn step(m: ParserModel, byte: u8) -> ParserModel {
    let (t, buffer) = transition(m.state, m.buffer, byte);
    match t {
        Transition::Next(state) => ParserModel { state, buffer },
        Transition::Complete => ParserModel { state: State::Start, buffer },
        Transition::Error(_) => ParserModel { state: State::Start, buffer },
    }
}

/// What the parser reports when it is fed `byte`.
pub open spec fn step_result(m: ParserModel, byte: u8) -> FeedResult {
    let (t, buffer) = transition(m.state, m.buffer, byte);
    match t {
        Transition::Next(_) => Ok(None),
        Transition::Complete => Ok(Some(buffer)),
        Transition::Error(err) => Err(err),
    }
}

/// The parser after it was fed all of `bytes`, first to last.
pub open spec fn run(m: ParserModel, bytes: Seq<u8>) -> ParserModel
    decreases bytes.len(),
{
    if bytes.len() == 0 {
        m
    } else {
        step(run(m, bytes.drop_last()), bytes.last())
    }
}

/// What the parser reported for each of `bytes`, first to last.
pub open spec fn run_results(m: ParserModel, bytes: Seq<u8>) -> Seq<FeedResult>
    decreases bytes.len(),
{
    if bytes.len() == 0 {
        Seq::empty()
    } else {
        run_results(m, bytes.drop_last()).push(
            step_result(run(m, bytes.drop_last()), bytes.last()),
        )
    }
}

fn next_data_state(remain: usize) -> (state: State)
    ensures
        state == data_state(remain as int),
{
    if remain > 0 {
        State::Data { remain }
    } else {
        State::CrcHi
    }
}

pub fn feed_byte(state: State, buffer: &mut FrameData, byte: u8) -> (t: Transition)
    requires
        (ParserModel { state, buffer: frame_bytes(*old(buffer)) }).wf(),
    ensures
        (t, frame_bytes(*final(buffer))) == transition(state, frame_bytes(*old(buffer)), byte),
{
    match state {
        State::Start => {
            if byte == FRAME_START {
                Transition::Next(State::SizeHi)
            } else {
                Transition::Next(State::Start)
            }
        },
        State::SizeHi => Transition::Next(State::SizeLo { size_hi: byte }),
        State::SizeLo { size_hi } => {
            let size = u16_from_be([size_hi, byte]);
            // the size on the wire counts its own two bytes and the CRC
            if size < 4 {
                return Transition::Error(FrameError::FrameTooShort { size });
            }
            let remain = (size - 4) as usize;
            if remain > MAX_FRAME_SIZE {
                return Transition::Error(FrameError::FrameTooLong { size });
            }
            frame_data_clear(buffer);
            Transition::Next(next_data_state(remain))
        },
        State::Data { remain } => {
            let pushed = frame_data_push(buffer, byte);
            assert(pushed);
            Transition::Next(next_data_state(remain - 1))
        },
        State::CrcHi => Transition::Next(State::CrcLo { crc_hi: byte }),
        State::CrcLo { crc_hi } => {
            let received = u16_from_be([crc_hi, byte]);
            let expected = crc16(frame_data_slice(buffer));
            if received != expected {
                return Transition::Error(FrameError::BadCrc { received, expected });
            }
            Transition::Next(State::End)
        },
        State::End => {
            if byte == FRAME_END {
                Transition::Complete
            } else {
                Transition::Error(FrameError::BadFrameEnd { received: byte })
            }
        },
    }
}

/// Streaming frame parser.
pub struct FrameParser {
    state: State,
    buffer: FrameData,
}

impl FrameParser {
    pub closed spec fn view(&self) -> ParserModel {
        ParserModel { state: self.state, buffer: frame_bytes(self.buffer) }
    }

    /// The parser's state and buffer fit together: see [`ParserModel::wf`].
    pub open spec fn wf(&self) -> bool {
        self@.wf()
    }

    pub fn new() -> (parser: Self)
        ensures
            parser@ == ParserModel::fresh(),
            parser.wf(),
    {
        FrameParser { state: State::Start, buffer: frame_data_new() }
    }

    /// Feeds one byte. Returns the payload when the byte completes a frame,
    /// and the error when the byte shows the frame to be broken; after either
    /// the parser waits for the next start byte.
    pub fn feed(&mut self, byte: u8) -> (r: Result<Option<&FrameData>, FrameError>)
        requires
            old(self).wf(),
        ensures
            final(self).wf(),
            final(self)@ == step(old(self)@, byte),
            match r {
                Ok(None) => step_result(old(self)@, byte) == Ok::<Option<Seq<u8>>, FrameError>(
                    None,
                ),
                Ok(Some(data)) => step_result(old(self)@, byte) == Ok::<
                    Option<Seq<u8>>,
                    FrameError,
                >(Some(frame_bytes(*data))),
                Err(err) => step_result(old(self)@, byte) == Err::<Option<Seq<u8>>, FrameError>(
                    err,
                ),
            },
    {
        let state = self.state;
        self.state = State::Start;
        match feed_byte(state, &mut self.buffer, byte) {
            Transition::Next(state) => {
                self.state = state;
                Ok(None)
            },
            Transition::Complete => {
                self.state = State::Start;
                Ok(Some(&self.buffer))
            },
            Transition::Error(err) => {
                self.state = State::Start;
                Err(err)
            },
        }
    }
}

impl Default for FrameParser {
    fn default() -> (parser: Self)
        ensures
            parser@ == ParserModel::fresh(),
            parser.wf(),
    {
        FrameParser::new()
    }
}

} // verus!
