//! The DEFLATE engine, which is `miniz_oxide`: the compressor and the
//! decompressor as opaque streaming states, and one call that advances each.

use vstd::prelude::*;

verus! {

/// The streaming decompressor state of `miniz_oxide`. Nothing inside it is
/// visible here.
#[verifier::external_type_specification]
#[verifier::external_body]
pub struct ExInflateState(miniz_oxide::inflate::stream::InflateState);

/// The streaming compressor state of `miniz_oxide`. Nothing inside it is
/// visible here.
#[verifier::external_type_specification]
#[verifier::external_body]
pub struct ExCompressorOxide(miniz_oxide::deflate::core::CompressorOxide);

/// Whether the engine is told that no input will follow.
#[derive(Clone, Copy, Debug, PartialEq, Eq, Structural)]
pub enum Flush {
    /// More input may follow.
    More,
    /// The input given is the last.
    Finish,
}

/// How a call of the engine ended.
#[derive(Clone, Copy, Debug, PartialEq, Eq, Structural)]
pub enum Status {
    /// The engine worked and the stream goes on.
    Going,
    /// The engine reached the end of the DEFLATE stream.
    StreamEnd,
    /// The engine asks for a preset dictionary, which this format has none of.
    NeedDict,
    /// The engine could not go on for want of input or of room.
    BufError,
    /// The engine rejected its input or its parameters.
    Failed,
}

/// What a call of the engine did: how much input it took, how much output it
/// wrote, and how it ended.
#[derive(Clone, Copy, Debug, PartialEq, Eq, Structural)]
pub struct EngineStep {
    /// Bytes taken from the front of the input.
    pub consumed: usize,
    /// Bytes written to the front of the output.
    pub produced: usize,
    /// How the call ended.
    pub status: Status,
}

impl EngineStep {
    /// The counts of a step lie within the buffers it was given.
    pub open spec fn within(self, input_len: nat, output_len: nat) -> bool {
        self.consumed <= input_len && self.produced <= output_len
    }
}

/// What `miniz_oxide`'s streaming decompressor reports when, in state `state`,
/// it is given `input` and room for `room` bytes, and is told by `finish`
/// whether the input is the last.
pub uninterp spec fn inflate_reply(
    state: miniz_oxide::inflate::stream::InflateState,
    input: Seq<u8>,
    room: nat,
    finish: bool,
) -> EngineStep;

/// The bytes that the decompressor writes on that call, to the front of its
/// output.
pub uninterp spec fn inflate_written(
    state: miniz_oxide::inflate::stream::InflateState,
    input: Seq<u8>,
    room: nat,
    finish: bool,
) -> Seq<u8>;

/// The state that the decompressor is in after that call.
pub uninterp spec fn inflate_next(
    state: miniz_oxide::inflate::stream::InflateState,
    input: Seq<u8>,
    room: nat,
    finish: bool,
) -> miniz_oxide::inflate::stream::InflateState;

/// The state that a decompressor in state `state` is put in when it is reset
/// for a raw DEFLATE stream.
pub uninterp spec fn inflate_reset(
    state: miniz_oxide::inflate::stream::InflateState,
) -> miniz_oxide::inflate::stream::InflateState;

/// What `miniz_oxide`'s streaming compressor reports when, in state `state`,
/// it is given `input` and room for `room` bytes, and is told by `finish`
/// whether the input is the last.
pub uninterp spec fn deflate_reply(
    state: miniz_oxide::deflate::core::CompressorOxide,
    input: Seq<u8>,
    room: nat,
    finish: bool,
) -> EngineStep;

/// The bytes that the compressor writes on that call, to the front of its
/// output.
pub uninterp spec fn deflate_written(
    state: miniz_oxide::deflate::core::CompressorOxide,
    input: Seq<u8>,
    room: nat,
    finish: bool,
) -> Seq<u8>;

/// The state that the compressor is in after that call.
pub uninterp spec fn deflate_next(
    state: miniz_oxide::deflate::core::CompressorOxide,
    input: Seq<u8>,
    room: nat,
    finish: bool,
) -> miniz_oxide::deflate::core::CompressorOxide;

/// The state of a compressor that has been made for raw DEFLATE data at the
/// given level and has taken nothing yet.
pub uninterp spec fn deflater_at(level: u8) -> miniz_oxide::deflate::core::CompressorOxide;

/// A fresh decompressor for raw DEFLATE data.
///
/// Trusted. Calls `InflateState::new_boxed` with the raw data format; nothing
/// is claimed of the state.
#[verifier::external_body]
pub(crate) fn new_inflater() -> Box<miniz_oxide::inflate::stream::InflateState> {
    miniz_oxide::inflate::stream::InflateState::new_boxed(miniz_oxide::DataFormat::Raw)
}

/// Puts a decompressor back to the start of a raw DEFLATE stream.
///
/// Trusted. Calls `InflateState::reset` with the raw data format. The contract
/// claims that the state after is decided by the state before.
#[verifier::external_body]
pub(crate) fn reset_inflater(state: &mut Box<miniz_oxide::inflate::stream::InflateState>)
    ensures
        **final(state) == inflate_reset(**old(state)),
{
    state.reset(miniz_oxide::DataFormat::Raw);
}

/// Decompresses from `input` into `output`.
///
/// Trusted. Calls `miniz_oxide::inflate::stream::inflate`. The contract claims
/// that the call is decided by its arguments: what it reports, the bytes it
/// writes to the front of the output and the state it leaves depend on the
/// state before, the input, the room and the flag alone. It claims further that
/// the two counts lie within the input and the output, and that the output
/// keeps its length. What the bytes are, and how the call ends, is the
/// engine's affair.
#[verifier::external_body]
pub(crate) fn run_inflate(
    state: &mut Box<miniz_oxide::inflate::stream::InflateState>,
    input: &[u8],
    output: &mut [u8],
    flush: Flush,
) -> (r: EngineStep)
    ensures
        r == inflate_reply(**old(state), input@, old(output)@.len(), flush is Finish),
        r.within(input@.len(), old(output)@.len()),
        final(output)@.len() == old(output)@.len(),
        final(output)@.subrange(0, r.produced as int) == inflate_written(
            **old(state),
            input@,
            old(output)@.len(),
            flush is Finish,
        ),
        **final(state) == inflate_next(
            **old(state),
            input@,
            old(output)@.len(),
            flush is Finish,
        ),
{
    let mz_flush = match flush {
        Flush::More => miniz_oxide::MZFlush::None,
        Flush::Finish => miniz_oxide::MZFlush::Finish,
    };
    let res = miniz_oxide::inflate::stream::inflate(state, input, output, mz_flush);
    let status = match res.status {
        Ok(miniz_oxide::MZStatus::Ok) => Status::Going,
        Ok(miniz_oxide::MZStatus::StreamEnd) => Status::StreamEnd,
        Ok(miniz_oxide::MZStatus::NeedDict) => Status::NeedDict,
        Err(miniz_oxide::MZError::Buf) => Status::BufError,
        Err(_) => Status::Failed,
    };
    EngineStep { consumed: res.bytes_consumed, produced: res.bytes_written, status }
}

/// A fresh compressor that writes raw DEFLATE data at the given level.
///
/// Trusted. Calls `CompressorOxide::default` and `set_format_and_level` with
/// the raw data format. The contract claims that the state is decided by the
/// level.
#[verifier::external_body]
pub(crate) fn new_deflater(level: u8) -> (r: Box<miniz_oxide::deflate::core::CompressorOxide>)
    ensures
        *r == deflater_at(level),
{
    let mut inner: Box<miniz_oxide::deflate::core::CompressorOxide> = Box::default();
    inner.set_format_and_level(miniz_oxide::DataFormat::Raw, level);
    inner
}

/// Compresses from `input` into `output`.
///
/// Trusted. Calls `miniz_oxide::deflate::stream::deflate`. The contract claims
/// that the call is decided by its arguments: what it reports, the bytes it
/// writes to the front of the output and the state it leaves depend on the
/// state before, the input, the room and the flag alone. It claims further that
/// the two counts lie within the input and the output, and that the output
/// keeps its length.
#[verifier::external_body]
pub(crate) fn run_deflate(
    state: &mut Box<miniz_oxide::deflate::core::CompressorOxide>,
    input: &[u8],
    output: &mut [u8],
    flush: Flush,
) -> (r: EngineStep)
    ensures
        r == deflate_reply(**old(state), input@, old(output)@.len(), flush is Finish),
        r.within(input@.len(), old(output)@.len()),
        final(output)@.len() == old(output)@.len(),
        final(output)@.subrange(0, r.produced as int) == deflate_written(
            **old(state),
            input@,
            old(output)@.len(),
            flush is Finish,
        ),
        **final(state) == deflate_next(
            **old(state),
            input@,
            old(output)@.len(),
            flush is Finish,
        ),
{
    let mz_flush = match flush {
        Flush::More => miniz_oxide::MZFlush::None,
        Flush::Finish => miniz_oxide::MZFlush::Finish,
    };
    let res = miniz_oxide::deflate::stream::deflate(state, input, output, mz_flush);
    let status = match res.status {
        Ok(miniz_oxide::MZStatus::Ok) => Status::Going,
        Ok(miniz_oxide::MZStatus::StreamEnd) => Status::StreamEnd,
        Ok(miniz_oxide::MZStatus::NeedDict) => Status::NeedDict,
        Err(miniz_oxide::MZError::Buf) => Status::BufError,
        Err(_) => Status::Failed,
    };
    EngineStep { consumed: res.bytes_consumed, produced: res.bytes_written, status }
}

} // verus!
