//! The decoder: a member state machine that braids header parsing, DEFLATE
//! decoding, checksum accumulation and trailer validation, for one member or
//! for every member of a stream.

use crate::bytes::{fill, finish, le32};
use crate::checksum::{crc32, len32, Crc};
use crate::drive::{takes_from, Action, Feed, Fetched, ReadStep};
use crate::engine::{
    inflate_next, inflate_reply, inflate_reset, inflate_written, new_inflater, reset_inflater,
    run_inflate, EngineStep, Flush, Status,
};
use crate::error::GzError;
use crate::header::{header_of, GzHeader, GzHeaderView, HeaderParse};
use crate::parser::{read_gz_header2, HeaderParser, Progress};
use vstd::prelude::*;
use vstd::slice::slice_subrange;

verus! {

/// Where the decoder stands in a member.
#[derive(Clone, Copy, Debug)]
pub enum GzState {
    /// The header is being parsed.
    ParsingHeader,
    /// The DEFLATE body is being decoded.
    Body,
    /// The eight trailer bytes are being filled: how many are in, and the bytes.
    ParsingTrailer(usize, [u8; 8]),
    /// An error waits to be reported, once.
    Failed(GzError),
    /// Nothing more will come.
    Ended,
}

/// The decoder's state as contracts see it.
pub enum Phase {
    /// The header is being parsed.
    Header,
    /// The DEFLATE body is being decoded.
    Body,
    /// The trailer is being read; these are its bytes so far.
    Trailer(Seq<u8>),
    /// An error waits to be reported, once.
    Failed(GzError),
    /// Nothing more will come.
    Ended,
}

impl View for GzState {
    type V = Phase;

    open spec fn view(&self) -> Phase {
        match *self {
            GzState::ParsingHeader => Phase::Header,
            GzState::Body => Phase::Body,
            GzState::ParsingTrailer(pos, buf) => Phase::Trailer(buf@.subrange(0, pos as int)),
            GzState::Failed(e) => Phase::Failed(e),
            GzState::Ended => Phase::Ended,
        }
    }
}

/// The mathematical content of a decoder: everything that decides what its
/// next call does. The header parser is shown by the bytes it has taken, which
/// decide what it does next; the reader, which the decoder holds and never
/// uses, has a spec function of its own.
pub struct DecoderView {
    /// Where the decoder stands.
    pub state: Phase,
    /// Whether a member that follows the current one is decoded too.
    pub multi: bool,
    /// The header bytes taken so far of the member whose header is being parsed.
    pub parsing: Seq<u8>,
    /// The header of the current member, once it has been parsed.
    pub header: Option<GzHeaderView>,
    /// The decompressed bytes of the current member that were handed out so far.
    pub output: Seq<u8>,
    /// The state of the DEFLATE engine.
    pub engine: miniz_oxide::inflate::stream::InflateState,
}

impl DecoderView {
    /// What holds of every decoder: while the header is being parsed, the bytes
    /// taken are no complete header yet and no record is known; while the body
    /// or the trailer is read, the record is known; a trailer has eight bytes.
    pub open spec fn valid(self) -> bool {
        match self.state {
            Phase::Header => header_of(self.parsing) is Incomplete && self.header is None,
            Phase::Body => self.header is Some,
            Phase::Trailer(got) => got.len() <= 8 && self.header is Some,
            Phase::Failed(_) => true,
            Phase::Ended => true,
        }
    }
}

/// The decoder at the start of a member, nothing read yet, with its engine in
/// state `engine`.
pub open spec fn fresh(
    multi: bool,
    engine: miniz_oxide::inflate::stream::InflateState,
) -> DecoderView {
    DecoderView {
        state: Phase::Header,
        multi,
        parsing: Seq::empty(),
        header: None,
        output: Seq::empty(),
        engine,
    }
}

/// The same decoder at the end of its stream.
pub open spec fn ended(v: DecoderView) -> DecoderView {
    DecoderView { state: Phase::Ended, ..v }
}

/// Whether the eight trailer bytes store the checksum and the length of `output`.
pub open spec fn trailer_matches(trailer: Seq<u8>, output: Seq<u8>) -> bool {
    &&& le32(trailer[0], trailer[1], trailer[2], trailer[3]) == crc32(output)
    &&& le32(trailer[4], trailer[5], trailer[6], trailer[7]) == len32(output)
}

/// Whether the decoder has to see what the source gives before its next call.
pub open spec fn wants_input(v: DecoderView, room: nat) -> bool {
    match v.state {
        Phase::Header => true,
        Phase::Body => room > 0,
        Phase::Trailer(got) => got.len() < 8 || (v.multi && trailer_matches(got, v.output)),
        Phase::Failed(_) => false,
        Phase::Ended => false,
    }
}

/// What a source that gives no bytes does to a decoder that wanted some: one
/// that would block leaves it exactly as it was, one that failed ends it.
pub open spec fn fault_turn(pre: DecoderView, feed: Feed, post: DecoderView, r: ReadStep) -> bool {
    match feed {
        Feed::Bytes(_) => true,
        Feed::WouldBlock => post == pre && r == (ReadStep {
            consumed: 0,
            action: Action::Fail(GzError::WouldBlock),
        }),
        Feed::Failed => post == ended(pre) && r == (ReadStep {
            consumed: 0,
            action: Action::Fail(GzError::Source),
        }),
    }
}

/// A call while the header is being parsed.
pub open spec fn header_turn(pre: DecoderView, feed: Feed, post: DecoderView, r: ReadStep) -> bool {
    match feed {
        Feed::Bytes(input) => match header_of(pre.parsing + input) {
            HeaderParse::Incomplete => if input.len() == 0 {
                post == ended(pre) && r == (ReadStep {
                    consumed: 0,
                    action: Action::Fail(GzError::UnexpectedEof),
                })
            } else {
                &&& post == (DecoderView { parsing: pre.parsing + input, ..pre })
                &&& r.consumed == input.len()
                &&& r.action == Action::Again
            },
            HeaderParse::Invalid => {
                &&& pre.parsing.len() + r.consumed == 10
                &&& r.action == Action::Fail(GzError::BadHeader)
                &&& post == ended(
                    DecoderView {
                        parsing: pre.parsing + input.subrange(0, r.consumed as int),
                        ..pre
                    },
                )
            },
            HeaderParse::Mismatch { len } => {
                &&& pre.parsing.len() + r.consumed == len
                &&& r.action == Action::Fail(GzError::Corrupt)
                &&& post == ended(
                    DecoderView {
                        parsing: pre.parsing + input.subrange(0, r.consumed as int),
                        ..pre
                    },
                )
            },
            HeaderParse::Complete { header, len, .. } => {
                &&& pre.parsing.len() + r.consumed == len
                &&& r.action == Action::Again
                &&& post == (DecoderView {
                    state: Phase::Body,
                    parsing: Seq::empty(),
                    header: Some(header),
                    ..pre
                })
            },
        },
        _ => fault_turn(pre, feed, post, r),
    }
}

/// What the decoder makes of one call of the DEFLATE engine: `eng` is what the
/// engine reported, `ended` whether the source had ended, `out` the buffer
/// after the call.
pub open spec fn body_outcome(pre: DecoderView, eng: EngineStep, ended: bool, out: Seq<u8>) -> (
    DecoderView,
    ReadStep,
) {
    if eng.status is Failed || eng.status is NeedDict {
        (
            self::ended(pre),
            ReadStep { consumed: eng.consumed, action: Action::Fail(GzError::Deflate) },
        )
    } else if eng.produced > 0 {
        (
            DecoderView { output: pre.output + out.subrange(0, eng.produced as int), ..pre },
            ReadStep { consumed: eng.consumed, action: Action::Ready(eng.produced) },
        )
    } else if !(eng.status is StreamEnd) && !ended {
        (pre, ReadStep { consumed: eng.consumed, action: Action::Again })
    } else {
        (
            DecoderView { state: Phase::Trailer(Seq::empty()), ..pre },
            ReadStep { consumed: eng.consumed, action: Action::Again },
        )
    }
}

/// A call that runs the DEFLATE engine on `input`, with `room` bytes of room.
/// The engine is told that the input is the last exactly when there is none.
/// What it reports, writes and becomes is what `miniz_oxide` does in the state
/// the engine was in; the decoder makes of the report what `body_outcome`
/// says, and the bytes that the engine wrote stand at the front of the buffer.
pub open spec fn engine_turn(
    pre: DecoderView,
    input: Seq<u8>,
    room: nat,
    post: DecoderView,
    after: Seq<u8>,
    r: ReadStep,
) -> bool {
    let finish = input.len() == 0;
    let eng = inflate_reply(pre.engine, input, room, finish);
    let ran = DecoderView { engine: inflate_next(pre.engine, input, room, finish), ..pre };
    &&& eng.within(input.len(), room)
    &&& after.subrange(0, eng.produced as int) == inflate_written(pre.engine, input, room, finish)
    &&& (post, r) == body_outcome(ran, eng, finish, after)
}

/// A call while the body is being decoded.
pub open spec fn body_turn(
    pre: DecoderView,
    feed: Feed,
    before: Seq<u8>,
    post: DecoderView,
    after: Seq<u8>,
    r: ReadStep,
) -> bool {
    if before.len() == 0 {
        post == pre && after == before && r == (ReadStep { consumed: 0, action: Action::Ready(0) })
    } else {
        match feed {
            Feed::Bytes(input) => engine_turn(pre, input, before.len(), post, after, r),
            _ => after == before && fault_turn(pre, feed, post, r),
        }
    }
}

/// A call while the trailer is being read, `got` being its bytes so far.
pub open spec fn trailer_turn(
    pre: DecoderView,
    got: Seq<u8>,
    feed: Feed,
    post: DecoderView,
    r: ReadStep,
) -> bool {
    if got.len() < 8 {
        match feed {
            Feed::Bytes(input) => if input.len() == 0 {
                post == ended(pre) && r == (ReadStep {
                    consumed: 0,
                    action: Action::Fail(GzError::UnexpectedEof),
                })
            } else {
                let k = vstd::math::min(8 - got.len(), input.len() as int);
                &&& post == (DecoderView {
                    state: Phase::Trailer(got + input.subrange(0, k)),
                    ..pre
                })
                &&& r.consumed == k
                &&& r.action == Action::Again
            },
            _ => fault_turn(pre, feed, post, r),
        }
    } else if !trailer_matches(got, pre.output) {
        post == ended(pre) && r == (ReadStep {
            consumed: 0,
            action: Action::Fail(GzError::Corrupt),
        })
    } else if !pre.multi {
        post == ended(pre) && r == (ReadStep { consumed: 0, action: Action::Ready(0) })
    } else {
        match feed {
            Feed::Bytes(input) => if input.len() == 0 {
                post == ended(pre) && r == (ReadStep { consumed: 0, action: Action::Ready(0) })
            } else {
                post == fresh(true, inflate_reset(pre.engine)) && r == (ReadStep {
                    consumed: 0,
                    action: Action::Again,
                })
            },
            _ => fault_turn(pre, feed, post, r),
        }
    }
}

/// The decoder's transition relation: what a call of `read` in state `pre`, on
/// what the source gave (`feed`) and with the caller's buffer holding `before`,
/// leaves as the new state `post`, the buffer `after` and the outcome `r`.
pub open spec fn read_turn(
    pre: DecoderView,
    feed: Feed,
    before: Seq<u8>,
    post: DecoderView,
    after: Seq<u8>,
    r: ReadStep,
) -> bool {
    &&& after.len() == before.len()
    &&& takes_from(feed, r)
    &&& match pre.state {
        Phase::Header => after == before && header_turn(pre, feed, post, r),
        Phase::Body => body_turn(pre, feed, before, post, after, r),
        Phase::Trailer(got) => after == before && trailer_turn(pre, got, feed, post, r),
        Phase::Failed(e) => after == before && post == ended(pre) && r == (ReadStep {
            consumed: 0,
            action: Action::Fail(e),
        }),
        Phase::Ended => after == before && post == pre && r == (ReadStep {
            consumed: 0,
            action: Action::Ready(0),
        }),
    }
}

/// A gzip streaming decoder for the first member of a stream.
///
/// It holds the reader that the compressed bytes come from, but never reads
/// from it: whoever drives the decoder asks the reader for bytes and hands them
/// to [`GzDecoder::read`].
pub struct GzDecoder<R> {
    inner: GzState,
    header: Option<GzHeader>,
    parser: HeaderParser,
    reader: R,
    inflater: Box<miniz_oxide::inflate::stream::InflateState>,
    crc: Crc,
    multi: bool,
}

impl<R> GzDecoder<R> {
    /// The mathematical content of the decoder.
    pub closed spec fn view(&self) -> DecoderView {
        DecoderView {
            state: self.inner@,
            multi: self.multi,
            parsing: self.parser.seen(),
            header: match self.header {
                Some(h) => Some(h@),
                None => None,
            },
            output: self.crc.bytes(),
            engine: *self.inflater,
        }
    }

    /// The state of the DEFLATE engine that the decoder holds.
    pub closed spec fn engine(&self) -> miniz_oxide::inflate::stream::InflateState {
        *self.inflater
    }

    /// The reader that the decoder holds.
    pub closed spec fn reader(&self) -> R {
        self.reader
    }

    /// The parts of the decoder agree with each other.
    pub closed spec fn wf(&self) -> bool {
        &&& self.parser.wf()
        &&& self.crc.wf()
        &&& self.inner matches GzState::ParsingTrailer(pos, _) ==> pos <= 8
        &&& self@.valid()
    }

    /// A decoder whose parts agree is one of which `valid` holds, and its
    /// view shows the engine it holds.
    pub proof fn lemma_wf_valid(&self)
        requires
            self.wf(),
        ensures
            self@.valid(),
            self@.engine == self.engine(),
    {
    }

    /// A decoder for a member whose header has been read already: `header` is
    /// what reading it came to. A header that could not be read leaves the
    /// decoder with the error, which the first call of `read` reports.
    pub fn new(r: R, header: Result<GzHeader, GzError>) -> (d: GzDecoder<R>)
        ensures
            d.wf(),
            d.reader() == r,
            d@ == (DecoderView {
                state: match header {
                    Ok(_) => Phase::Body,
                    Err(e) => Phase::Failed(e),
                },
                header: match header {
                    Ok(h) => Some(h@),
                    Err(_) => None,
                },
                ..fresh(false, d.engine())
            }),
    {
        let (inner, header) = match header {
            Ok(h) => (GzState::Body, Some(h)),
            Err(e) => (GzState::Failed(e), None),
        };
        GzDecoder {
            inner,
            header,
            parser: HeaderParser::new(),
            reader: r,
            inflater: new_inflater(),
            crc: Crc::new(),
            multi: false,
        }
    }

    /// A decoder that has read nothing yet and parses the header as the bytes
    /// come.
    pub fn new2(r: R) -> (d: GzDecoder<R>)
        ensures
            d.wf(),
            d.reader() == r,
            d@ == fresh(false, d.engine()),
    {
        GzDecoder {
            inner: GzState::ParsingHeader,
            header: None,
            parser: HeaderParser::new(),
            reader: r,
            inflater: new_inflater(),
            crc: Crc::new(),
            multi: false,
        }
    }

    /// The same decoder, told whether to go on with the members that follow.
    pub(crate) fn multi(self, flag: bool) -> (d: GzDecoder<R>)
        ensures
            d.wf() == self.wf(),
            d.reader() == self.reader(),
            d@ == (DecoderView { multi: flag, ..self@ }),
    {
        let mut d = self;
        d.multi = flag;
        d
    }

    /// The header of the current member, once it has been parsed; none while
    /// it is being parsed or while an error waits.
    pub fn header(&self) -> (h: Option<&GzHeader>)
        requires
            self.wf(),
        ensures
            (self@.state is Header || self@.state is Failed) ==> h is None,
            (self@.state is Body || self@.state is Trailer) ==> h is Some,
            !(self@.state is Header || self@.state is Failed) ==> (match h {
                Some(x) => self@.header == Some(x@),
                None => self@.header is None,
            }),
    {
        match self.inner {
            GzState::ParsingHeader => None,
            GzState::Failed(_) => None,
            _ => self.header.as_ref(),
        }
    }

    /// The reader that the decoder holds.
    pub fn get_ref(&self) -> (r: &R)
        ensures
            *r == self.reader(),
    {
        &self.reader
    }

    /// The reader that the decoder holds, to be changed. The decoder goes on
    /// with whatever bytes it is handed, so a reader that was moved makes the
    /// decoded output meaningless; the decoder itself stays as it is.
    pub fn get_mut(&mut self) -> (r: &mut R)
        ensures
            *r == old(self).reader(),
            final(self).reader() == *final(r),
            final(self)@ == old(self)@,
            final(self).wf() == old(self).wf(),
    {
        &mut self.reader
    }

    /// Gives up the decoder for the reader that it holds.
    pub fn into_inner(self) -> (r: R)
        ensures
            r == self.reader(),
    {
        self.reader
    }

    /// Whether the next call of `read` has to see what the source gives. Where
    /// it has not, the source need not be asked, and `read` takes no notice of
    /// what it is handed.
    pub fn wants_input(&self, room: usize) -> (b: bool)
        requires
            self.wf(),
        ensures
            b == wants_input(self@, room as nat),
    {
        match self.inner {
            GzState::ParsingHeader => true,
            GzState::Body => room > 0,
            GzState::ParsingTrailer(pos, buf) => {
                if pos < 8 {
                    true
                } else {
                    let (crc, amt) = finish(&buf);
                    self.multi && crc == self.crc.sum() && amt == self.crc.amount()
                }
            },
            GzState::Failed(_) => false,
            GzState::Ended => false,
        }
    }

    /// What a source that gave no bytes does to the decoder.
    fn fault(&mut self, would_block: bool) -> (r: ReadStep)
        requires
            old(self).wf(),
        ensures
            final(self).wf(),
            final(self).reader() == old(self).reader(),
            would_block ==> fault_turn(old(self)@, Feed::WouldBlock, final(self)@, r),
            !would_block ==> fault_turn(old(self)@, Feed::Failed, final(self)@, r),
    {
        if would_block {
            ReadStep { consumed: 0, action: Action::Fail(GzError::WouldBlock) }
        } else {
            self.inner = GzState::Ended;
            ReadStep { consumed: 0, action: Action::Fail(GzError::Source) }
        }
    }

    /// A call while the header is being parsed.
    fn read_header(&mut self, fetched: Fetched<'_>) -> (r: ReadStep)
        requires
            old(self).wf(),
            old(self).inner is ParsingHeader,
        ensures
            final(self).wf(),
            final(self).reader() == old(self).reader(),
            header_turn(old(self)@, fetched@, final(self)@, r),
            takes_from(fetched@, r),
    {
        match fetched {
            Fetched::Bytes(input) => {
                let step = read_gz_header2(input, &mut self.parser);
                assert(input@.subrange(0, input@.len() as int) =~= input@);
                match step.progress {
                    Progress::Done => {
                        let mut done = HeaderParser::new();
                        std::mem::swap(&mut self.parser, &mut done);
                        self.header = Some(done.into_header());
                        self.inner = GzState::Body;
                        ReadStep { consumed: step.consumed, action: Action::Again }
                    },
                    Progress::NeedMore => ReadStep {
                        consumed: step.consumed,
                        action: Action::Again,
                    },
                    Progress::Failed(e) => {
                        self.inner = GzState::Ended;
                        ReadStep { consumed: step.consumed, action: Action::Fail(e) }
                    },
                }
            },
            Fetched::WouldBlock => self.fault(true),
            Fetched::Failed => self.fault(false),
        }
    }

    /// What the decoder makes of one call of the DEFLATE engine while it decodes
    /// the body: `eng` is what the engine reported, `ended` whether the source
    /// had ended, and the engine's output stands at the front of `out`.
    ///
    /// Output goes to the caller and into the member's checksum. No output
    /// from an engine that could still take input asks for more; no output
    /// otherwise is the end of the DEFLATE stream, and the trailer is next.
    pub fn after_inflate(&mut self, eng: EngineStep, ended: bool, out: &[u8]) -> (r: ReadStep)
        requires
            old(self).wf(),
            old(self)@.state is Body,
            eng.produced <= out@.len(),
        ensures
            final(self).wf(),
            final(self).reader() == old(self).reader(),
            (final(self)@, r) == body_outcome(old(self)@, eng, ended, out@),
    {
        match eng.status {
            Status::Failed | Status::NeedDict => {
                self.inner = GzState::Ended;
                return ReadStep { consumed: eng.consumed, action: Action::Fail(GzError::Deflate) };
            },
            _ => {},
        }
        if eng.produced > 0 {
            self.crc.update(slice_subrange(out, 0, eng.produced));
            return ReadStep { consumed: eng.consumed, action: Action::Ready(eng.produced) };
        }
        let at_end = match eng.status {
            Status::StreamEnd => true,
            _ => false,
        };
        if !at_end && !ended {
            return ReadStep { consumed: eng.consumed, action: Action::Again };
        }
        let buf: [u8; 8] = [0u8; 8];
        assert(buf@.subrange(0, 0) =~= Seq::<u8>::empty());
        self.inner = GzState::ParsingTrailer(0, buf);
        ReadStep { consumed: eng.consumed, action: Action::Again }
    }

    /// A call while the body is being decoded.
    fn read_body(&mut self, fetched: Fetched<'_>, into: &mut [u8]) -> (r: ReadStep)
        requires
            old(self).wf(),
            old(self).inner is Body,
        ensures
            final(self).wf(),
            final(self).reader() == old(self).reader(),
            final(into)@.len() == old(into)@.len(),
            body_turn(old(self)@, fetched@, old(into)@, final(self)@, final(into)@, r),
            takes_from(fetched@, r),
    {
        if into.len() == 0 {
            return ReadStep { consumed: 0, action: Action::Ready(0) };
        }
        match fetched {
            Fetched::Bytes(input) => {
                let ended = input.len() == 0;
                let flush = if ended {
                    Flush::Finish
                } else {
                    Flush::More
                };
                let eng = run_inflate(&mut self.inflater, input, into, flush);
                self.after_inflate(eng, ended, into)
            },
            Fetched::WouldBlock => self.fault(true),
            Fetched::Failed => self.fault(false),
        }
    }

    /// A call while the trailer is being read.
    fn read_trailer(&mut self, fetched: Fetched<'_>, pos: usize, buf: [u8; 8]) -> (r: ReadStep)
        requires
            old(self).wf(),
            old(self).inner == GzState::ParsingTrailer(pos, buf),
        ensures
            final(self).wf(),
            final(self).reader() == old(self).reader(),
            trailer_turn(
                old(self)@,
                buf@.subrange(0, pos as int),
                fetched@,
                final(self)@,
                r,
            ),
            takes_from(fetched@, r),
    {
        if pos < 8 {
            match fetched {
                Fetched::Bytes(input) => {
                    if input.len() == 0 {
                        self.inner = GzState::Ended;
                        return ReadStep {
                            consumed: 0,
                            action: Action::Fail(GzError::UnexpectedEof),
                        };
                    }
                    let mut b: [u8; 8] = buf;
                    let k = fill(&mut b, pos, input, 0);
                    assert(b@.subrange(0, pos + k) =~= buf@.subrange(0, pos as int)
                        + input@.subrange(0, k as int));
                    self.inner = GzState::ParsingTrailer(pos + k, b);
                    ReadStep { consumed: k, action: Action::Again }
                },
                Fetched::WouldBlock => self.fault(true),
                Fetched::Failed => self.fault(false),
            }
        } else {
            let (crc, amt) = finish(&buf);
            if crc != self.crc.sum() || amt != self.crc.amount() {
                self.inner = GzState::Ended;
                ReadStep { consumed: 0, action: Action::Fail(GzError::Corrupt) }
            } else if !self.multi {
                self.inner = GzState::Ended;
                ReadStep { consumed: 0, action: Action::Ready(0) }
            } else {
                match fetched {
                    Fetched::Bytes(input) => {
                        if input.len() == 0 {
                            self.inner = GzState::Ended;
                            ReadStep { consumed: 0, action: Action::Ready(0) }
                        } else {
                            reset_inflater(&mut self.inflater);
                            self.crc.reset();
                            self.header = None;
                            self.parser = HeaderParser::new();
                            self.inner = GzState::ParsingHeader;
                            ReadStep { consumed: 0, action: Action::Again }
                        }
                    },
                    Fetched::WouldBlock => self.fault(true),
                    Fetched::Failed => self.fault(false),
                }
            }
        }
    }

    /// Advances the decoder by one call on what the source gave.
    ///
    /// `fetched` is what the reader answered when it was asked for the bytes it
    /// has at hand, without taking them; the driver then takes `consumed` bytes
    /// from the reader and does what `action` says. Decompressed bytes are
    /// written to the front of `into`. A source that would block changes
    /// nothing; any other error ends the decoder once it has been reported.
    pub fn read(&mut self, fetched: Fetched<'_>, into: &mut [u8]) -> (r: ReadStep)
        requires
            old(self).wf(),
        ensures
            final(self).wf(),
            final(self).reader() == old(self).reader(),
            read_turn(old(self)@, fetched@, old(into)@, final(self)@, final(into)@, r),
    {
        match self.inner {
            GzState::ParsingHeader => self.read_header(fetched),
            GzState::Body => self.read_body(fetched, into),
            GzState::ParsingTrailer(pos, buf) => self.read_trailer(fetched, pos, buf),
            GzState::Failed(e) => {
                self.inner = GzState::Ended;
                ReadStep { consumed: 0, action: Action::Fail(e) }
            },
            GzState::Ended => ReadStep { consumed: 0, action: Action::Ready(0) },
        }
    }
}

/// A gzip streaming decoder that decodes every member of a stream, one after
/// the other, and ends cleanly where the source ends after a member.
pub struct MultiGzDecoder<R>(GzDecoder<R>);

impl<R> MultiGzDecoder<R> {
    /// The mathematical content of the decoder.
    pub closed spec fn view(&self) -> DecoderView {
        self.0@
    }

    /// The reader that the decoder holds.
    pub closed spec fn reader(&self) -> R {
        self.0.reader()
    }

    /// The state of the DEFLATE engine that the decoder holds.
    pub closed spec fn engine(&self) -> miniz_oxide::inflate::stream::InflateState {
        self.0.engine()
    }

    /// The parts of the decoder agree with each other.
    pub closed spec fn wf(&self) -> bool {
        self.0.wf() && self.0@.multi
    }

    /// A decoder whose parts agree is one of which `valid` holds, and it goes
    /// on after a member.
    pub proof fn lemma_wf_valid(&self)
        requires
            self.wf(),
        ensures
            self@.valid(),
            self@.multi,
            self@.engine == self.engine(),
    {
    }

    /// A decoder for a stream whose first header has been read already:
    /// `header` is what reading it came to.
    pub fn new(r: R, header: Result<GzHeader, GzError>) -> (d: MultiGzDecoder<R>)
        ensures
            d.wf(),
            d.reader() == r,
            d@ == (DecoderView {
                state: match header {
                    Ok(_) => Phase::Body,
                    Err(e) => Phase::Failed(e),
                },
                header: match header {
                    Ok(h) => Some(h@),
                    Err(_) => None,
                },
                ..fresh(true, d.engine())
            }),
    {
        MultiGzDecoder(GzDecoder::new(r, header).multi(true))
    }

    /// A decoder that has read nothing yet.
    pub fn new2(r: R) -> (d: MultiGzDecoder<R>)
        ensures
            d.wf(),
            d.reader() == r,
            d@ == fresh(true, d.engine()),
    {
        MultiGzDecoder(GzDecoder::new2(r).multi(true))
    }

    /// The header of the current member, once it has been parsed; none while
    /// it is being parsed or while an error waits.
    pub fn header(&self) -> (h: Option<&GzHeader>)
        requires
            self.wf(),
        ensures
            (self@.state is Header || self@.state is Failed) ==> h is None,
            (self@.state is Body || self@.state is Trailer) ==> h is Some,
            !(self@.state is Header || self@.state is Failed) ==> (match h {
                Some(x) => self@.header == Some(x@),
                None => self@.header is None,
            }),
    {
        self.0.header()
    }

    /// The reader that the decoder holds.
    pub fn get_ref(&self) -> (r: &R)
        ensures
            *r == self.reader(),
    {
        self.0.get_ref()
    }

    /// The reader that the decoder holds, to be changed; the decoder itself
    /// stays as it is.
    pub fn get_mut(&mut self) -> (r: &mut R)
        ensures
            *r == old(self).reader(),
            final(self).reader() == *final(r),
            final(self)@ == old(self)@,
            final(self).wf() == old(self).wf(),
    {
        self.0.get_mut()
    }

    /// Gives up the decoder for the reader that it holds.
    pub fn into_inner(self) -> (r: R)
        ensures
            r == self.reader(),
    {
        self.0.into_inner()
    }

    /// Whether the next call of `read` has to see what the source gives.
    pub fn wants_input(&self, room: usize) -> (b: bool)
        requires
            self.wf(),
        ensures
            b == wants_input(self@, room as nat),
    {
        self.0.wants_input(room)
    }

    /// Advances the decoder by one call on what the source gave, as
    /// [`GzDecoder::read`] does; after a member whose trailer matches, bytes
    /// that follow start the next member.
    pub fn read(&mut self, fetched: Fetched<'_>, into: &mut [u8]) -> (r: ReadStep)
        requires
            old(self).wf(),
        ensures
            final(self).wf(),
            final(self).reader() == old(self).reader(),
            read_turn(old(self)@, fetched@, old(into)@, final(self)@, final(into)@, r),
    {
        self.0.read(fetched, into)
    }
}

} // verus!
