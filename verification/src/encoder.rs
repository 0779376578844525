//! The encoder: it emits the header bytes, then what the DEFLATE engine makes
//! of the source, then the trailer with the checksum and length of the source.

use crate::bytes::{copy, le32_bytes, write_le32};
use crate::checksum::{crc32, len32, Crc};
use crate::compose::{header_bytes, plain_header};
use crate::drive::{takes_from, Action, Feed, Fetched, ReadStep};
use crate::engine::{
    deflate_next, deflate_reply, deflate_written, deflater_at, new_deflater, run_deflate,
    EngineStep, Flush, Status,
};
use crate::error::GzError;
use crate::header::{GzHeader, GzHeaderView};
use crate::level::Compression;
use vstd::prelude::*;
use vstd::slice::slice_subrange;

verus! {

/// The mathematical content of an encoder: everything that decides what its
/// next call does. The reader, which the encoder holds and never uses, has a
/// spec function of its own.
pub struct EncoderView {
    /// The header bytes that the encoder was made with.
    pub header: Seq<u8>,
    /// How many header bytes were emitted, or, once the body has ended, how
    /// many trailer bytes.
    pub pos: nat,
    /// Whether the DEFLATE body has ended.
    pub eof: bool,
    /// The source bytes that the engine has taken so far.
    pub taken: Seq<u8>,
    /// The compressed bytes that the engine has written so far.
    pub body: Seq<u8>,
    /// The state of the DEFLATE engine.
    pub engine: miniz_oxide::deflate::core::CompressorOxide,
}

/// The eight trailer bytes for a source that held `taken`: its CRC-32, then its
/// length modulo 2^32, both little-endian.
pub open spec fn trailer_of(taken: Seq<u8>) -> Seq<u8> {
    le32_bytes(crc32(taken)) + le32_bytes(len32(taken))
}

impl EncoderView {
    /// The three phases do not overlap: header bytes while the body has not
    /// begun, trailer bytes only once it has ended.
    pub open spec fn valid(self) -> bool {
        if self.eof {
            self.pos <= 8
        } else {
            self.pos <= self.header.len() && (self.body.len() > 0 ==> self.pos
                == self.header.len())
        }
    }

    /// Every byte that the encoder has emitted so far, in order.
    pub open spec fn emitted(self) -> Seq<u8> {
        if self.eof {
            self.header + self.body + trailer_of(self.taken).subrange(0, self.pos as int)
        } else {
            self.header.subrange(0, self.pos as int) + self.body
        }
    }

    /// The whole member has been emitted.
    pub open spec fn finished(self) -> bool {
        self.eof && self.pos == 8
    }
}

/// The call took `consumed` bytes from the source and hands over `n` bytes.
pub open spec fn hands_over(r: ReadStep, consumed: int, n: int) -> bool {
    &&& r.consumed == consumed
    &&& r.action matches Action::Ready(k) && k == n
}

/// A call once the body has ended: the next trailer bytes, as many as fit, and
/// the rest of the buffer as it was.
pub open spec fn footer_turn(
    pre: EncoderView,
    before: Seq<u8>,
    post: EncoderView,
    after: Seq<u8>,
    n: int,
) -> bool {
    &&& n == vstd::math::min(before.len() as int, 8 - pre.pos)
    &&& post == (EncoderView { pos: (pre.pos + n) as nat, ..pre })
    &&& after.len() == before.len()
    &&& after.subrange(0, n) == trailer_of(pre.taken).subrange(pre.pos as int, pre.pos + n)
    &&& after.subrange(n, after.len() as int) == before.subrange(n, before.len() as int)
}

/// What the encoder makes of one call of the DEFLATE engine. `pre` is the
/// encoder when the engine has run, `copied` the header bytes, the last of the
/// header, that the same call has put in front, `eng` what the engine reported
/// on `input`, and `tail` the part of the buffer that the engine wrote to,
/// after the call. A call that fails leaves the encoder as it was.
pub open spec fn deflate_outcome(
    pre: EncoderView,
    copied: nat,
    eng: EngineStep,
    input: Seq<u8>,
    tail: Seq<u8>,
    post: EncoderView,
    r: ReadStep,
) -> bool {
    let mid = EncoderView { pos: pre.pos + copied, ..pre };
    let taken = mid.taken + input.subrange(0, eng.consumed as int);
    if eng.status is Failed || eng.status is NeedDict {
        post == pre && r == (ReadStep { consumed: 0, action: Action::Fail(GzError::Deflate) })
    } else if eng.produced > 0 {
        &&& post == (EncoderView {
            taken,
            body: mid.body + tail.subrange(0, eng.produced as int),
            ..mid
        })
        &&& hands_over(r, eng.consumed as int, copied + eng.produced)
    } else if !(eng.status is StreamEnd) && input.len() > 0 {
        &&& post == (EncoderView { taken, ..mid })
        &&& if copied > 0 {
            hands_over(r, eng.consumed as int, copied as int)
        } else {
            r == (ReadStep { consumed: eng.consumed, action: Action::Again })
        }
    } else {
        let m = vstd::math::min(tail.len() as int, 8);
        &&& post == (EncoderView { eof: true, pos: m as nat, taken, ..mid })
        &&& hands_over(r, eng.consumed as int, copied + m)
        &&& tail.subrange(0, m) == trailer_of(taken).subrange(0, m)
    }
}

/// A call that runs the DEFLATE engine on `input`, with `tail.len()` bytes of
/// room. The engine is told that the input is the last exactly when there is
/// none. What it reports, writes and becomes is what `miniz_oxide` does in the
/// state the engine was in; the encoder makes of the report what
/// `deflate_outcome` says, and the bytes that the engine handed over stand at
/// the front of `tail`.
pub open spec fn engine_turn(
    pre: EncoderView,
    copied: nat,
    input: Seq<u8>,
    tail: Seq<u8>,
    post: EncoderView,
    r: ReadStep,
) -> bool {
    let finish = input.len() == 0;
    let eng = deflate_reply(pre.engine, input, tail.len(), finish);
    let ran = EncoderView { engine: deflate_next(pre.engine, input, tail.len(), finish), ..pre };
    &&& eng.within(input.len(), tail.len())
    &&& tail.subrange(0, eng.produced as int) == deflate_written(
        pre.engine,
        input,
        tail.len(),
        finish,
    )
    &&& deflate_outcome(ran, copied, eng, input, tail, post, r)
}

/// A call on a source that gave no bytes, after `copied` header bytes were put
/// in the buffer: they are handed over if there are any, else the source's
/// condition is reported. Nothing is lost either way, and the rest of the
/// buffer, `tail` after the call and `rest` before, is as it was.
pub open spec fn stall_turn(
    mid: EncoderView,
    copied: nat,
    would_block: bool,
    rest: Seq<u8>,
    tail: Seq<u8>,
    post: EncoderView,
    r: ReadStep,
) -> bool {
    &&& post == mid
    &&& tail == rest
    &&& if copied > 0 {
        hands_over(r, 0, copied as int)
    } else if would_block {
        r == (ReadStep { consumed: 0, action: Action::Fail(GzError::WouldBlock) })
    } else {
        r == (ReadStep { consumed: 0, action: Action::Fail(GzError::Source) })
    }
}

/// The encoder's transition relation: what a call of `read` in state `pre`, on
/// what the source gave (`feed`) and with the caller's buffer holding `before`,
/// leaves as the new state `post`, the buffer `after` and the outcome `r`.
pub open spec fn encode_turn(
    pre: EncoderView,
    feed: Feed,
    before: Seq<u8>,
    post: EncoderView,
    after: Seq<u8>,
    r: ReadStep,
) -> bool {
    &&& after.len() == before.len()
    &&& takes_from(feed, r)
    &&& if pre.eof {
        let n = vstd::math::min(before.len() as int, 8 - pre.pos);
        footer_turn(pre, before, post, after, n) && hands_over(r, 0, n)
    } else {
        let copied = vstd::math::min(before.len() as int, pre.header.len() - pre.pos);
        let mid = EncoderView { pos: (pre.pos + copied) as nat, ..pre };
        let tail = after.subrange(copied, after.len() as int);
        let rest = before.subrange(copied, before.len() as int);
        &&& after.subrange(0, copied) == pre.header.subrange(pre.pos as int, pre.pos + copied)
        &&& if copied == before.len() {
            post == mid && hands_over(r, 0, copied)
        } else {
            match feed {
                Feed::Bytes(input) => engine_turn(pre, copied as nat, input, tail, post, r),
                Feed::WouldBlock => stall_turn(mid, copied as nat, true, rest, tail, post, r),
                Feed::Failed => stall_turn(mid, copied as nat, false, rest, tail, post, r),
            }
        }
    }
}

/// A gzip streaming encoder.
///
/// It holds the reader that the uncompressed bytes come from, but never reads
/// from it: whoever drives the encoder asks the reader for bytes and hands them
/// to [`GzEncoder::read`].
pub struct GzEncoder<R> {
    reader: R,
    deflater: Box<miniz_oxide::deflate::core::CompressorOxide>,
    crc: Crc,
    header: Vec<u8>,
    pos: usize,
    eof: bool,
    body: Ghost<Seq<u8>>,
}

/// An encoder that emits `header`, then the compressed form of what `r` gives,
/// then the trailer.
pub fn gz_encoder<R>(header: Vec<u8>, r: R, lvl: Compression) -> (e: GzEncoder<R>)
    ensures
        e.wf(),
        e.reader() == r,
        e@ == (EncoderView {
            header: header@,
            pos: 0,
            eof: false,
            taken: Seq::empty(),
            body: Seq::empty(),
            engine: deflater_at(lvl.engine_level()),
        }),
{
    let level: u8 = if lvl.0 > 255 {
        255
    } else {
        lvl.0 as u8
    };
    GzEncoder {
        reader: r,
        deflater: new_deflater(level),
        crc: Crc::new(),
        header,
        pos: 0,
        eof: false,
        body: Ghost(Seq::empty()),
    }
}

impl<R> GzEncoder<R> {
    /// The mathematical content of the encoder.
    pub closed spec fn view(&self) -> EncoderView {
        EncoderView {
            header: self.header@,
            pos: self.pos as nat,
            eof: self.eof,
            taken: self.crc.bytes(),
            body: self.body@,
            engine: *self.deflater,
        }
    }

    /// The state of the DEFLATE engine that the encoder holds.
    pub closed spec fn engine(&self) -> miniz_oxide::deflate::core::CompressorOxide {
        *self.deflater
    }

    /// The reader that the encoder holds.
    pub closed spec fn reader(&self) -> R {
        self.reader
    }

    /// The parts of the encoder agree with each other.
    pub closed spec fn wf(&self) -> bool {
        &&& self.crc.wf()
        &&& self@.valid()
    }

    /// An encoder whose parts agree is one of which `valid` holds, and its
    /// view shows the engine it holds.
    pub proof fn lemma_wf_valid(&self)
        requires
            self.wf(),
        ensures
            self@.valid(),
            self@.engine == self.engine(),
    {
    }

    /// An encoder that compresses what `r` gives at the given level, under a
    /// header that says nothing but that: no file name, no comment, no extra
    /// field, time 0, operating system unknown.
    pub fn new(r: R, level: Compression) -> (e: GzEncoder<R>)
        ensures
            e.wf(),
            e.reader() == r,
            e@ == (EncoderView {
                header: header_bytes(
                    GzHeaderView { operating_system: 255, ..GzHeader::empty_view() },
                    level.xfl(),
                ),
                pos: 0,
                eof: false,
                taken: Seq::empty(),
                body: Seq::empty(),
                engine: deflater_at(level.engine_level()),
            }),
    {
        gz_encoder(plain_header(level), r, level)
    }

    /// The reader that the encoder holds.
    pub fn get_ref(&self) -> (r: &R)
        ensures
            *r == self.reader(),
    {
        &self.reader
    }

    /// The reader that the encoder holds, to be changed; the encoder itself
    /// stays as it is.
    pub fn get_mut(&mut self) -> (r: &mut R)
        ensures
            *r == old(self).reader(),
            final(self).reader() == *final(r),
            final(self)@ == old(self)@,
            final(self).wf() == old(self).wf(),
    {
        &mut self.reader
    }

    /// Gives up the encoder for the reader that it holds.
    pub fn into_inner(self) -> (r: R)
        ensures
            r == self.reader(),
    {
        self.reader
    }

    /// Whether the next call of `read` with room for `room` bytes has to see
    /// what the source gives: it has while the body has not ended and the
    /// header bytes still due leave room for body bytes.
    pub fn wants_input(&self, room: usize) -> (b: bool)
        requires
            self.wf(),
        ensures
            b == (!self@.eof && self@.header.len() - self@.pos < room),
    {
        !self.eof && self.header.len() - self.pos < room
    }

    /// Writes the next trailer bytes to the front of `into`, as many as fit,
    /// and returns their number: none once all eight are out.
    pub fn read_footer(&mut self, into: &mut [u8]) -> (n: usize)
        requires
            old(self).wf(),
            old(self)@.eof,
        ensures
            final(self).wf(),
            final(self).reader() == old(self).reader(),
            footer_turn(old(self)@, old(into)@, final(self)@, final(into)@, n as int),
    {
        if self.pos == 8 {
            assert(into@.subrange(0, 0) =~= trailer_of(self@.taken).subrange(8, 8));
            return 0;
        }
        let sum = write_le32(self.crc.sum());
        let amt = write_le32(self.crc.amount());
        let arr: [u8; 8] = [sum[0], sum[1], sum[2], sum[3], amt[0], amt[1], amt[2], amt[3]];
        assert(arr@ =~= trailer_of(self@.taken));
        let mut pos: usize = self.pos;
        let n = copy(into, arr.as_slice(), &mut pos);
        self.pos = pos;
        n
    }

    /// What the encoder makes of one call of the DEFLATE engine: `eng` is what
    /// the engine reported on `input`, its output stands at the front of `tail`,
    /// and `copied` header bytes, the last of the header, stand in the caller's
    /// buffer before `tail`.
    ///
    /// An engine that failed fails the call, and the encoder stays as it was.
    /// Else the input that the engine took goes into the checksum. Output is
    /// handed over. No output from an engine that has not ended, on a source
    /// that has not ended either, asks for more input; no output otherwise ends
    /// the body, and the trailer starts in `tail`.
    pub fn after_deflate(
        &mut self,
        copied: usize,
        eng: EngineStep,
        input: &[u8],
        tail: &mut [u8],
    ) -> (r: ReadStep)
        requires
            old(self).wf(),
            !old(self)@.eof,
            old(self)@.pos + copied == old(self)@.header.len(),
            eng.within(input@.len(), old(tail)@.len()),
            copied + old(tail)@.len() <= usize::MAX,
        ensures
            final(self).wf(),
            final(self).reader() == old(self).reader(),
            final(tail)@.len() == old(tail)@.len(),
            eng.produced > 0 ==> final(tail)@ == old(tail)@,
            final(tail)@.subrange(0, eng.produced as int) == old(tail)@.subrange(
                0,
                eng.produced as int,
            ),
            deflate_outcome(
                old(self)@,
                copied as nat,
                eng,
                input@,
                final(tail)@,
                final(self)@,
                r,
            ),
    {
        match eng.status {
            Status::Failed | Status::NeedDict => {
                return ReadStep { consumed: 0, action: Action::Fail(GzError::Deflate) };
            },
            _ => {},
        }
        self.pos = self.header.len();
        self.crc.update(slice_subrange(input, 0, eng.consumed));
        if eng.produced > 0 {
            self.body = Ghost(self.body@ + tail@.subrange(0, eng.produced as int));
            return ReadStep {
                consumed: eng.consumed,
                action: Action::Ready(copied + eng.produced),
            };
        }
        let at_end = match eng.status {
            Status::StreamEnd => true,
            _ => false,
        };
        if !at_end && input.len() > 0 {
            let action = if copied > 0 {
                Action::Ready(copied)
            } else {
                Action::Again
            };
            return ReadStep { consumed: eng.consumed, action };
        }
        self.eof = true;
        self.pos = 0;
        let m = self.read_footer(tail);
        ReadStep { consumed: eng.consumed, action: Action::Ready(copied + m) }
    }

    /// Advances the encoder by one call on what the source gave, and writes the
    /// next bytes of the gzip stream to the front of `into`.
    ///
    /// `fetched` is what the reader answered when it was asked for the bytes it
    /// has at hand, without taking them; the driver then takes `consumed` bytes
    /// from the reader and does what `action` says. Once the last trailer byte
    /// is out, every call hands over nothing.
    pub fn read(&mut self, fetched: Fetched<'_>, into: &mut [u8]) -> (r: ReadStep)
        requires
            old(self).wf(),
        ensures
            final(self).wf(),
            final(self).reader() == old(self).reader(),
            encode_turn(old(self)@, fetched@, old(into)@, final(self)@, final(into)@, r),
    {
        if self.eof {
            let n = self.read_footer(into);
            return ReadStep { consumed: 0, action: Action::Ready(n) };
        }
        let mut copied: usize = 0;
        let mut pos: usize = self.pos;
        if pos < self.header.len() {
            copied = copy(into, self.header.as_slice(), &mut pos);
        } else {
            assert(into@.subrange(0, 0) =~= self.header@.subrange(pos as int, pos as int));
        }
        if copied == into.len() {
            self.pos = pos;
            return ReadStep { consumed: 0, action: Action::Ready(copied) };
        }
        let ghost filled = into@;
        match fetched {
            Fetched::Bytes(input) => {
                let flush = if input.len() == 0 {
                    Flush::Finish
                } else {
                    Flush::More
                };
                let (head, tail) = into.split_at_mut(copied);
                let eng = run_deflate(&mut self.deflater, input, tail, flush);
                let r = self.after_deflate(copied, eng, input, tail);
                proof {
                    assert(into@.subrange(copied as int, into@.len() as int) =~= tail@);
                    assert(into@.subrange(0, copied as int) =~= filled.subrange(0, copied as int));
                }
                r
            },
            Fetched::WouldBlock => {
                self.pos = pos;
                ReadStep {
                    consumed: 0,
                    action: if copied > 0 {
                        Action::Ready(copied)
                    } else {
                        Action::Fail(GzError::WouldBlock)
                    },
                }
            },
            Fetched::Failed => {
                self.pos = pos;
                ReadStep {
                    consumed: 0,
                    action: if copied > 0 {
                        Action::Ready(copied)
                    } else {
                        Action::Fail(GzError::Source)
                    },
                }
            },
        }
    }
}

} // verus!
