//! What holds of the codec as a whole, stated over the transition relations of
//! the parser, the decoder and the encoder, and proved from them.

use crate::bytes::{lemma_le32_bytes_of_le32, lemma_le32_round_trip};
use crate::checksum::{crc32, len32};
use crate::compose::{encodable, header_bytes, header_flag, lemma_header_round_trip};
use crate::decoder::{
    ended, fresh, read_turn, trailer_matches, wants_input, DecoderView, Phase,
};
use crate::drive::{handed, Action, Feed, ReadStep};
use crate::encoder::{encode_turn, trailer_of, EncoderView};
use crate::engine::{
    deflate_reply, inflate_next, inflate_reply, inflate_reset, inflate_written, EngineStep, Status,
};
use crate::error::GzError;
use crate::header::{header_of, lemma_header_verdict_is_final, GzHeaderView, HeaderParse};
use crate::parser::{step_matches, HeaderStep, Progress};
use vstd::prelude::*;

verus! {

/// The header parser does not care how its input is cut: where a first piece
/// `a` leaves the header open, parsing a second piece `b` after it comes to the
/// same as parsing the two in one call.
pub proof fn law_header_parse_ignores_cuts(
    seen: Seq<u8>,
    a: Seq<u8>,
    b: Seq<u8>,
    first: HeaderStep,
    second: HeaderStep,
    whole: HeaderStep,
    h1: GzHeaderView,
    h2: GzHeaderView,
    h: GzHeaderView,
    f1: u8,
    f2: u8,
    f: u8,
)
    requires
        b.len() > 0,
        step_matches(seen, a, first, h1, f1),
        first.progress == Progress::NeedMore,
        step_matches(seen + a, b, second, h2, f2),
        step_matches(seen, a + b, whole, h, f),
    ensures
        whole.progress == second.progress,
        whole.consumed == a.len() + second.consumed,
        whole.progress == Progress::Done ==> h == h2 && f == f2,
{
    assert((seen + a) + b =~= seen + (a + b));
}

/// What a call of the header parser comes to, as the grammar decides it: how
/// many of the bytes offered it takes, and where the parse then stands. Bytes
/// that leave the header open are all taken.
pub open spec fn verdict(seen: Seq<u8>, input: Seq<u8>) -> (int, Progress) {
    match header_of(seen + input) {
        HeaderParse::Incomplete => (input.len() as int, Progress::NeedMore),
        HeaderParse::Invalid => (10 - seen.len(), Progress::Failed(GzError::BadHeader)),
        HeaderParse::Mismatch { len } => (len - seen.len(), Progress::Failed(GzError::Corrupt)),
        HeaderParse::Complete { len, .. } => (len - seen.len(), Progress::Done),
    }
}

/// A call of the header parser on bytes, which is any call but the one that
/// says that the source has ended, comes to the verdict.
pub proof fn law_parser_step_is_verdict(
    seen: Seq<u8>,
    input: Seq<u8>,
    r: HeaderStep,
    h: GzHeaderView,
    f: u8,
)
    requires
        input.len() > 0,
        step_matches(seen, input, r, h, f),
    ensures
        (r.consumed as int, r.progress) == verdict(seen, input),
{
}

/// What a run of calls of the header parser comes to, one call for each of
/// `pieces` in turn, for as long as the header stays open: how many bytes the
/// calls take in all, and where the parse then stands.
pub open spec fn verdict_in_pieces(seen: Seq<u8>, pieces: Seq<Seq<u8>>) -> (int, Progress)
    decreases pieces.len(),
{
    if pieces.len() == 0 {
        (0, Progress::NeedMore)
    } else {
        let (n, p) = verdict(seen, pieces[0]);
        if p == Progress::NeedMore {
            let (m, q) = verdict_in_pieces(seen + pieces[0], pieces.drop_first());
            (n + m, q)
        } else {
            (n, p)
        }
    }
}

/// The bytes of `pieces`, one piece after the other.
pub open spec fn joined(pieces: Seq<Seq<u8>>) -> Seq<u8>
    decreases pieces.len(),
{
    if pieces.len() == 0 {
        Seq::empty()
    } else {
        pieces[0] + joined(pieces.drop_first())
    }
}

/// However the header bytes are cut into pieces, parsing them piece by piece
/// comes to what parsing them in one call comes to: the same verdict, on the
/// same number of bytes.
pub proof fn law_header_parse_ignores_any_cuts(seen: Seq<u8>, pieces: Seq<Seq<u8>>)
    requires
        header_of(seen) is Incomplete,
    ensures
        verdict_in_pieces(seen, pieces) == verdict(seen, joined(pieces)),
    decreases pieces.len(),
{
    if pieces.len() > 0 {
        let a = pieces[0];
        let rest = pieces.drop_first();
        let tail = joined(rest);
        assert((seen + a) + tail =~= seen + (a + tail));
        if header_of(seen + a) is Incomplete {
            law_header_parse_ignores_any_cuts(seen + a, rest);
        } else {
            lemma_header_verdict_is_final(seen + a, tail);
        }
    }
}

/// The decoder keeps what holds of every decoder.
pub proof fn law_read_keeps_valid(
    pre: DecoderView,
    feed: Feed,
    before: Seq<u8>,
    post: DecoderView,
    after: Seq<u8>,
    r: ReadStep,
)
    requires
        pre.valid(),
        read_turn(pre, feed, before, post, after, r),
    ensures
        post.valid(),
        post.multi == pre.multi,
{
}

/// While the header is being parsed, the decoder does not care how the header
/// bytes are cut: where a first piece `a` leaves the header open, a call on a
/// second piece `b` comes to the same as one call on the two together.
pub proof fn law_header_phase_ignores_cuts(
    pre: DecoderView,
    a: Seq<u8>,
    b: Seq<u8>,
    mid: DecoderView,
    r1: ReadStep,
    post2: DecoderView,
    r2: ReadStep,
    post: DecoderView,
    r: ReadStep,
    buf: Seq<u8>,
)
    requires
        pre.state is Header,
        b.len() > 0,
        read_turn(pre, Feed::Bytes(a), buf, mid, buf, r1),
        mid.state is Header,
        read_turn(mid, Feed::Bytes(b), buf, post2, buf, r2),
        read_turn(pre, Feed::Bytes(a + b), buf, post, buf, r),
    ensures
        r1.consumed == a.len() && r1.action == Action::Again,
        post == post2,
        r.action == r2.action,
        r.consumed == a.len() + r2.consumed,
{
    assert((pre.parsing + a) + b =~= pre.parsing + (a + b));
    assert((pre.parsing + a) + b.subrange(0, r2.consumed as int) =~= pre.parsing + (a
        + b).subrange(0, r.consumed as int));
}

/// While the trailer is being read, the decoder does not care how its bytes
/// are cut: where a first piece `a` leaves the trailer short of its eight
/// bytes, a call on a second piece `b` comes to the same as one call on the two
/// together.
pub proof fn law_trailer_phase_ignores_cuts(
    pre: DecoderView,
    got: Seq<u8>,
    a: Seq<u8>,
    b: Seq<u8>,
    mid: DecoderView,
    r1: ReadStep,
    post2: DecoderView,
    r2: ReadStep,
    post: DecoderView,
    r: ReadStep,
    buf: Seq<u8>,
)
    requires
        pre.state == Phase::Trailer(got),
        a.len() > 0,
        b.len() > 0,
        got.len() + a.len() < 8,
        read_turn(pre, Feed::Bytes(a), buf, mid, buf, r1),
        read_turn(mid, Feed::Bytes(b), buf, post2, buf, r2),
        read_turn(pre, Feed::Bytes(a + b), buf, post, buf, r),
    ensures
        r1.consumed == a.len() && r1.action == Action::Again,
        post == post2,
        r.action == r2.action,
        r.consumed == a.len() + r2.consumed,
{
    assert(a.subrange(0, a.len() as int) =~= a);
    let k2 = vstd::math::min(8 - (got + a).len(), b.len() as int);
    let k = vstd::math::min(8 - got.len(), (a + b).len() as int);
    assert((got + a) + b.subrange(0, k2) =~= got + (a + b).subrange(0, k));
}

/// A source that would block changes nothing: the decoder that wanted input
/// is after the call exactly what it was before, the caller's buffer too, no
/// byte is taken, and the condition is handed on as it came.
pub proof fn law_would_block_changes_nothing(
    pre: DecoderView,
    before: Seq<u8>,
    post: DecoderView,
    after: Seq<u8>,
    r: ReadStep,
)
    requires
        wants_input(pre, before.len()),
        read_turn(pre, Feed::WouldBlock, before, post, after, r),
    ensures
        post == pre,
        after == before,
        r == (ReadStep { consumed: 0, action: Action::Fail(GzError::WouldBlock) }),
{
}

/// A decoder that wants no input takes no notice of what the source gave: the
/// call comes to the same whatever it is handed, and takes no byte.
pub proof fn law_unwanted_input_is_ignored(
    pre: DecoderView,
    before: Seq<u8>,
    feed1: Feed,
    post1: DecoderView,
    after1: Seq<u8>,
    r1: ReadStep,
    feed2: Feed,
    post2: DecoderView,
    after2: Seq<u8>,
    r2: ReadStep,
)
    requires
        pre.valid(),
        !wants_input(pre, before.len()),
        read_turn(pre, feed1, before, post1, after1, r1),
        read_turn(pre, feed2, before, post2, after2, r2),
    ensures
        post1 == post2,
        after1 == after2,
        r1 == r2,
        r1.consumed == 0,
{
}

/// Errors other than a source that would block are reported once: the call
/// that fails with one ends the decoder, and an ended decoder hands over
/// nothing, takes nothing and stays ended, whatever it is given.
pub proof fn law_fatal_errors_end_the_stream(
    pre: DecoderView,
    feed: Feed,
    before: Seq<u8>,
    post: DecoderView,
    after: Seq<u8>,
    r: ReadStep,
)
    requires
        pre.valid(),
        read_turn(pre, feed, before, post, after, r),
    ensures
        r.action matches Action::Fail(e) ==> (if e.is_fatal() || pre.state is Failed {
            post.state is Ended
        } else {
            post == pre
        }),
        pre.state is Ended ==> post == pre && after == before && r == (ReadStep {
            consumed: 0,
            action: Action::Ready(0),
        }),
{
}

/// A call is decided by the state, the engine's among it, by what the source
/// gave and by the room in the buffer: two calls that start alike end alike,
/// in the state they leave, in the outcome and in the bytes they hand over.
/// Outside the body the whole buffer is decided too.
pub proof fn law_read_is_decided(
    pre: DecoderView,
    feed: Feed,
    before: Seq<u8>,
    post1: DecoderView,
    after1: Seq<u8>,
    r1: ReadStep,
    post2: DecoderView,
    after2: Seq<u8>,
    r2: ReadStep,
)
    requires
        pre.valid(),
        read_turn(pre, feed, before, post1, after1, r1),
        read_turn(pre, feed, before, post2, after2, r2),
    ensures
        post1 == post2,
        r1 == r2,
        handed(r1, after1) == handed(r2, after2),
        !(pre.state is Body) || before.len() == 0 || !(feed is Bytes) ==> after1 == after2,
{
}

/// One call in a run of calls of a decoder: what the source gave, the buffer
/// before and after, the outcome, and the decoder after the call.
pub struct Call {
    pub feed: Feed,
    pub before: Seq<u8>,
    pub after: Seq<u8>,
    pub r: ReadStep,
    pub post: DecoderView,
}

/// `calls` is a run of a decoder that starts as `start`: each call is one that
/// `read` can make on the decoder that the call before has left.
pub open spec fn is_run(start: DecoderView, calls: Seq<Call>) -> bool
    decreases calls.len(),
{
    calls.len() == 0 || {
        let c = calls[0];
        &&& read_turn(start, c.feed, c.before, c.post, c.after, c.r)
        &&& is_run(c.post, calls.drop_first())
    }
}

/// The bytes that a run hands to the caller, call after call.
pub open spec fn run_output(calls: Seq<Call>) -> Seq<u8>
    decreases calls.len(),
{
    if calls.len() == 0 {
        Seq::empty()
    } else {
        handed(calls[0].r, calls[0].after) + run_output(calls.drop_first())
    }
}

/// The decoder that a run leaves.
pub open spec fn run_end(start: DecoderView, calls: Seq<Call>) -> DecoderView
    decreases calls.len(),
{
    if calls.len() == 0 {
        start
    } else {
        run_end(calls[0].post, calls.drop_first())
    }
}

/// The run without the calls on which the source would block while the decoder
/// wanted input: the run that a source makes which never blocks and gives the
/// same bytes in the same pieces.
pub open spec fn unblocked(start: DecoderView, calls: Seq<Call>) -> Seq<Call>
    decreases calls.len(),
{
    if calls.len() == 0 {
        Seq::empty()
    } else {
        let c = calls[0];
        let rest = unblocked(c.post, calls.drop_first());
        if c.feed is WouldBlock && wants_input(start, c.before.len()) {
            rest
        } else {
            seq![c] + rest
        }
    }
}

/// A source that would block, on whichever calls, changes nothing of what is
/// decoded: the run without those calls is a run of the same decoder, hands
/// over the same bytes and leaves the same decoder.
pub proof fn law_blocking_source_decodes_alike(start: DecoderView, calls: Seq<Call>)
    requires
        is_run(start, calls),
    ensures
        is_run(start, unblocked(start, calls)),
        run_output(unblocked(start, calls)) == run_output(calls),
        run_end(start, unblocked(start, calls)) == run_end(start, calls),
    decreases calls.len(),
{
    if calls.len() > 0 {
        let c = calls[0];
        let rest = calls.drop_first();
        law_blocking_source_decodes_alike(c.post, rest);
        let kept = unblocked(c.post, rest);
        if c.feed is WouldBlock && wants_input(start, c.before.len()) {
            law_would_block_changes_nothing(start, c.before, c.post, c.after, c.r);
            assert(handed(c.r, c.after) + run_output(rest) =~= run_output(rest));
        } else {
            let all = seq![c] + kept;
            assert(all[0] == c);
            assert(all.drop_first() =~= kept);
        }
    }
}

/// A call that asks to be made again has got somewhere: it has taken bytes
/// from the source or moved on to the next phase. The one exception is a
/// DEFLATE engine that, given input and room, took nothing and wrote nothing.
pub proof fn law_again_means_progress(
    pre: DecoderView,
    feed: Feed,
    before: Seq<u8>,
    post: DecoderView,
    after: Seq<u8>,
    r: ReadStep,
)
    requires
        pre.valid(),
        read_turn(pre, feed, before, post, after, r),
        r.action == Action::Again,
    ensures
        r.consumed > 0 || post.state != pre.state || pre.state is Body,
{
}

/// A trailer that stores the checksum and the length of the bytes it follows
/// is the trailer that the encoder writes for them, and no other.
pub proof fn law_trailer_round_trip(trailer: Seq<u8>, data: Seq<u8>)
    requires
        trailer.len() == 8,
    ensures
        trailer_matches(trailer, data) <==> trailer == trailer_of(data),
{
    let c = crc32(data);
    let n = len32(data);
    let t = trailer_of(data);
    lemma_le32_round_trip(c);
    lemma_le32_round_trip(n);
    if trailer_matches(trailer, data) {
        lemma_le32_bytes_of_le32(trailer[0], trailer[1], trailer[2], trailer[3]);
        lemma_le32_bytes_of_le32(trailer[4], trailer[5], trailer[6], trailer[7]);
        assert(trailer =~= t);
    }
}

/// A member whose eight trailer bytes are not the checksum and length of what
/// was decoded is corrupt: whatever differs, were it a single bit, the decoder
/// fails with the checksum error and ends.
pub proof fn law_wrong_trailer_is_corrupt(
    pre: DecoderView,
    got: Seq<u8>,
    feed: Feed,
    before: Seq<u8>,
    post: DecoderView,
    after: Seq<u8>,
    r: ReadStep,
)
    requires
        pre.state == Phase::Trailer(got),
        got.len() == 8,
        got != trailer_of(pre.output),
        read_turn(pre, feed, before, post, after, r),
    ensures
        r == (ReadStep { consumed: 0, action: Action::Fail(GzError::Corrupt) }),
        post == ended(pre),
{
    law_trailer_round_trip(got, pre.output);
}

/// What is decoded is held against the trailer: where the trailer is the one
/// written for `data`, and what the decoder has handed over differs from
/// `data` in its checksum or in its length modulo 2^32, the decoder fails with
/// the checksum error. (Bytes that differ and agree in both pass: no checksum
/// tells all byte sequences apart.)
pub proof fn law_wrong_output_is_corrupt(
    pre: DecoderView,
    data: Seq<u8>,
    feed: Feed,
    before: Seq<u8>,
    post: DecoderView,
    after: Seq<u8>,
    r: ReadStep,
)
    requires
        pre.state == Phase::Trailer(trailer_of(data)),
        crc32(pre.output) != crc32(data) || len32(pre.output) != len32(data),
        read_turn(pre, feed, before, post, after, r),
    ensures
        r == (ReadStep { consumed: 0, action: Action::Fail(GzError::Corrupt) }),
        post == ended(pre),
{
    law_trailer_round_trip(trailer_of(data), data);
}

/// A member whose trailer is the one that the encoder writes for what was
/// decoded ends well: a decoder for one member ends, and so does one for many
/// where the source has ended.
pub proof fn law_right_trailer_ends_member(
    pre: DecoderView,
    feed: Feed,
    before: Seq<u8>,
    post: DecoderView,
    after: Seq<u8>,
    r: ReadStep,
)
    requires
        pre.state == Phase::Trailer(trailer_of(pre.output)),
        !pre.multi || feed == Feed::Bytes(Seq::empty()),
        read_turn(pre, feed, before, post, after, r),
    ensures
        r == (ReadStep { consumed: 0, action: Action::Ready(0) }),
        post == ended(pre),
{
    law_trailer_round_trip(trailer_of(pre.output), pre.output);
}

/// Members are stitched without loss: where a member's trailer matches and
/// bytes follow, a decoder for many members takes none of them and is, after
/// the call, a decoder that has read nothing yet, with its engine reset. What
/// it makes of the bytes that follow is therefore what a decoder at the start
/// of a stream, with a reset engine, makes of them.
pub proof fn law_next_member_starts_fresh(
    pre: DecoderView,
    input: Seq<u8>,
    before: Seq<u8>,
    post: DecoderView,
    after: Seq<u8>,
    r: ReadStep,
)
    requires
        pre.multi,
        pre.state == Phase::Trailer(trailer_of(pre.output)),
        input.len() > 0,
        read_turn(pre, Feed::Bytes(input), before, post, after, r),
    ensures
        post == fresh(true, inflate_reset(pre.engine)),
        after == before,
        r == (ReadStep { consumed: 0, action: Action::Again }),
{
    law_trailer_round_trip(trailer_of(pre.output), pre.output);
}

/// A clean end is never reported but after a whole trailer that matches: a
/// decoder that has not ended, called with room in the buffer, hands over
/// nothing only when it has read eight trailer bytes that store the checksum
/// and the length of what it has decoded. So a stream that is cut, at whatever
/// byte, is not taken for a whole one.
pub proof fn law_clean_end_needs_matching_trailer(
    pre: DecoderView,
    feed: Feed,
    before: Seq<u8>,
    post: DecoderView,
    after: Seq<u8>,
    r: ReadStep,
)
    requires
        pre.valid(),
        !(pre.state is Ended),
        before.len() > 0,
        read_turn(pre, feed, before, post, after, r),
        r.action == Action::Ready(0),
    ensures
        pre.state matches Phase::Trailer(got) && got.len() == 8 && trailer_matches(
            got,
            pre.output,
        ),
        post == ended(pre),
{
}

/// A stream that stops short is never taken for a whole one. Where the source
/// ends while the header or the trailer is incomplete, the decoder fails with
/// the end-of-file error; where it ends inside the body, the call does not
/// report a clean end: it hands over bytes, asks to go on to the trailer, or
/// fails with the engine's error.
pub proof fn law_truncation_is_reported(
    pre: DecoderView,
    before: Seq<u8>,
    post: DecoderView,
    after: Seq<u8>,
    r: ReadStep,
)
    requires
        pre.valid(),
        before.len() > 0,
        read_turn(pre, Feed::Bytes(Seq::empty()), before, post, after, r),
    ensures
        pre.state is Header ==> r.action == Action::Fail(GzError::UnexpectedEof),
        pre.state matches Phase::Trailer(got) && got.len() < 8 ==> r.action == Action::Fail(
            GzError::UnexpectedEof,
        ),
        pre.state is Body ==> r.action != Action::Ready(0) && (r.action matches Action::Fail(e)
            ==> e == GzError::Deflate) && (r.action is Again ==> post.state == Phase::Trailer(
            Seq::empty(),
        )),
{
}

/// Every byte that the decoder hands over goes into the checksum of the
/// member: a call that reports `n` bytes appends exactly the first `n` bytes of
/// the caller's buffer to the member's output, and no other call changes the
/// output of a member that goes on.
pub proof fn law_output_is_what_was_handed_over(
    pre: DecoderView,
    feed: Feed,
    before: Seq<u8>,
    post: DecoderView,
    after: Seq<u8>,
    r: ReadStep,
)
    requires
        pre.valid(),
        pre.state is Body,
        read_turn(pre, feed, before, post, after, r),
    ensures
        match r.action {
            Action::Ready(n) => n <= after.len() && post.output == pre.output + after.subrange(
                0,
                n as int,
            ),
            _ => post.output == pre.output,
        },
{
}

/// The encoder emits one stream, front to back: a call that hands over `n`
/// bytes appends exactly the first `n` bytes of the caller's buffer to what was
/// emitted, and a call that hands over nothing emits nothing. The three phases
/// stay apart.
pub proof fn law_emitted_grows(
    pre: EncoderView,
    feed: Feed,
    before: Seq<u8>,
    post: EncoderView,
    after: Seq<u8>,
    r: ReadStep,
)
    requires
        pre.valid(),
        encode_turn(pre, feed, before, post, after, r),
    ensures
        post.valid(),
        post.header == pre.header,
        match r.action {
            Action::Ready(n) => n <= after.len() && post.emitted() == pre.emitted()
                + after.subrange(0, n as int),
            _ => post.emitted() == pre.emitted(),
        },
{
    let t = trailer_of(pre.taken);
    assert(t.len() == 8);
    if pre.eof {
        let n = vstd::math::min(before.len() as int, 8 - pre.pos);
        assert(t.subrange(0, pre.pos + n) =~= t.subrange(0, pre.pos as int) + t.subrange(
            pre.pos as int,
            pre.pos + n,
        ));
        assert(post.emitted() =~= pre.emitted() + after.subrange(0, n));
    } else {
        let copied = vstd::math::min(before.len() as int, pre.header.len() - pre.pos);
        let tail = after.subrange(copied, after.len() as int);
        let head = after.subrange(0, copied);
        assert(pre.header.subrange(0, pre.pos + copied) =~= pre.header.subrange(0, pre.pos as int)
            + head);
        if copied == before.len() {
            assert(post.emitted() =~= pre.emitted() + after.subrange(0, copied));
        } else {
            assert(pre.header.subrange(0, pre.header.len() as int) =~= pre.header);
            match feed {
                Feed::Bytes(input) => {
                    let eng = deflate_reply(pre.engine, input, tail.len(), input.len() == 0);
                    if eng.status is Failed || eng.status is NeedDict {
                        assert(post.emitted() =~= pre.emitted());
                    } else if eng.produced > 0 {
                        let n = copied + eng.produced;
                        assert(after.subrange(0, n) =~= head + tail.subrange(
                            0,
                            eng.produced as int,
                        ));
                        assert(post.emitted() =~= pre.emitted() + after.subrange(0, n));
                    } else if !(eng.status is StreamEnd) && input.len() > 0 {
                        if copied > 0 {
                            assert(post.emitted() =~= pre.emitted() + after.subrange(0, copied));
                        } else {
                            assert(post.emitted() =~= pre.emitted());
                        }
                    } else {
                        let m = vstd::math::min(tail.len() as int, 8);
                        let n = copied + m;
                        assert(after.subrange(0, n) =~= head + tail.subrange(0, m));
                        assert(post.emitted() =~= pre.emitted() + after.subrange(0, n));
                    }
                },
                _ => {
                    if copied > 0 {
                        assert(post.emitted() =~= pre.emitted() + after.subrange(0, copied));
                    } else {
                        assert(post.emitted() =~= pre.emitted());
                    }
                },
            }
        }
    }
}

/// The trailer is that of the source: every byte that a call takes from the
/// source, and no other, goes into the bytes that the trailer's checksum and
/// length are computed from.
pub proof fn law_source_is_checksummed(
    pre: EncoderView,
    feed: Feed,
    before: Seq<u8>,
    post: EncoderView,
    after: Seq<u8>,
    r: ReadStep,
)
    requires
        pre.valid(),
        encode_turn(pre, feed, before, post, after, r),
    ensures
        match feed {
            Feed::Bytes(input) => r.consumed <= input.len() && post.taken == pre.taken
                + input.subrange(0, r.consumed as int),
            _ => post.taken == pre.taken,
        },
{
}

/// Once the last trailer byte is out, the encoder is silent: every call hands
/// over nothing, takes nothing from the source and leaves the encoder, its
/// engine and the caller's buffer as they are.
pub proof fn law_finished_encoder_is_silent(
    pre: EncoderView,
    feed: Feed,
    before: Seq<u8>,
    post: EncoderView,
    after: Seq<u8>,
    r: ReadStep,
)
    requires
        pre.finished(),
        encode_turn(pre, feed, before, post, after, r),
    ensures
        post == pre,
        after == before,
        r == (ReadStep { consumed: 0, action: Action::Ready(0) }),
{
    assert(after.subrange(0, after.len() as int) == after);
    assert(before.subrange(0, before.len() as int) == before);
}

/// What a finished encoder has emitted is one gzip member: its header, the
/// compressed body, and the trailer of the source bytes that went in.
pub proof fn law_finished_stream_is_a_member(v: EncoderView)
    requires
        v.finished(),
    ensures
        v.emitted() == v.header + v.body + trailer_of(v.taken),
{
}

/// The frame of a member that was written reads back. Of a member made of the
/// header written for the record `h`, any body, and the trailer written for
/// `data`: the parser finds `h` in exactly the header's bytes, so that the body
/// starts right after them; and the trailer is the one that a decoder accepts
/// when `data` is what it has decoded. What the body decodes to is the DEFLATE
/// engine's part.
pub proof fn law_written_frame_reads_back(
    h: GzHeaderView,
    xfl: u8,
    body: Seq<u8>,
    data: Seq<u8>,
    rest: Seq<u8>,
)
    requires
        encodable(h),
    ensures
        header_of(header_bytes(h, xfl) + body + trailer_of(data) + rest) == (
        HeaderParse::Complete {
            header: h,
            flag: header_flag(h),
            len: header_bytes(h, xfl).len() as int,
        }),
        trailer_matches(trailer_of(data), data),
{
    let hb = header_bytes(h, xfl);
    lemma_header_round_trip(h, xfl, body + trailer_of(data) + rest);
    assert(hb + body + trailer_of(data) + rest =~= hb + (body + trailer_of(data) + rest));
    law_trailer_round_trip(trailer_of(data), data);
}

/// A member that was written decodes to what was written, where the engine
/// decodes its body. Of a member made of the header written for `h`, a body
/// and the trailer written for `data`, given to a decoder for one member that
/// has read nothing, each time all that is left of it: where the engine, on
/// the body and what follows, takes the body, writes `data` and ends, and then
/// takes and writes nothing more, the decoder takes the header, hands over
/// `data`, takes the body and the trailer, and ends cleanly with the record
/// `h`. That the engine does so on a body that it has written itself is the
/// engine's part, and is supposed here, not claimed.
pub proof fn law_member_decodes_where_the_engine_does(
    h: GzHeaderView,
    xfl: u8,
    body: Seq<u8>,
    data: Seq<u8>,
    start: DecoderView,
    c1: Call,
    c2: Call,
    c3: Call,
    c4: Call,
    c5: Call,
)
    requires
        encodable(h),
        data.len() > 0,
        start == fresh(false, start.engine),
        c1.before.len() >= data.len(),
        c1.feed == Feed::Bytes(header_bytes(h, xfl) + body + trailer_of(data)),
        c2.feed == Feed::Bytes(body + trailer_of(data)),
        c3.feed == Feed::Bytes(trailer_of(data)),
        c4.feed == Feed::Bytes(trailer_of(data)),
        c5.feed == Feed::Bytes(Seq::empty()),
        c2.before == c1.after,
        c3.before == c2.after,
        c4.before == c3.after,
        c5.before == c4.after,
        read_turn(start, c1.feed, c1.before, c1.post, c1.after, c1.r),
        read_turn(c1.post, c2.feed, c2.before, c2.post, c2.after, c2.r),
        read_turn(c2.post, c3.feed, c3.before, c3.post, c3.after, c3.r),
        read_turn(c3.post, c4.feed, c4.before, c4.post, c4.after, c4.r),
        read_turn(c4.post, c5.feed, c5.before, c5.post, c5.after, c5.r),
        body.len() <= usize::MAX,
        data.len() <= usize::MAX,
        ({
            let room = c1.before.len();
            let input = body + trailer_of(data);
            let next = inflate_next(start.engine, input, room, false);
            &&& inflate_reply(start.engine, input, room, false) == (EngineStep {
                consumed: body.len() as usize,
                produced: data.len() as usize,
                status: Status::StreamEnd,
            })
            &&& inflate_written(start.engine, input, room, false) == data
            &&& inflate_reply(next, trailer_of(data), room, false) == (EngineStep {
                consumed: 0,
                produced: 0,
                status: Status::StreamEnd,
            })
        }),
    ensures
        c1.r.consumed == header_bytes(h, xfl).len() && c1.r.action == Action::Again,
        c2.r.consumed == body.len() && handed(c2.r, c2.after) == data,
        c3.r == (ReadStep { consumed: 0, action: Action::Again }),
        c4.r == (ReadStep { consumed: 8, action: Action::Again }),
        c5.r == (ReadStep { consumed: 0, action: Action::Ready(0) }),
        c5.post.state is Ended,
        c5.post.header == Some(h),
        c5.post.output == data,
{
    let t = trailer_of(data);
    let hb = header_bytes(h, xfl);
    assert(t.len() == 8);
    lemma_header_round_trip(h, xfl, body + t);
    assert(hb + body + t =~= hb + (body + t));
    assert(Seq::<u8>::empty() + (hb + body + t) =~= hb + body + t);
    assert(c1.post.state is Body);
    assert(c1.after.len() == c1.before.len());
    assert(c2.post.state is Body);
    assert(c2.post.output =~= data);
    assert(c3.post.state == Phase::Trailer(Seq::empty()));
    assert(Seq::<u8>::empty() + t.subrange(0, 8) =~= t);
    assert(c4.post.state == Phase::Trailer(t));
    law_trailer_round_trip(t, data);
}

/// Over a whole run, a decoder for one member keeps in its checksum exactly
/// what it has handed over: the output that the trailer is held against is the
/// output at the start followed by every byte that the run handed to the
/// caller, and nothing else.
pub proof fn law_run_output_is_what_is_checked(start: DecoderView, calls: Seq<Call>)
    requires
        start.valid(),
        !start.multi,
        is_run(start, calls),
    ensures
        run_end(start, calls).valid(),
        !run_end(start, calls).multi,
        run_end(start, calls).output == start.output + run_output(calls),
    decreases calls.len(),
{
    if calls.len() > 0 {
        let c = calls[0];
        law_read_keeps_valid(start, c.feed, c.before, c.post, c.after, c.r);
        law_run_output_is_what_is_checked(c.post, calls.drop_first());
        if start.state is Body {
            law_output_is_what_was_handed_over(start, c.feed, c.before, c.post, c.after, c.r);
        }
        assert(c.post.output == start.output + handed(c.r, c.after));
        assert(start.output + (handed(c.r, c.after) + run_output(calls.drop_first())) =~= (
        start.output + handed(c.r, c.after)) + run_output(calls.drop_first()));
    } else {
        assert(start.output + Seq::<u8>::empty() =~= start.output);
    }
}

/// A run of a decoder for one member that comes to a clean end has read a
/// trailer that stores the checksum and the length of exactly the bytes that
/// the whole run handed over. So no stream that is cut short, at whatever
/// byte, and none whose decoded bytes have another checksum or length than
/// its trailer says, is taken for a whole one.
pub proof fn law_clean_run_has_matching_trailer(
    start: DecoderView,
    calls: Seq<Call>,
    last: Call,
)
    requires
        start.valid(),
        !start.multi,
        start.output.len() == 0,
        is_run(start, calls),
        !(run_end(start, calls).state is Ended),
        last.before.len() > 0,
        read_turn(run_end(start, calls), last.feed, last.before, last.post, last.after, last.r),
        last.r.action == Action::Ready(0),
    ensures
        run_end(start, calls).state matches Phase::Trailer(got) && got.len() == 8
            && trailer_matches(got, run_output(calls)),
        last.post.state is Ended,
{
    law_run_output_is_what_is_checked(start, calls);
    let end = run_end(start, calls);
    law_clean_end_needs_matching_trailer(
        end,
        last.feed,
        last.before,
        last.post,
        last.after,
        last.r,
    );
    assert(start.output + run_output(calls) =~= run_output(calls));
}

/// A run of a decoder for one member that has read the trailer written for
/// `data`, and has handed over bytes with another checksum or another length,
/// fails on its next call with the checksum error, and ends.
pub proof fn law_run_with_wrong_bytes_is_corrupt(
    start: DecoderView,
    calls: Seq<Call>,
    data: Seq<u8>,
    last: Call,
)
    requires
        start.valid(),
        !start.multi,
        start.output.len() == 0,
        is_run(start, calls),
        run_end(start, calls).state == Phase::Trailer(trailer_of(data)),
        crc32(run_output(calls)) != crc32(data) || len32(run_output(calls)) != len32(data),
        read_turn(run_end(start, calls), last.feed, last.before, last.post, last.after, last.r),
    ensures
        last.r == (ReadStep { consumed: 0, action: Action::Fail(GzError::Corrupt) }),
        last.post.state is Ended,
{
    law_run_output_is_what_is_checked(start, calls);
    let end = run_end(start, calls);
    assert(start.output + run_output(calls) =~= run_output(calls));
    law_wrong_output_is_corrupt(
        end,
        data,
        last.feed,
        last.before,
        last.post,
        last.after,
        last.r,
    );
}

/// After a member, a run of a decoder for many members goes on as the run of a
/// decoder that has read nothing: where the first call of a run finds a
/// trailer that matches and bytes that follow, the calls after it are a run of
/// a decoder at the start of a stream, with the engine reset, and the run
/// hands over what that run hands over.
pub proof fn law_run_goes_on_with_the_next_member(start: DecoderView, calls: Seq<Call>)
    requires
        start.multi,
        start.state == Phase::Trailer(trailer_of(start.output)),
        is_run(start, calls),
        calls.len() > 0,
        calls[0].feed matches Feed::Bytes(input) && input.len() > 0,
    ensures
        calls[0].r == (ReadStep { consumed: 0, action: Action::Again }),
        is_run(fresh(true, inflate_reset(start.engine)), calls.drop_first()),
        run_output(calls) == run_output(calls.drop_first()),
{
    let c = calls[0];
    law_next_member_starts_fresh(start, c.feed->Bytes_0, c.before, c.post, c.after, c.r);
    assert(handed(c.r, c.after) + run_output(calls.drop_first()) =~= run_output(
        calls.drop_first(),
    ));
}

/// One call in a run of calls of an encoder: what the source gave, the buffer
/// before and after, the outcome, and the encoder after the call.
pub struct Emission {
    pub feed: Feed,
    pub before: Seq<u8>,
    pub after: Seq<u8>,
    pub r: ReadStep,
    pub post: EncoderView,
}

/// `calls` is a run of an encoder that starts as `start`.
pub open spec fn is_encoding(start: EncoderView, calls: Seq<Emission>) -> bool
    decreases calls.len(),
{
    calls.len() == 0 || {
        let c = calls[0];
        &&& encode_turn(start, c.feed, c.before, c.post, c.after, c.r)
        &&& is_encoding(c.post, calls.drop_first())
    }
}

/// The bytes that a run of an encoder hands to the caller, call after call.
pub open spec fn encoded(calls: Seq<Emission>) -> Seq<u8>
    decreases calls.len(),
{
    if calls.len() == 0 {
        Seq::empty()
    } else {
        handed(calls[0].r, calls[0].after) + encoded(calls.drop_first())
    }
}

/// The bytes that a call takes from the source.
pub open spec fn taken_by(feed: Feed, r: ReadStep) -> Seq<u8> {
    match feed {
        Feed::Bytes(input) => input.subrange(0, r.consumed as int),
        _ => Seq::empty(),
    }
}

/// The bytes that a run of an encoder takes from the source, call after call.
pub open spec fn source_of(calls: Seq<Emission>) -> Seq<u8>
    decreases calls.len(),
{
    if calls.len() == 0 {
        Seq::empty()
    } else {
        taken_by(calls[0].feed, calls[0].r) + source_of(calls.drop_first())
    }
}

/// The encoder that a run leaves.
pub open spec fn encoding_end(start: EncoderView, calls: Seq<Emission>) -> EncoderView
    decreases calls.len(),
{
    if calls.len() == 0 {
        start
    } else {
        encoding_end(calls[0].post, calls.drop_first())
    }
}

/// Over a whole run, what the encoder has emitted grows by exactly the bytes
/// that the run hands over, and what its trailer is computed from grows by
/// exactly the bytes that the run takes from the source.
pub proof fn law_run_emits_one_stream(start: EncoderView, calls: Seq<Emission>)
    requires
        start.valid(),
        is_encoding(start, calls),
    ensures
        encoding_end(start, calls).valid(),
        encoding_end(start, calls).header == start.header,
        encoding_end(start, calls).emitted() == start.emitted() + encoded(calls),
        encoding_end(start, calls).taken == start.taken + source_of(calls),
    decreases calls.len(),
{
    if calls.len() > 0 {
        let c = calls[0];
        let rest = calls.drop_first();
        law_emitted_grows(start, c.feed, c.before, c.post, c.after, c.r);
        law_source_is_checksummed(start, c.feed, c.before, c.post, c.after, c.r);
        law_run_emits_one_stream(c.post, rest);
        assert(c.post.emitted() == start.emitted() + handed(c.r, c.after));
        assert(c.post.taken == start.taken + taken_by(c.feed, c.r));
        assert(start.emitted() + (handed(c.r, c.after) + encoded(rest)) =~= (start.emitted()
            + handed(c.r, c.after)) + encoded(rest));
        assert(start.taken + (taken_by(c.feed, c.r) + source_of(rest)) =~= (start.taken
            + taken_by(c.feed, c.r)) + source_of(rest));
    } else {
        assert(start.emitted() + Seq::<u8>::empty() =~= start.emitted());
        assert(start.taken + Seq::<u8>::empty() =~= start.taken);
    }
}

/// A whole run of an encoder that has emitted nothing at its start and is
/// finished at its end has handed over one gzip member: the header, the bytes
/// that the engine wrote, and the trailer with the checksum and the length of
/// exactly the source bytes that the run took.
pub proof fn law_run_encodes_a_member(start: EncoderView, calls: Seq<Emission>)
    requires
        start.valid(),
        !start.eof,
        start.pos == 0,
        start.body.len() == 0,
        start.taken.len() == 0,
        is_encoding(start, calls),
        encoding_end(start, calls).finished(),
    ensures
        encoded(calls) == start.header + encoding_end(start, calls).body + trailer_of(
            source_of(calls),
        ),
{
    law_run_emits_one_stream(start, calls);
    law_finished_stream_is_a_member(encoding_end(start, calls));
    assert(start.emitted() =~= Seq::<u8>::empty());
    assert(start.emitted() + encoded(calls) =~= encoded(calls));
    assert(start.taken + source_of(calls) =~= source_of(calls));
}

} // verus!
