//! The resumable header parser: a state machine that takes the header bytes in
//! whatever pieces they arrive and keeps a running CRC-32 of them.

use crate::bytes::{fill, fill_vec, le16, le32, read_le16, read_le32};
use crate::checksum::{crc32, crc32_append, lemma_crc32_streams};
use crate::error::GzError;
use crate::header::{
    comment_end, extra_end, extra_field, field_view, flag_set, header_crc16,
    header_fields, header_of, lemma_ends_extend, lemma_fields_extend,
    lemma_header_verdict_is_final, lemma_nul_from_found, lemma_nul_from_none, magic_ok, name_end,
    name_field, no_nul, GzHeader, GzHeaderView, HeaderParse, FCOMMENT, FEXTRA, FHCRC, FNAME,
};
use vstd::prelude::*;
use vstd::slice::slice_subrange;

verus! {

/// Where the parser stands in a header. Each state carries only the bytes it
/// still has to fill.
#[derive(Clone, Copy, Debug)]
pub enum GzHeaderState {
    /// Filling the ten fixed bytes: how many are in, and the bytes.
    Header(usize, [u8; 10]),
    /// Filling the two bytes of the extra field's length.
    ExtraLen(usize, [u8; 2]),
    /// Filling the extra field, whose size the previous state has set.
    Extra(usize),
    /// Taking the file name up to and including its terminating zero.
    FileName,
    /// Taking the comment up to and including its terminating zero.
    Comment,
    /// Filling the two bytes of the stored header checksum: the value they
    /// have to hold, how many are in, and the bytes.
    Crc(u16, usize, [u8; 2]),
}

/// How far a call of the parser has come.
#[derive(Clone, Copy, Debug, PartialEq, Eq, Structural)]
pub enum Progress {
    /// The header is complete, and valid.
    Done,
    /// All input was taken and the header has not ended.
    NeedMore,
    /// The header cannot be parsed.
    Failed(GzError),
}

/// What a call of the parser did with its input.
#[derive(Clone, Copy, Debug)]
pub struct HeaderStep {
    /// How many bytes were taken from the front of the input.
    pub consumed: usize,
    /// Where the parse stands after them.
    pub progress: Progress,
}

/// A header parse in progress: the state, the record as far as it is known,
/// the flag byte, and the CRC-32 of the header bytes taken so far.
pub struct HeaderParser {
    state: GzHeaderState,
    header: GzHeader,
    flag: u8,
    crc: u32,
    seen: Ghost<Seq<u8>>,
}

/// The position of a state in the order in which a header is read.
spec fn rank(state: GzHeaderState) -> int {
    match state {
        GzHeaderState::Header(..) => 0,
        GzHeaderState::ExtraLen(..) => 1,
        GzHeaderState::Extra(..) => 2,
        GzHeaderState::FileName => 3,
        GzHeaderState::Comment => 4,
        GzHeaderState::Crc(..) => 5,
    }
}

/// The bytes of a field that is still being read; none before its first byte.
spec fn partial(field: Option<Vec<u8>>) -> Seq<u8> {
    match field {
        Some(v) => v@,
        None => Seq::empty(),
    }
}

/// The first `pos` bytes of `buf` are the bytes of `s` from `at` on.
spec fn holds_tail(buf: Seq<u8>, pos: int, s: Seq<u8>, at: int) -> bool {
    &&& 0 <= pos <= buf.len()
    &&& s.len() == at + pos
    &&& forall|k: int| 0 <= k < pos ==> buf[k] == s[at + k]
}

impl HeaderParser {
    /// Every header byte taken so far, in order.
    pub closed spec fn seen(&self) -> Seq<u8> {
        self.seen@
    }

    /// The record as far as it has been read.
    pub closed spec fn header_view(&self) -> GzHeaderView {
        self.header@
    }

    /// The flag byte, once the fixed part has been read.
    pub closed spec fn flag(&self) -> u8 {
        self.flag
    }

    /// The state the parser is in.
    pub closed spec fn state(&self) -> GzHeaderState {
        self.state
    }

    /// The fixed part has been read and accepted.
    spec fn fixed_ok(&self) -> bool {
        let s = self.seen@;
        &&& magic_ok(s)
        &&& self.flag == s[3]
        &&& self.header.mtime == le32(s[4], s[5], s[6], s[7])
        &&& self.header.operating_system == s[9]
    }

    /// The parser's state, record and checksum agree with the bytes it has taken.
    pub closed spec fn wf(&self) -> bool {
        let s = self.seen@;
        match self.state {
            GzHeaderState::Header(pos, buf) => {
                &&& holds_tail(buf@, pos as int, s, 0)
                &&& self.crc == crc32(s)
                &&& self.header.extra is None
                &&& self.header.filename is None
                &&& self.header.comment is None
            },
            GzHeaderState::ExtraLen(pos, buf) => {
                &&& self.fixed_ok()
                &&& holds_tail(buf@, pos as int, s, 10)
                &&& (!flag_set(self.flag, FEXTRA) ==> pos == 0)
                &&& self.crc == crc32(s)
                &&& self.header.extra is None
                &&& self.header.filename is None
                &&& self.header.comment is None
            },
            GzHeaderState::Extra(pos) => {
                &&& self.fixed_ok()
                &&& flag_set(self.flag, FEXTRA)
                &&& s.len() >= 12
                &&& self.header.extra is Some
                &&& self.header.extra.unwrap()@.len() == le16(s[10], s[11])
                &&& holds_tail(self.header.extra.unwrap()@, pos as int, s, 12)
                &&& self.crc == crc32(s)
                &&& self.header.filename is None
                &&& self.header.comment is None
            },
            GzHeaderState::FileName => {
                &&& self.fixed_ok()
                &&& extra_end(s) is Some
                &&& field_view(self.header.extra) == extra_field(s)
                &&& no_nul(s, extra_end(s).unwrap())
                &&& partial(self.header.filename) == s.subrange(
                    extra_end(s).unwrap(),
                    s.len() as int,
                )
                &&& (!flag_set(self.flag, FNAME) ==> s.len() == extra_end(s).unwrap()
                    && self.header.filename is None)
                &&& self.crc == crc32(s)
                &&& self.header.comment is None
            },
            GzHeaderState::Comment => {
                &&& self.fixed_ok()
                &&& name_end(s) is Some
                &&& field_view(self.header.extra) == extra_field(s)
                &&& field_view(self.header.filename) == name_field(s)
                &&& no_nul(s, name_end(s).unwrap())
                &&& partial(self.header.comment) == s.subrange(name_end(s).unwrap(), s.len() as int)
                &&& (!flag_set(self.flag, FCOMMENT) ==> s.len() == name_end(s).unwrap()
                    && self.header.comment is None)
                &&& self.crc == crc32(s)
            },
            GzHeaderState::Crc(expected, pos, buf) => {
                &&& self.fixed_ok()
                &&& comment_end(s) is Some
                &&& self.header@ == header_fields(s)
                &&& holds_tail(buf@, pos as int, s, comment_end(s).unwrap())
                &&& expected == header_crc16(s, comment_end(s).unwrap())
                &&& (!flag_set(self.flag, FHCRC) ==> pos == 0)
            },
        }
    }

    /// Gives up the parser for the record it has read.
    pub fn into_header(self) -> (h: GzHeader)
        ensures
            h@ == self.header_view(),
    {
        self.header
    }

    /// A parser that has taken nothing yet.
    pub fn new() -> (p: HeaderParser)
        ensures
            p.wf(),
            p.seen() == Seq::<u8>::empty(),
            p.state() matches GzHeaderState::Header(pos, _) && pos == 0,
    {
        proof {
            lemma_crc32_streams(Seq::empty(), Seq::empty());
        }
        HeaderParser {
            state: GzHeaderState::Header(0, [0u8; 10]),
            header: GzHeader::new(),
            flag: 0,
            crc: 0,
            seen: Ghost(Seq::empty()),
        }
    }
}

/// What one turn of the state machine has to achieve: `r.0` is how far into the
/// input the parser has come, `r.1` the verdict if the turn ended the call.
spec fn turn_ok(
    before: HeaderParser,
    after: HeaderParser,
    input: Seq<u8>,
    i: int,
    r: (usize, Option<Progress>),
) -> bool {
    let s = after.seen@;
    &&& after.wf()
    &&& i <= r.0 <= input.len()
    &&& s == before.seen@ + input.subrange(i, r.0 as int)
    &&& match r.1 {
        None => r.0 > i || rank(after.state) > rank(before.state),
        Some(Progress::NeedMore) => r.0 == input.len() && header_of(s) is Incomplete,
        Some(Progress::Done) => header_of(s) == (HeaderParse::Complete {
            header: after.header@,
            flag: after.flag,
            len: s.len() as int,
        }),
        Some(Progress::Failed(e)) => {
            ||| {
                &&& e == GzError::BadHeader
                &&& header_of(s) is Invalid
                &&& s.len() == 10
                &&& after.header@.extra is None
                &&& after.header@.filename is None
                &&& after.header@.comment is None
            }
            ||| {
                &&& e == GzError::Corrupt
                &&& header_of(s) == (HeaderParse::Mismatch { len: s.len() as int })
                &&& after.header@ == header_fields(s)
            }
        },
    }
}

impl HeaderParser {
    /// Takes `chunk`, the next header bytes, into the record of what was seen,
    /// and into the checksum.
    fn take(&mut self, chunk: &[u8])
        requires
            old(self).crc == crc32(old(self).seen@),
        ensures
            final(self).seen@ == old(self).seen@ + chunk@,
            final(self).crc == crc32(final(self).seen@),
            final(self).state == old(self).state,
            final(self).header == old(self).header,
            final(self).flag == old(self).flag,
    {
        self.crc = crc32_append(self.crc, chunk, Ghost(self.seen@));
        self.seen = Ghost(self.seen@ + chunk@);
    }

    /// One turn in the state that fills the ten fixed bytes.
    fn turn_fixed(&mut self, input: &[u8], i: usize, pos: usize, buf: [u8; 10]) -> (r: (
        usize,
        Option<Progress>,
    ))
        requires
            old(self).wf(),
            old(self).state == GzHeaderState::Header(pos, buf),
            i <= input@.len(),
        ensures
            turn_ok(*old(self), *final(self), input@, i as int, r),
    {
        if pos < 10 {
            if i == input.len() {
                return (i, Some(Progress::NeedMore));
            }
            let mut b: [u8; 10] = buf;
            let k = fill(&mut b, pos, input, i);
            let chunk = slice_subrange(input, i, i + k);
            self.take(chunk);
            self.state = GzHeaderState::Header(pos + k, b);
            (i + k, None)
        } else {
            if buf[0] != 0x1f || buf[1] != 0x8b || buf[2] != 8 {
                return (i, Some(Progress::Failed(GzError::BadHeader)));
            }
            self.flag = buf[3];
            self.header.mtime = read_le32(buf[4], buf[5], buf[6], buf[7]);
            self.header.operating_system = buf[9];
            self.state = GzHeaderState::ExtraLen(0, [0u8; 2]);
            (i, None)
        }
    }

    /// One turn in the state that fills the length of the extra field.
    fn turn_extra_len(&mut self, input: &[u8], i: usize, pos: usize, buf: [u8; 2]) -> (r: (
        usize,
        Option<Progress>,
    ))
        requires
            old(self).wf(),
            old(self).state == GzHeaderState::ExtraLen(pos, buf),
            i <= input@.len(),
        ensures
            turn_ok(*old(self), *final(self), input@, i as int, r),
    {
        let ghost s = self.seen@;
        if self.flag & FEXTRA == 0 {
            assert(s.subrange(10, 10) =~= Seq::<u8>::empty());
            self.state = GzHeaderState::FileName;
            return (i, None);
        }
        if pos < 2 {
            if i == input.len() {
                return (i, Some(Progress::NeedMore));
            }
            let mut b: [u8; 2] = buf;
            let k = fill(&mut b, pos, input, i);
            let chunk = slice_subrange(input, i, i + k);
            self.take(chunk);
            self.state = GzHeaderState::ExtraLen(pos + k, b);
            (i + k, None)
        } else {
            let xlen = read_le16(buf[0], buf[1]);
            let extra: Vec<u8> = vec![0u8; xlen as usize];
            self.header.extra = Some(extra);
            if xlen != 0 {
                self.state = GzHeaderState::Extra(0);
            } else {
                assert(extra@ =~= s.subrange(12, 12));
                assert(s.subrange(12, 12) =~= Seq::<u8>::empty());
                self.state = GzHeaderState::FileName;
            }
            (i, None)
        }
    }

    /// One turn in the state that fills the extra field.
    fn turn_extra(&mut self, input: &[u8], i: usize, pos: usize) -> (r: (usize, Option<Progress>))
        requires
            old(self).wf(),
            old(self).state == GzHeaderState::Extra(pos),
            i <= input@.len(),
        ensures
            turn_ok(*old(self), *final(self), input@, i as int, r),
    {
        let ghost s = self.seen@;
        let mut extra: Vec<u8> = match self.header.extra.take() {
            Some(v) => v,
            None => Vec::new(),
        };
        if pos < extra.len() {
            if i == input.len() {
                self.header.extra = Some(extra);
                return (i, Some(Progress::NeedMore));
            }
            let k = fill_vec(&mut extra, pos, input, i);
            let chunk = slice_subrange(input, i, i + k);
            self.header.extra = Some(extra);
            self.take(chunk);
            self.state = GzHeaderState::Extra(pos + k);
            (i + k, None)
        } else {
            assert(extra@ =~= s.subrange(12, s.len() as int));
            assert(s.subrange(s.len() as int, s.len() as int) =~= Seq::<u8>::empty());
            self.header.extra = Some(extra);
            self.state = GzHeaderState::FileName;
            (i, None)
        }
    }

    /// One turn in the state that takes the file name.
    fn turn_name(&mut self, input: &[u8], i: usize) -> (r: (usize, Option<Progress>))
        requires
            old(self).wf(),
            old(self).state == GzHeaderState::FileName,
            i <= input@.len(),
        ensures
            turn_ok(*old(self), *final(self), input@, i as int, r),
    {
        let ghost s = self.seen@;
        let ghost e = extra_end(s).unwrap();
        if self.flag & FNAME == 0 {
            self.state = GzHeaderState::Comment;
            return (i, None);
        }
        let mut name: Vec<u8> = match self.header.filename.take() {
            Some(v) => v,
            None => Vec::new(),
        };
        let (end, found) = scan_field(input, i, &mut name);
        let ghost j = end - if found { 1int } else { 0 };
        let chunk = slice_subrange(input, i, end);
        self.header.filename = Some(name);
        self.take(chunk);
        let ghost t = self.seen@;
        proof {
            lemma_fields_extend(s, chunk@);
            assert forall|k: int| e <= k < s.len() + (j - i) implies t[k] != 0 by {}
        }
        if found {
            proof {
                let z = s.len() + (j - i);
                lemma_nul_from_found(t, e, z);
                assert(name@ =~= t.subrange(e, z));
                assert(t.subrange(t.len() as int, t.len() as int) =~= Seq::<u8>::empty());
            }
            self.state = GzHeaderState::Comment;
            (end, None)
        } else {
            proof {
                lemma_nul_from_none(t, e);
                assert(name@ =~= t.subrange(e, t.len() as int));
            }
            (end, Some(Progress::NeedMore))
        }
    }

    /// One turn in the state that takes the comment.
    fn turn_comment(&mut self, input: &[u8], i: usize) -> (r: (usize, Option<Progress>))
        requires
            old(self).wf(),
            old(self).state == GzHeaderState::Comment,
            i <= input@.len(),
        ensures
            turn_ok(*old(self), *final(self), input@, i as int, r),
    {
        let ghost s = self.seen@;
        let ghost n = name_end(s).unwrap();
        if self.flag & FCOMMENT == 0 {
            assert(s.subrange(0, n) =~= s);
            self.state = GzHeaderState::Crc(#[verifier::truncate] (self.crc as u16), 0, [0u8; 2]);
            return (i, None);
        }
        let mut comment: Vec<u8> = match self.header.comment.take() {
            Some(v) => v,
            None => Vec::new(),
        };
        let (end, found) = scan_field(input, i, &mut comment);
        let ghost j = end - if found { 1int } else { 0 };
        let chunk = slice_subrange(input, i, end);
        self.header.comment = Some(comment);
        self.take(chunk);
        let ghost t = self.seen@;
        proof {
            lemma_ends_extend(s, chunk@);
            lemma_fields_extend(s, chunk@);
            assert forall|k: int| n <= k < s.len() + (j - i) implies t[k] != 0 by {
                if k >= s.len() {
                    assert(t[k] == input@[i + (k - s.len())]);
                }
            }
        }
        if found {
            proof {
                let z = s.len() + (j - i);
                lemma_nul_from_found(t, n, z);
                assert(comment@ =~= t.subrange(n, z));
                assert(t.subrange(0, t.len() as int) =~= t);
            }
            self.state = GzHeaderState::Crc(#[verifier::truncate] (self.crc as u16), 0, [0u8; 2]);
            (end, None)
        } else {
            proof {
                lemma_nul_from_none(t, n);
                assert(comment@ =~= t.subrange(n, t.len() as int));
            }
            (end, Some(Progress::NeedMore))
        }
    }

    /// One turn in the state that fills and checks the stored header checksum.
    fn turn_crc(&mut self, input: &[u8], i: usize, expected: u16, pos: usize, buf: [u8; 2]) -> (r:
        (usize, Option<Progress>))
        requires
            old(self).wf(),
            old(self).state == GzHeaderState::Crc(expected, pos, buf),
            i <= input@.len(),
        ensures
            turn_ok(*old(self), *final(self), input@, i as int, r),
    {
        let ghost s = self.seen@;
        let ghost c = comment_end(s).unwrap();
        if self.flag & FHCRC == 0 {
            return (i, Some(Progress::Done));
        }
        if pos < 2 {
            if i == input.len() {
                return (i, Some(Progress::NeedMore));
            }
            let mut b: [u8; 2] = buf;
            let k = fill(&mut b, pos, input, i);
            let chunk = slice_subrange(input, i, i + k);
            self.seen = Ghost(self.seen@ + chunk@);
            self.state = GzHeaderState::Crc(expected, pos + k, b);
            proof {
                let t = self.seen@;
                lemma_ends_extend(s, chunk@);
                lemma_fields_extend(s, chunk@);
                assert(t.subrange(0, c) =~= s.subrange(0, c));
            }
            (i + k, None)
        } else {
            let stored = read_le16(buf[0], buf[1]);
            if expected != stored {
                (i, Some(Progress::Failed(GzError::Corrupt)))
            } else {
                (i, Some(Progress::Done))
            }
        }
    }

    /// One turn of the state machine, whatever the state.
    fn turn(&mut self, input: &[u8], i: usize) -> (r: (usize, Option<Progress>))
        requires
            old(self).wf(),
            i <= input@.len(),
        ensures
            turn_ok(*old(self), *final(self), input@, i as int, r),
    {
        match self.state {
            GzHeaderState::Header(pos, buf) => self.turn_fixed(input, i, pos, buf),
            GzHeaderState::ExtraLen(pos, buf) => self.turn_extra_len(input, i, pos, buf),
            GzHeaderState::Extra(pos) => self.turn_extra(input, i, pos),
            GzHeaderState::FileName => self.turn_name(input, i),
            GzHeaderState::Comment => self.turn_comment(input, i),
            GzHeaderState::Crc(expected, pos, buf) => self.turn_crc(input, i, expected, pos, buf),
        }
    }
}

/// Appends the bytes of `input` from `i` on to `field`, up to a zero byte or
/// the end of the input. Returns where the next section starts, which is
/// after the zero byte if there is one, and whether there is one.
fn scan_field(input: &[u8], i: usize, field: &mut Vec<u8>) -> (r: (usize, bool))
    requires
        i <= input@.len(),
    ensures
        i <= r.0 <= input@.len(),
        r.1 ==> i < r.0 && input@[r.0 - 1] == 0,
        !r.1 ==> r.0 == input@.len(),
        final(field)@ == old(field)@ + input@.subrange(i as int, r.0 - if r.1 { 1int } else { 0 }),
        forall|k: int| i <= k < r.0 - if r.1 { 1int } else { 0 } ==> input@[k] != 0,
{
    let mut j: usize = i;
    while j < input.len() && input[j] != 0
        invariant
            i <= j <= input@.len(),
            field@ == old(field)@ + input@.subrange(i as int, j as int),
            forall|k: int| i <= k < j ==> input@[k] != 0,
        decreases input@.len() - j,
    {
        field.push(input[j]);
        j += 1;
    }
    if j < input.len() {
        (j + 1, true)
    } else {
        (j, false)
    }
}

/// What a call of the parser returns, as a function of the bytes taken before
/// (`seen`) and the bytes offered (`input`): the verdict of the header grammar
/// on the two together decides the outcome and how much of the input is taken.
/// An empty input stands for the end of the source. The record is the header's
/// where the header is complete, also where its stored checksum is wrong; it
/// holds no optional field where the fixed part is refused.
pub open spec fn step_matches(
    seen: Seq<u8>,
    input: Seq<u8>,
    r: HeaderStep,
    header: GzHeaderView,
    flag: u8,
) -> bool {
    match header_of(seen + input) {
        HeaderParse::Incomplete => {
            &&& r.consumed == input.len()
            &&& r.progress == if input.len() == 0 {
                Progress::Failed(GzError::UnexpectedEof)
            } else {
                Progress::NeedMore
            }
        },
        HeaderParse::Invalid => {
            &&& seen.len() + r.consumed == 10
            &&& r.progress == Progress::Failed(GzError::BadHeader)
            &&& header.extra is None
            &&& header.filename is None
            &&& header.comment is None
        },
        HeaderParse::Mismatch { len } => {
            &&& seen.len() + r.consumed == len
            &&& r.progress == Progress::Failed(GzError::Corrupt)
            &&& header == header_fields(seen + input)
        },
        HeaderParse::Complete { header: h, flag: f, len } => {
            &&& seen.len() + r.consumed == len
            &&& r.progress == Progress::Done
            &&& header == h
            &&& flag == f
        },
    }
}

/// Advances a header parse over `input`, the bytes that the source has at hand;
/// an empty `input` says that the source has ended.
///
/// Takes bytes from the front of `input` until the header is complete, is found
/// invalid, or the input is used up, and says how many it took. The parser keeps
/// everything it has learnt, so the next call goes on where this one stopped,
/// however the header bytes are split between the calls.
pub fn read_gz_header2(input: &[u8], parser: &mut HeaderParser) -> (r: HeaderStep)
    requires
        old(parser).wf(),
    ensures
        final(parser).wf(),
        r.consumed <= input@.len(),
        final(parser).seen() == old(parser).seen() + input@.subrange(0, r.consumed as int),
        step_matches(
            old(parser).seen(),
            input@,
            r,
            final(parser).header_view(),
            final(parser).flag(),
        ),
{
    let ghost seen0 = parser.seen@;
    let mut i: usize = 0;
    loop
        invariant
            parser.wf(),
            i <= input@.len(),
            parser.seen@ == seen0 + input@.subrange(0, i as int),
            seen0 == old(parser).seen@,
        decreases input@.len() - i, 5 - rank(parser.state),
    {
        let ghost before = parser.seen@;
        let (j, stop) = parser.turn(input, i);
        proof {
            assert(before + input@.subrange(i as int, j as int) =~= seen0 + input@.subrange(
                0,
                j as int,
            ));
        }
        i = j;
        match stop {
            None => {},
            Some(verdict) => {
                proof {
                    let rest = input@.subrange(i as int, input@.len() as int);
                    assert(parser.seen@ + rest =~= seen0 + input@);
                    if !(verdict == Progress::NeedMore) {
                        lemma_header_verdict_is_final(parser.seen@, rest);
                    }
                }
                let progress = match verdict {
                    Progress::NeedMore => if input.len() == 0 {
                        Progress::Failed(GzError::UnexpectedEof)
                    } else {
                        Progress::NeedMore
                    },
                    Progress::Done => Progress::Done,
                    Progress::Failed(e) => Progress::Failed(e),
                };
                return HeaderStep { consumed: i, progress };
            },
        }
    }
}

/// Reads one header from the front of `input`, which holds all there is.
///
/// Returns the record and the number of bytes the header takes, so that
/// `input[n..]` starts with the first DEFLATE byte.
pub fn read_gz_header(input: &[u8]) -> (r: Result<(GzHeader, usize), GzError>)
    ensures
        match header_of(input@) {
            HeaderParse::Incomplete => r matches Err(e) && e == GzError::UnexpectedEof,
            HeaderParse::Invalid => r matches Err(e) && e == GzError::BadHeader,
            HeaderParse::Mismatch { .. } => r matches Err(e) && e == GzError::Corrupt,
            HeaderParse::Complete { header, len, .. } => r matches Ok(found) && found.0@
                == header && found.1 == len,
        },
{
    let mut parser = HeaderParser::new();
    let step = read_gz_header2(input, &mut parser);
    match step.progress {
        Progress::Done => Ok((parser.header, step.consumed)),
        Progress::NeedMore => Err(GzError::UnexpectedEof),
        Progress::Failed(e) => Err(e),
    }
}

} // verus!
