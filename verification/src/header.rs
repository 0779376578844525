//! The gzip member header: the parsed record, the flag bits, and the grammar of
//! the header as a function on bytes.

use crate::bytes::{le16, le32};
use crate::checksum::crc32;
use vstd::prelude::*;

verus! {

/// Flag bit: a 16-bit header checksum follows the optional fields.
pub const FHCRC: u8 = 2;

/// Flag bit: an extra field, with its 16-bit length in front, is present.
pub const FEXTRA: u8 = 4;

/// Flag bit: a zero-terminated file name is present.
pub const FNAME: u8 = 8;

/// Flag bit: a zero-terminated comment is present.
pub const FCOMMENT: u8 = 16;

/// What a gzip header says about the member it starts.
#[derive(Clone, Debug, PartialEq, Eq)]
pub struct GzHeader {
    /// The extra field, present exactly when `FEXTRA` was set; it may be empty.
    pub extra: Option<Vec<u8>>,
    /// The file name without its terminating zero, present exactly when `FNAME` was set.
    pub filename: Option<Vec<u8>>,
    /// The comment without its terminating zero, present exactly when `FCOMMENT` was set.
    pub comment: Option<Vec<u8>>,
    /// The code of the operating system that wrote the member.
    pub operating_system: u8,
    /// Modification time in seconds since the epoch; 0 when unknown.
    pub mtime: u32,
}

/// The mathematical content of a [`GzHeader`].
pub struct GzHeaderView {
    pub extra: Option<Seq<u8>>,
    pub filename: Option<Seq<u8>>,
    pub comment: Option<Seq<u8>>,
    pub operating_system: u8,
    pub mtime: u32,
}

/// The content of an optional byte field.
pub open spec fn field_view(field: Option<Vec<u8>>) -> Option<Seq<u8>> {
    match field {
        Some(v) => Some(v@),
        None => None,
    }
}

impl View for GzHeader {
    type V = GzHeaderView;

    open spec fn view(&self) -> GzHeaderView {
        GzHeaderView {
            extra: field_view(self.extra),
            filename: field_view(self.filename),
            comment: field_view(self.comment),
            operating_system: self.operating_system,
            mtime: self.mtime,
        }
    }
}

impl GzHeader {
    /// The header of a member about which nothing is known.
    pub open spec fn empty_view() -> GzHeaderView {
        GzHeaderView { extra: None, filename: None, comment: None, operating_system: 0, mtime: 0 }
    }

    /// A header with no optional field, time 0 and operating system 0.
    pub fn new() -> (h: GzHeader)
        ensures
            h@ == GzHeader::empty_view(),
    {
        GzHeader { extra: None, filename: None, comment: None, operating_system: 0, mtime: 0 }
    }
}

impl Default for GzHeader {
    fn default() -> (h: GzHeader)
        ensures
            h@ == GzHeader::empty_view(),
    {
        GzHeader::new()
    }
}

/// Whether `bit` is set in the flag byte.
pub open spec fn flag_set(flag: u8, bit: u8) -> bool {
    flag & bit != 0
}

/// What reading a header from the front of a byte sequence comes to.
pub enum HeaderParse {
    /// Every byte belongs to a header that has not ended yet.
    Incomplete,
    /// The first ten bytes do not start a DEFLATE-compressed gzip member.
    Invalid,
    /// The header ends after `len` bytes, but its stored checksum is wrong.
    Mismatch { len: int },
    /// The first `len` bytes are a header that says `header`; `flag` is its flag byte.
    Complete { header: GzHeaderView, flag: u8, len: int },
}

/// No byte of `s` from `from` on is zero.
pub open spec fn no_nul(s: Seq<u8>, from: int) -> bool {
    forall|k: int| from <= k < s.len() ==> s[k] != 0
}

/// Index of the first zero byte at or after `from`, if there is one.
pub open spec fn nul_from(s: Seq<u8>, from: int) -> Option<int>
    decreases s.len() - from,
{
    if from < 0 || from >= s.len() {
        None
    } else if s[from] == 0 {
        Some(from)
    } else {
        nul_from(s, from + 1)
    }
}

/// Whether the first ten bytes carry the gzip magic and the DEFLATE method.
pub open spec fn magic_ok(s: Seq<u8>) -> bool {
    s.len() >= 10 && s[0] == 0x1f && s[1] == 0x8b && s[2] == 8
}

/// Where the extra field ends (10 when there is none), once `s` reaches that far.
pub open spec fn extra_end(s: Seq<u8>) -> Option<int> {
    if s.len() < 10 {
        None
    } else if !flag_set(s[3], FEXTRA) {
        Some(10)
    } else if s.len() < 12 {
        None
    } else if s.len() < 12 + le16(s[10], s[11]) {
        None
    } else {
        Some(12 + le16(s[10], s[11]))
    }
}

/// Where the file name ends, its terminating zero included, once `s` reaches that far.
pub open spec fn name_end(s: Seq<u8>) -> Option<int> {
    match extra_end(s) {
        None => None,
        Some(p) => if !flag_set(s[3], FNAME) {
            Some(p)
        } else {
            match nul_from(s, p) {
                None => None,
                Some(z) => Some(z + 1),
            }
        },
    }
}

/// Where the comment ends, its terminating zero included, once `s` reaches that far.
pub open spec fn comment_end(s: Seq<u8>) -> Option<int> {
    match name_end(s) {
        None => None,
        Some(p) => if !flag_set(s[3], FCOMMENT) {
            Some(p)
        } else {
            match nul_from(s, p) {
                None => None,
                Some(z) => Some(z + 1),
            }
        },
    }
}

/// The extra field of the header at the front of `s`. Meaningful once
/// `extra_end(s)` is known.
pub open spec fn extra_field(s: Seq<u8>) -> Option<Seq<u8>> {
    if flag_set(s[3], FEXTRA) {
        Some(s.subrange(12, extra_end(s).unwrap()))
    } else {
        None
    }
}

/// The file name of the header at the front of `s`, without its terminating
/// zero. Meaningful once `name_end(s)` is known.
pub open spec fn name_field(s: Seq<u8>) -> Option<Seq<u8>> {
    if flag_set(s[3], FNAME) {
        Some(s.subrange(extra_end(s).unwrap(), name_end(s).unwrap() - 1))
    } else {
        None
    }
}

/// The comment of the header at the front of `s`, without its terminating
/// zero. Meaningful once `comment_end(s)` is known.
pub open spec fn comment_field(s: Seq<u8>) -> Option<Seq<u8>> {
    if flag_set(s[3], FCOMMENT) {
        Some(s.subrange(name_end(s).unwrap(), comment_end(s).unwrap() - 1))
    } else {
        None
    }
}

/// The record that the header at the front of `s` holds. Meaningful once
/// `comment_end(s)` is known.
pub open spec fn header_fields(s: Seq<u8>) -> GzHeaderView {
    GzHeaderView {
        extra: extra_field(s),
        filename: name_field(s),
        comment: comment_field(s),
        operating_system: s[9],
        mtime: le32(s[4], s[5], s[6], s[7]),
    }
}

/// The low 16 bits of the CRC-32 of the first `len` bytes: what a header
/// checksum stored after them has to be.
pub open spec fn header_crc16(s: Seq<u8>, len: int) -> u16 {
    crc32(s.subrange(0, len)) as u16
}

/// The gzip header grammar: what the bytes at the front of `s` amount to.
pub open spec fn header_of(s: Seq<u8>) -> HeaderParse {
    if s.len() < 10 {
        HeaderParse::Incomplete
    } else if !magic_ok(s) {
        HeaderParse::Invalid
    } else {
        match comment_end(s) {
            None => HeaderParse::Incomplete,
            Some(c) => if !flag_set(s[3], FHCRC) {
                HeaderParse::Complete { header: header_fields(s), flag: s[3], len: c }
            } else if s.len() < c + 2 {
                HeaderParse::Incomplete
            } else if le16(s[c], s[c + 1]) != header_crc16(s, c) {
                HeaderParse::Mismatch { len: c + 2 }
            } else {
                HeaderParse::Complete { header: header_fields(s), flag: s[3], len: c + 2 }
            },
        }
    }
}

/// How many leading bytes of `s` the grammar needed to reach its verdict; the
/// whole of `s` while the verdict is still open.
pub open spec fn decided_len(s: Seq<u8>) -> int {
    match header_of(s) {
        HeaderParse::Incomplete => s.len() as int,
        HeaderParse::Invalid => 10,
        HeaderParse::Mismatch { len } => len,
        HeaderParse::Complete { len, .. } => len,
    }
}

/// What `nul_from` finds is the first zero byte at or after `from`.
pub proof fn lemma_nul_from_is_first(s: Seq<u8>, from: int)
    requires
        0 <= from <= s.len(),
    ensures
        match nul_from(s, from) {
            Some(z) => from <= z < s.len() && s[z] == 0 && forall|k: int|
                from <= k < z ==> s[k] != 0,
            None => forall|k: int| from <= k < s.len() ==> s[k] != 0,
        },
    decreases s.len() - from,
{
    if from < s.len() && s[from] != 0 {
        lemma_nul_from_is_first(s, from + 1);
    }
}

/// A zero byte at `z` with none between `from` and `z` is what `nul_from` finds.
pub proof fn lemma_nul_from_found(s: Seq<u8>, from: int, z: int)
    requires
        0 <= from <= z < s.len(),
        s[z] == 0,
        forall|k: int| from <= k < z ==> s[k] != 0,
    ensures
        nul_from(s, from) == Some(z),
    decreases z - from,
{
    if from < z {
        lemma_nul_from_found(s, from + 1, z);
    }
}

/// Where no byte from `from` on is zero, `nul_from` finds nothing.
pub proof fn lemma_nul_from_none(s: Seq<u8>, from: int)
    requires
        0 <= from,
        forall|k: int| from <= k < s.len() ==> s[k] != 0,
    ensures
        nul_from(s, from) is None,
    decreases s.len() - from,
{
    if from < s.len() {
        lemma_nul_from_none(s, from + 1);
    }
}

/// A zero byte found in `a` is found at the same place in any extension of `a`.
pub proof fn lemma_nul_from_extends(a: Seq<u8>, t: Seq<u8>, from: int)
    requires
        0 <= from <= a.len(),
        nul_from(a, from) is Some,
    ensures
        nul_from(a + t, from) == nul_from(a, from),
{
    lemma_nul_from_is_first(a, from);
    let z = nul_from(a, from).unwrap();
    assert forall|k: int| from <= k < z implies (a + t)[k] != 0 by {}
    lemma_nul_from_found(a + t, from, z);
}

/// The section ends that are known for `a` are the same for any extension of `a`,
/// and lie within `a`.
pub proof fn lemma_ends_extend(a: Seq<u8>, t: Seq<u8>)
    ensures
        extra_end(a) matches Some(e) ==> 10 <= e <= a.len() && extra_end(a + t) == Some(e) && (
        flag_set(a[3], FEXTRA) ==> 12 <= e),
        name_end(a) matches Some(n) ==> extra_end(a).unwrap() <= n <= a.len() && name_end(a + t)
            == Some(n) && (flag_set(a[3], FNAME) ==> extra_end(a).unwrap() < n),
        comment_end(a) matches Some(c) ==> name_end(a).unwrap() <= c <= a.len() && comment_end(
            a + t,
        ) == Some(c) && (flag_set(a[3], FCOMMENT) ==> name_end(a).unwrap() < c),
{
    if let Some(e) = extra_end(a) {
        if let Some(n) = name_end(a) {
            if flag_set(a[3], FNAME) {
                lemma_nul_from_is_first(a, e);
                lemma_nul_from_extends(a, t, e);
            }
            if let Some(c) = comment_end(a) {
                if flag_set(a[3], FCOMMENT) {
                    lemma_nul_from_is_first(a, n);
                    lemma_nul_from_extends(a, t, n);
                }
            }
        }
    }
}

/// The optional fields that are known for `a` are the same for any extension of `a`.
pub proof fn lemma_fields_extend(a: Seq<u8>, t: Seq<u8>)
    ensures
        extra_end(a) is Some ==> extra_field(a + t) == extra_field(a),
        name_end(a) is Some ==> name_field(a + t) == name_field(a),
        comment_end(a) is Some ==> comment_field(a + t) == comment_field(a),
{
    lemma_ends_extend(a, t);
}

/// A verdict of the grammar is final: once the bytes at the front of a sequence
/// are a complete header, an invalid one or one with a wrong checksum, no bytes
/// that follow change that, nor the record, nor the length.
pub proof fn lemma_header_verdict_is_final(a: Seq<u8>, t: Seq<u8>)
    requires
        !(header_of(a) is Incomplete),
    ensures
        header_of(a + t) == header_of(a),
        10 <= decided_len(a) <= a.len(),
        magic_ok(a) ==> header_fields(a + t) == header_fields(a),
{
    let b = a + t;
    if magic_ok(a) {
        lemma_ends_extend(a, t);
        lemma_fields_extend(a, t);
        assert(b[4] == a[4] && b[5] == a[5] && b[6] == a[6] && b[7] == a[7] && b[9] == a[9]);
        let c = comment_end(a).unwrap();
        if flag_set(a[3], FHCRC) {
            assert(b.subrange(0, c) =~= a.subrange(0, c));
        }
    }
}

} // verus!
