//! Composing a header: the bytes that a record is written as, and the proof
//! that the parser reads the record back from them.

use crate::bytes::{le16, le16_bytes, le32_bytes, lemma_le32_round_trip, write_le32};
use crate::header::{
    comment_field, extra_field, flag_set, header_of, lemma_nul_from_found, name_field, no_nul,
    GzHeader, GzHeaderView, HeaderParse, FCOMMENT, FEXTRA, FHCRC, FNAME,
};
use crate::level::Compression;
use vstd::prelude::*;

verus! {

/// Whether a record can be written as a header: the extra field's length fits
/// in 16 bits, and neither the file name nor the comment holds a zero byte.
pub open spec fn encodable(h: GzHeaderView) -> bool {
    &&& h.extra matches Some(e) ==> e.len() <= 0xffff
    &&& h.filename matches Some(n) ==> no_nul(n, 0)
    &&& h.comment matches Some(c) ==> no_nul(c, 0)
}

/// The flag byte of a header that is written for `h`: one bit for each optional
/// field that is present, and no header checksum.
pub open spec fn header_flag(h: GzHeaderView) -> u8 {
    if h.extra is Some {
        if h.filename is Some {
            if h.comment is Some {
                28
            } else {
                12
            }
        } else {
            if h.comment is Some {
                20
            } else {
                4
            }
        }
    } else {
        if h.filename is Some {
            if h.comment is Some {
                24
            } else {
                8
            }
        } else {
            if h.comment is Some {
                16
            } else {
                0
            }
        }
    }
}

/// The extra field as it is written: its length in two bytes, then its bytes.
pub open spec fn extra_bytes(extra: Option<Seq<u8>>) -> Seq<u8> {
    match extra {
        Some(e) => le16_bytes(e.len() as u16) + e,
        None => Seq::empty(),
    }
}

/// A file name or a comment as it is written: its bytes, then a zero.
pub open spec fn text_bytes(text: Option<Seq<u8>>) -> Seq<u8> {
    match text {
        Some(t) => t.push(0u8),
        None => Seq::empty(),
    }
}

/// The ten fixed bytes of a header that is written for `h`.
pub open spec fn fixed_bytes(h: GzHeaderView, xfl: u8) -> Seq<u8> {
    seq![0x1fu8, 0x8bu8, 8u8, header_flag(h)] + le32_bytes(h.mtime) + seq![xfl, h.operating_system]
}

/// The header that is written for `h` with the extra-flags byte `xfl`: the
/// fixed part, then the optional fields that are present, without a checksum.
pub open spec fn header_bytes(h: GzHeaderView, xfl: u8) -> Seq<u8> {
    fixed_bytes(h, xfl) + extra_bytes(h.extra) + text_bytes(h.filename) + text_bytes(h.comment)
}

/// Which bits are set in the flag byte that is written for `h`.
pub proof fn lemma_header_flag_bits(h: GzHeaderView)
    ensures
        flag_set(header_flag(h), FEXTRA) == (h.extra is Some),
        flag_set(header_flag(h), FNAME) == (h.filename is Some),
        flag_set(header_flag(h), FCOMMENT) == (h.comment is Some),
        !flag_set(header_flag(h), FHCRC),
{
    let f = header_flag(h);
    assert((f & 4 != 0) == (f == 4 || f == 12 || f == 20 || f == 28) && (f & 8 != 0) == (f == 8
        || f == 12 || f == 24 || f == 28) && (f & 16 != 0) == (f == 16 || f == 20 || f == 24 || f
        == 28) && (f & 2 == 0)) by (bit_vector)
        requires
            f == 0 || f == 4 || f == 8 || f == 12 || f == 16 || f == 20 || f == 24 || f == 28,
    ;
}

/// Reading back a header that was written: the parser finds the record that
/// was written, in exactly the bytes that it was written as, whatever follows
/// them.
pub proof fn lemma_header_round_trip(h: GzHeaderView, xfl: u8, rest: Seq<u8>)
    requires
        encodable(h),
    ensures
        header_of(header_bytes(h, xfl) + rest) == (HeaderParse::Complete {
            header: h,
            flag: header_flag(h),
            len: header_bytes(h, xfl).len() as int,
        }),
{
    let hb = header_bytes(h, xfl);
    let s = hb + rest;
    let fx = fixed_bytes(h, xfl);
    let ex = extra_bytes(h.extra);
    let nm = text_bytes(h.filename);
    let cm = text_bytes(h.comment);
    lemma_header_flag_bits(h);
    lemma_le32_round_trip(h.mtime);
    assert forall|k: int| 0 <= k < 10 implies s[k] == fx[k] by {}
    let e: int = 10 + ex.len() as int;
    assert forall|k: int| 0 <= k < ex.len() implies s[10 + k] == ex[k] by {}
    if let Some(x) = h.extra {
        let n16 = x.len() as u16;
        assert(le16(n16 as u8, (n16 >> 8) as u8) == n16) by (bit_vector);
    }
    assert(extra_field(s) == h.extra);
    let n: int = e + nm.len() as int;
    assert forall|k: int| 0 <= k < nm.len() implies s[e + k] == nm[k] by {}
    if let Some(x) = h.filename {
        assert forall|k: int| e <= k < e + x.len() implies s[k] != 0 by {}
        lemma_nul_from_found(s, e, e + x.len());
    }
    assert(name_field(s) == h.filename);
    let c: int = n + cm.len() as int;
    assert forall|k: int| 0 <= k < cm.len() implies s[n + k] == cm[k] by {}
    if let Some(x) = h.comment {
        assert forall|k: int| n <= k < n + x.len() implies s[k] != 0 by {}
        lemma_nul_from_found(s, n, n + x.len());
    }
    assert(comment_field(s) == h.comment);
}

/// Whether `v` holds a zero byte.
fn has_nul(v: &Vec<u8>) -> (b: bool)
    ensures
        b == !no_nul(v@, 0),
{
    let mut i: usize = 0;
    while i < v.len()
        invariant
            i <= v@.len(),
            forall|k: int| 0 <= k < i ==> v@[k] != 0,
        decreases v@.len() - i,
    {
        if v[i] == 0 {
            return true;
        }
        i += 1;
    }
    false
}

/// Appends the bytes of `src` to `out`.
fn append(out: &mut Vec<u8>, src: &Vec<u8>)
    ensures
        final(out)@ == old(out)@ + src@,
{
    let mut i: usize = 0;
    while i < src.len()
        invariant
            i <= src@.len(),
            out@ == old(out)@ + src@.subrange(0, i as int),
        decreases src@.len() - i,
    {
        out.push(src[i]);
        i += 1;
    }
}

/// Writes a record as a header for a member that is compressed at level `lvl`.
///
/// Returns the header bytes, without a header checksum; none where the record
/// cannot be written, because its extra field is longer than 65535 bytes or its
/// file name or comment holds a zero byte.
pub fn encode_header(header: &GzHeader, lvl: Compression) -> (r: Option<Vec<u8>>)
    ensures
        match r {
            Some(v) => encodable(header@) && v@ == header_bytes(header@, lvl.xfl()),
            None => !encodable(header@),
        },
{
    let mut flag: u8 = 0;
    if let Some(e) = &header.extra {
        if e.len() > 0xffff {
            return None;
        }
        flag = flag + 4;
    }
    if let Some(n) = &header.filename {
        if has_nul(n) {
            return None;
        }
        flag = flag + 8;
    }
    if let Some(c) = &header.comment {
        if has_nul(c) {
            return None;
        }
        flag = flag + 16;
    }
    let mtime = write_le32(header.mtime);
    let mut out: Vec<u8> = Vec::new();
    out.push(0x1f);
    out.push(0x8b);
    out.push(8);
    out.push(flag);
    out.push(mtime[0]);
    out.push(mtime[1]);
    out.push(mtime[2]);
    out.push(mtime[3]);
    out.push(lvl.extra_flags());
    out.push(header.operating_system);
    if let Some(e) = &header.extra {
        let len: usize = e.len();
        let n16: u16 = len as u16;
        out.push(#[verifier::truncate] (n16 as u8));
        out.push(#[verifier::truncate] ((n16 >> 8) as u8));
        append(&mut out, e);
    }
    if let Some(n) = &header.filename {
        append(&mut out, n);
        out.push(0);
    }
    if let Some(c) = &header.comment {
        append(&mut out, c);
        out.push(0);
    }
    Some(out)
}

/// The header of a member that says nothing but how it was compressed: no
/// optional field, time 0, operating system unknown (255).
pub fn plain_header(lvl: Compression) -> (v: Vec<u8>)
    ensures
        v@ == header_bytes(
            GzHeaderView { operating_system: 255, ..GzHeader::empty_view() },
            lvl.xfl(),
        ),
{
    let mut out: Vec<u8> = Vec::new();
    out.push(0x1f);
    out.push(0x8b);
    out.push(8);
    out.push(0);
    out.push(0);
    out.push(0);
    out.push(0);
    out.push(0);
    out.push(lvl.extra_flags());
    out.push(255);
    proof {
        let h = GzHeaderView { operating_system: 255, ..GzHeader::empty_view() };
        assert(le32_bytes(0u32) =~= seq![0u8, 0u8, 0u8, 0u8]) by {
            assert(0u32 as u8 == 0 && (0u32 >> 8) as u8 == 0 && (0u32 >> 16) as u8 == 0 && (0u32
                >> 24) as u8 == 0) by (bit_vector);
        }
    }
    out
}

} // verus!
