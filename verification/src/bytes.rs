//! Little-endian packing and the buffered copy that streams framing bytes.

use vstd::prelude::*;

verus! {

/// The unsigned 16-bit value whose little-endian bytes are `b0 b1`.
pub open spec fn le16(b0: u8, b1: u8) -> u16 {
    (b0 as u16) | ((b1 as u16) << 8)
}

/// The unsigned 32-bit value whose little-endian bytes are `b0 b1 b2 b3`.
pub open spec fn le32(b0: u8, b1: u8, b2: u8, b3: u8) -> u32 {
    (b0 as u32) | ((b1 as u32) << 8) | ((b2 as u32) << 16) | ((b3 as u32) << 24)
}

/// The four little-endian bytes of `v`.
pub open spec fn le32_bytes(v: u32) -> Seq<u8> {
    seq![v as u8, (v >> 8) as u8, (v >> 16) as u8, (v >> 24) as u8]
}

/// The two little-endian bytes of `v`.
pub open spec fn le16_bytes(v: u16) -> Seq<u8> {
    seq![v as u8, (v >> 8) as u8]
}

/// Unpacks a little-endian 16-bit value.
pub fn read_le16(b0: u8, b1: u8) -> (v: u16)
    ensures
        v == le16(b0, b1),
{
    (b0 as u16) | ((b1 as u16) << 8)
}

/// Unpacks a little-endian 32-bit value.
pub fn read_le32(b0: u8, b1: u8, b2: u8, b3: u8) -> (v: u32)
    ensures
        v == le32(b0, b1, b2, b3),
{
    (b0 as u32) | ((b1 as u32) << 8) | ((b2 as u32) << 16) | ((b3 as u32) << 24)
}

/// Packs `v` into its four little-endian bytes.
pub fn write_le32(v: u32) -> (b: [u8; 4])
    ensures
        b@ == le32_bytes(v),
{
    let b: [u8; 4] = [
        #[verifier::truncate] (v as u8),
        #[verifier::truncate] ((v >> 8) as u8),
        #[verifier::truncate] ((v >> 16) as u8),
        #[verifier::truncate] ((v >> 24) as u8),
    ];
    b
}

/// Packing then unpacking a 32-bit value gives it back.
pub proof fn lemma_le32_round_trip(v: u32)
    ensures
        le32(v as u8, (v >> 8) as u8, (v >> 16) as u8, (v >> 24) as u8) == v,
{
    assert(((v as u8) as u32) | ((((v >> 8) as u8) as u32) << 8) | ((((v >> 16) as u8) as u32)
        << 16) | ((((v >> 24) as u8) as u32) << 24) == v) by (bit_vector);
}

/// Unpacking four bytes and packing the value gives the bytes back.
pub proof fn lemma_le32_bytes_of_le32(b0: u8, b1: u8, b2: u8, b3: u8)
    ensures
        le32_bytes(le32(b0, b1, b2, b3)) == seq![b0, b1, b2, b3],
{
    let v = le32(b0, b1, b2, b3);
    assert(v as u8 == b0 && (v >> 8) as u8 == b1 && (v >> 16) as u8 == b2 && (v >> 24) as u8
        == b3) by (bit_vector)
        requires
            v == (b0 as u32) | ((b1 as u32) << 8) | ((b2 as u32) << 16) | ((b3 as u32) << 24),
    ;
}

/// Copies as many bytes as fit from `from[*pos..]` to the front of `into`,
/// advances `pos` past them and returns their number.
pub fn copy(into: &mut [u8], from: &[u8], pos: &mut usize) -> (n: usize)
    requires
        *old(pos) <= from@.len(),
    ensures
        n == vstd::math::min(old(into)@.len() as int, from@.len() - *old(pos)),
        *final(pos) == *old(pos) + n,
        final(into)@.len() == old(into)@.len(),
        final(into)@.subrange(0, n as int) == from@.subrange(*old(pos) as int, *old(pos) + n),
        final(into)@.subrange(n as int, old(into)@.len() as int) == old(into)@.subrange(
            n as int,
            old(into)@.len() as int,
        ),
{
    let start: usize = *pos;
    let room: usize = into.len();
    let left: usize = from.len() - start;
    let min: usize = if room < left { room } else { left };
    let mut i: usize = 0;
    while i < min
        invariant
            i <= min,
            min <= room,
            min <= left,
            start + left == from@.len(),
            start + left <= usize::MAX,
            into@.len() == room,
            room == old(into)@.len(),
            forall|k: int| 0 <= k < i ==> into@[k] == from@[start + k],
            forall|k: int| i <= k < room ==> into@[k] == old(into)@[k],
        decreases min - i,
    {
        into[i] = from[start + i];
        i += 1;
    }
    *pos = start + min;
    min
}

/// Copies as many bytes as fit from `src[from..]` into `buf[pos..]` and returns
/// their number.
pub fn fill<const N: usize>(buf: &mut [u8; N], pos: usize, src: &[u8], from: usize) -> (k: usize)
    requires
        pos <= N,
        from <= src@.len(),
    ensures
        k == vstd::math::min(N - pos, src@.len() - from),
        forall|j: int| 0 <= j < pos ==> final(buf)@[j] == old(buf)@[j],
        forall|j: int| pos <= j < pos + k ==> final(buf)@[j] == src@[from + j - pos],
        forall|j: int| pos + k <= j < N ==> final(buf)@[j] == old(buf)@[j],
{
    let room: usize = N - pos;
    let left: usize = src.len() - from;
    let k: usize = if room < left { room } else { left };
    let mut j: usize = 0;
    while j < k
        invariant
            j <= k,
            k <= room,
            k <= left,
            pos + room == N,
            from + left == src@.len(),
            from + left <= usize::MAX,
            forall|m: int| 0 <= m < pos ==> buf@[m] == old(buf)@[m],
            forall|m: int| pos <= m < pos + j ==> buf@[m] == src@[from + m - pos],
            forall|m: int| pos + j <= m < N ==> buf@[m] == old(buf)@[m],
        decreases k - j,
    {
        buf[pos + j] = src[from + j];
        j += 1;
    }
    k
}

/// Copies as many bytes as fit from `src[from..]` into `dst[pos..]` and returns
/// their number; the length of `dst` stays as it is.
pub fn fill_vec(dst: &mut Vec<u8>, pos: usize, src: &[u8], from: usize) -> (k: usize)
    requires
        pos <= old(dst)@.len(),
        from <= src@.len(),
    ensures
        k == vstd::math::min(old(dst)@.len() - pos, src@.len() - from),
        final(dst)@.len() == old(dst)@.len(),
        forall|j: int| 0 <= j < pos ==> final(dst)@[j] == old(dst)@[j],
        forall|j: int| pos <= j < pos + k ==> final(dst)@[j] == src@[from + j - pos],
        forall|j: int| pos + k <= j < old(dst)@.len() ==> final(dst)@[j] == old(dst)@[j],
{
    let size: usize = dst.len();
    let room: usize = size - pos;
    let left: usize = src.len() - from;
    let k: usize = if room < left { room } else { left };
    let mut j: usize = 0;
    while j < k
        invariant
            j <= k,
            k <= room,
            k <= left,
            pos + room == size,
            dst@.len() == size,
            size == old(dst)@.len(),
            from + left == src@.len(),
            from + left <= usize::MAX,
            forall|m: int| 0 <= m < pos ==> dst@[m] == old(dst)@[m],
            forall|m: int| pos <= m < pos + j ==> dst@[m] == src@[from + m - pos],
            forall|m: int| pos + j <= m < size ==> dst@[m] == old(dst)@[m],
        decreases k - j,
    {
        dst[pos + j] = src[from + j];
        j += 1;
    }
    k
}

/// Little-endian decode of the eight trailer bytes: the stored CRC-32, then the
/// stored length.
pub fn finish(buf: &[u8; 8]) -> (r: (u32, u32))
    ensures
        r.0 == le32(buf@[0], buf@[1], buf@[2], buf@[3]),
        r.1 == le32(buf@[4], buf@[5], buf@[6], buf@[7]),
{
    let crc = read_le32(buf[0], buf[1], buf[2], buf[3]);
    let amt = read_le32(buf[4], buf[5], buf[6], buf[7]);
    (crc, amt)
}

} // verus!
