//! CRC-32 (IEEE) as the gzip format uses it: its definition, and `crc32fast`,
//! which computes it.

use vstd::prelude::*;

verus! {

/// One turn of the CRC-32 shift register: a shift to the right, and the
/// reflected IEEE polynomial where a one is shifted out.
pub open spec fn crc_shift(c: u32) -> u32 {
    if c & 1 == 1 {
        (c >> 1) ^ 0xedb8_8320
    } else {
        c >> 1
    }
}

/// The shift register after it has taken the byte `b`: eight turns.
pub open spec fn crc_byte(c: u32, b: u8) -> u32 {
    let c1 = crc_shift(crc_shift(c ^ (b as u32)));
    let c2 = crc_shift(crc_shift(c1));
    let c3 = crc_shift(crc_shift(c2));
    crc_shift(crc_shift(c3))
}

/// The shift register after it has taken `bytes`, one after the other.
pub open spec fn crc_register(c: u32, bytes: Seq<u8>) -> u32
    decreases bytes.len(),
{
    if bytes.len() == 0 {
        c
    } else {
        crc_byte(crc_register(c, bytes.drop_last()), bytes.last())
    }
}

/// A CRC-32 (IEEE) computation that is continued: the checksum reached from
/// the checksum `init` over `bytes`. The register holds the complement of the
/// checksum.
pub open spec fn crc32_extend(init: u32, bytes: Seq<u8>) -> u32 {
    !crc_register(!init, bytes)
}

/// The CRC-32 (IEEE) of a message, as the gzip trailer stores it.
pub open spec fn crc32(bytes: Seq<u8>) -> u32 {
    crc32_extend(0, bytes)
}

/// Taking `a` and then `b` leaves the register as taking `a` followed by `b`
/// does.
pub proof fn lemma_register_streams(c: u32, a: Seq<u8>, b: Seq<u8>)
    ensures
        crc_register(c, a + b) == crc_register(crc_register(c, a), b),
    decreases b.len(),
{
    if b.len() == 0 {
        assert(a + b =~= a);
    } else {
        lemma_register_streams(c, a, b.drop_last());
        assert((a + b).drop_last() =~= a + b.drop_last());
        assert((a + b).last() == b.last());
    }
}

/// The checksum streams: continued over `bytes` from the checksum of `seen`,
/// it is the checksum of `seen` followed by `bytes`. The checksum of nothing
/// is 0.
pub proof fn lemma_crc32_streams(seen: Seq<u8>, bytes: Seq<u8>)
    ensures
        crc32_extend(crc32(seen), bytes) == crc32(seen + bytes),
        crc32(Seq::<u8>::empty()) == 0,
{
    let zero: u32 = 0;
    let reg = crc_register(!zero, seen);
    assert(!!reg == reg) by (bit_vector);
    assert(!!zero == zero) by (bit_vector);
    lemma_register_streams(!zero, seen, bytes);
}

/// Taking one more byte is one more step of the register.
pub proof fn lemma_register_takes_a_byte(c: u32, bytes: Seq<u8>, b: u8)
    ensures
        crc_register(c, bytes.push(b)) == crc_byte(crc_register(c, bytes), b),
{
    assert(bytes.push(b).drop_last() =~= bytes);
}

/// The definition at work on a known message: the CRC-32 of the eleven bytes
/// of "Hello World" is 0x4A17B156.
pub proof fn lemma_crc32_of_hello_world()
    ensures
        crc32(seq![72u8, 101u8, 108u8, 108u8, 111u8, 32u8, 87u8, 111u8, 114u8, 108u8, 100u8])
            == 0x4a17_b156u32,
{
    let start: u32 = 0xffff_ffff;
    let zero: u32 = 0;
    assert(!zero == 0xffff_ffffu32) by (bit_vector)
        requires
            zero == 0,
    ;
    let m0 = Seq::<u8>::empty();
    let m1 = m0.push(72u8);
    lemma_register_takes_a_byte(start, m0, 72u8);
    assert(crc_byte(0xffffffffu32, 72u8) == 0x55fad9d0u32) by (bit_vector);
    let m2 = m1.push(101u8);
    lemma_register_takes_a_byte(start, m1, 101u8);
    assert(crc_byte(0x55fad9d0u32, 101u8) == 0xbb5ebddau32) by (bit_vector);
    let m3 = m2.push(108u8);
    lemma_register_takes_a_byte(start, m2, 108u8);
    assert(crc_byte(0xbb5ebddau32, 108u8) == 0x22b94804u32) by (bit_vector);
    let m4 = m3.push(108u8);
    lemma_register_takes_a_byte(start, m3, 108u8);
    assert(crc_byte(0x22b94804u32, 108u8) == 0x434b5022u32) by (bit_vector);
    let m5 = m4.push(111u8);
    lemma_register_takes_a_byte(start, m4, 111u8);
    assert(crc_byte(0x434b5022u32, 111u8) == 0x082e767du32) by (bit_vector);
    let m6 = m5.push(32u8);
    lemma_register_takes_a_byte(start, m5, 32u8);
    assert(crc_byte(0x082e767du32, 32u8) == 0x15d2033fu32) by (bit_vector);
    let m7 = m6.push(87u8);
    lemma_register_takes_a_byte(start, m6, 87u8);
    assert(crc_byte(0x15d2033fu32, 87u8) == 0x437c3b69u32) by (bit_vector);
    let m8 = m7.push(111u8);
    lemma_register_takes_a_byte(start, m7, 111u8);
    assert(crc_byte(0x437c3b69u32, 111u8) == 0xe920d90eu32) by (bit_vector);
    let m9 = m8.push(114u8);
    lemma_register_takes_a_byte(start, m8, 114u8);
    assert(crc_byte(0xe920d90eu32, 114u8) == 0x595a1dceu32) by (bit_vector);
    let m10 = m9.push(108u8);
    lemma_register_takes_a_byte(start, m9, 108u8);
    assert(crc_byte(0x595a1dceu32, 108u8) == 0x388198d9u32) by (bit_vector);
    let m11 = m10.push(100u8);
    lemma_register_takes_a_byte(start, m10, 100u8);
    assert(crc_byte(0x388198d9u32, 100u8) == 0xb5e84ea9u32) by (bit_vector);
    assert(m11 =~= seq![72u8, 101u8, 108u8, 108u8, 111u8, 32u8, 87u8, 111u8, 114u8, 108u8, 100u8]);
    let last: u32 = 0xb5e8_4ea9;
    assert(!last == 0x4a17_b156u32) by (bit_vector)
        requires
            last == 0xb5e8_4ea9u32,
    ;
}

/// Continues a CRC-32 computation: `crc` is the checksum so far, `bytes` come
/// next.
///
/// Trusted. The body runs `crc32fast::Hasher::new_with_initial`, `update` and
/// `finalize`. The contract claims that they compute the CRC-32 (IEEE) that
/// `crc32_extend` defines.
#[verifier::external_body]
pub(crate) fn crc32_update(crc: u32, bytes: &[u8]) -> (r: u32)
    ensures
        r == crc32_extend(crc, bytes@),
{
    let mut hasher = crc32fast::Hasher::new_with_initial(crc);
    hasher.update(bytes);
    hasher.finalize()
}

/// Extends the checksum of a message by more bytes: given the CRC-32 of `seen`,
/// returns the CRC-32 of `seen` followed by `bytes`.
pub(crate) fn crc32_append(crc: u32, bytes: &[u8], Ghost(seen): Ghost<Seq<u8>>) -> (r: u32)
    requires
        crc == crc32(seen),
    ensures
        r == crc32(seen + bytes@),
{
    proof {
        lemma_crc32_streams(seen, bytes@);
    }
    crc32_update(crc, bytes)
}

/// The CRC-32 of `bytes`.
pub fn crc32_of(bytes: &[u8]) -> (r: u32)
    ensures
        r == crc32(bytes@),
{
    proof {
        lemma_crc32_streams(Seq::empty(), Seq::empty());
        assert(Seq::<u8>::empty() + bytes@ =~= bytes@);
    }
    crc32_append(0, bytes, Ghost(Seq::empty()))
}

/// The length of a message as the gzip trailer stores it: modulo 2^32.
pub open spec fn len32(bytes: Seq<u8>) -> u32 {
    (bytes.len() % 0x1_0000_0000) as u32
}

/// A running checksum and byte count over the bytes that pass through.
pub struct Crc {
    sum: u32,
    amt: u32,
    bytes: Ghost<Seq<u8>>,
}

impl Crc {
    /// The bytes that have passed through since the start or the last reset.
    pub closed spec fn bytes(&self) -> Seq<u8> {
        self.bytes@
    }

    /// The sum and the count are those of the bytes that have passed.
    pub closed spec fn wf(&self) -> bool {
        &&& self.sum == crc32(self.bytes@)
        &&& self.amt == len32(self.bytes@)
    }

    /// A checksum over nothing.
    pub fn new() -> (c: Crc)
        ensures
            c.wf(),
            c.bytes() == Seq::<u8>::empty(),
    {
        proof {
            lemma_crc32_streams(Seq::empty(), Seq::empty());
        }
        Crc { sum: 0, amt: 0, bytes: Ghost(Seq::empty()) }
    }

    /// The CRC-32 of the bytes that have passed.
    pub fn sum(&self) -> (r: u32)
        requires
            self.wf(),
        ensures
            r == crc32(self.bytes()),
    {
        self.sum
    }

    /// The number of bytes that have passed, modulo 2^32.
    pub fn amount(&self) -> (r: u32)
        requires
            self.wf(),
        ensures
            r == len32(self.bytes()),
    {
        self.amt
    }

    /// Lets `data` pass.
    pub fn update(&mut self, data: &[u8])
        requires
            old(self).wf(),
        ensures
            final(self).wf(),
            final(self).bytes() == old(self).bytes() + data@,
    {
        let low: u64 = (data.len() as u64) % 0x1_0000_0000u64;
        let next: u64 = (self.amt as u64 + low) % 0x1_0000_0000u64;
        self.amt = next as u32;
        self.sum = crc32_append(self.sum, data, Ghost(self.bytes@));
        self.bytes = Ghost(self.bytes@ + data@);
    }

    /// Forgets what has passed.
    pub fn reset(&mut self)
        ensures
            final(self).wf(),
            final(self).bytes() == Seq::<u8>::empty(),
    {
        proof {
            lemma_crc32_streams(Seq::empty(), Seq::empty());
        }
        self.sum = 0;
        self.amt = 0;
        self.bytes = Ghost(Seq::empty());
    }
}

} // verus!
