//! Big-endian integer codecs.

use vstd::prelude::*;
use vstd::utf8::*;
use crate::io::BytesBuffer;

verus! {

/// The two big-endian bytes of `v`.
pub open spec fn be_bytes_u16(v: u16) -> Seq<u8> {
    seq![(v / 0x100) as u8, (v % 0x100) as u8]
}

/// The four big-endian bytes of `v`.
pub open spec fn be_bytes_u32(v: u32) -> Seq<u8> {
    seq![
        (v / 0x100_0000) as u8,
        ((v / 0x1_0000) % 0x100) as u8,
        ((v / 0x100) % 0x100) as u8,
        (v % 0x100) as u8,
    ]
}

/// The number that two bytes spell, most significant first.
pub open spec fn be_value_u16(b: Seq<u8>) -> u16
    recommends
        b.len() == 2,
{
    (b[0] as int * 0x100 + b[1] as int) as u16
}

/// The number that four bytes spell, most significant first.
pub open spec fn be_value_u32(b: Seq<u8>) -> u32
    recommends
        b.len() == 4,
{
    (b[0] as int * 0x100_0000 + b[1] as int * 0x1_0000 + b[2] as int * 0x100 + b[3] as int) as u32
}

pub fn u16_as_bytes(value: u16) -> (r: [u8; 2])
    ensures
        r@ == be_bytes_u16(value),
{
    let lo = value & 0xFF;
    let hi = value >> 8;
    assert(value & 0xFF == value % 0x100) by (bit_vector);
    assert(value >> 8 == value / 0x100) by (bit_vector);
    let r = [hi as u8, lo as u8];
    assert(r@ =~= be_bytes_u16(value));
    r
}

#[verifier::rlimit(30)]
pub fn u32_as_bytes(value: u32) -> (r: [u8; 4])
    ensures
        r@ == be_bytes_u32(value),
{
    let lo_u16 = value & 0xFFFF;
    let hi_u16 = value >> 16;
    assert(value & 0xFFFF == value % 0x1_0000) by (bit_vector);
    assert(value >> 16 == value / 0x1_0000) by (bit_vector);
    assert((value / 0x1_0000) / 0x100 == value / 0x100_0000) by (bit_vector);
    assert((value % 0x1_0000) / 0x100 == (value / 0x100) % 0x100) by (bit_vector);
    assert((value % 0x1_0000) % 0x100 == value % 0x100) by (bit_vector);
    let lo_arr = u16_as_bytes(lo_u16 as u16);
    let hi_arr = u16_as_bytes(hi_u16 as u16);
    let r = [hi_arr[0], hi_arr[1], lo_arr[0], lo_arr[1]];
    assert(r@ =~= be_bytes_u32(value));
    r
}

pub fn bytes_as_u16(bytes: &[u8; 2]) -> (r: u16)
    ensures
        r == be_value_u16(bytes@),
{
    let hi = bytes[0] as u16;
    let lo = bytes[1] as u16;
    assert(hi < 0x100 && lo < 0x100 ==> (hi << 8) | lo == hi * 0x100 + lo) by (bit_vector);
    (hi << 8) | lo
}

pub fn bytes_as_u32(bytes: &[u8; 4]) -> (r: u32)
    ensures
        r == be_value_u32(bytes@),
{
    let hi = bytes_as_u16(&[bytes[0], bytes[1]]) as u32;
    let lo = bytes_as_u16(&[bytes[2], bytes[3]]) as u32;
    assert(hi < 0x1_0000 && lo < 0x1_0000 ==> (hi << 16) | lo == hi * 0x1_0000 + lo)
        by (bit_vector);
    (hi << 16) | lo
}

/// Reading back the bytes of a number gives the number.
pub proof fn lemma_u32_round_trip(v: u32)
    ensures
        be_bytes_u32(v).len() == 4,
        be_value_u32(be_bytes_u32(v)) == v,
{
}

/// Reading back the bytes of a number gives the number.
pub proof fn lemma_u16_round_trip(v: u16)
    ensures
        be_bytes_u16(v).len() == 2,
        be_value_u16(be_bytes_u16(v)) == v,
{
}

/// Appends the bytes of `src` to `dst`.
pub fn append_bytes(dst: &mut Vec<u8>, src: &[u8])
    ensures
        final(dst)@ == old(dst)@ + src@,
{
    let ghost before = dst@;
    let mut i: usize = 0;
    while i < src.len()
        invariant
            0 <= i <= src@.len(),
            dst@ == before + src@.subrange(0, i as int),
        decreases src@.len() - i,
    {
        dst.push(src[i]);
        i = i + 1;
        assert(dst@ =~= before + src@.subrange(0, i as int));
    }
    assert(src@.subrange(0, i as int) =~= src@);
}

/// Writes `data` as a length-prefixed string: its byte length in four
/// big-endian bytes, then its UTF-8 bytes.
pub fn write_string_to_bytes_buffer(bytes_buffer: &mut BytesBuffer, data: &str)
    requires
        old(bytes_buffer).wf(),
        encode_utf8(data@).len() <= u32::MAX,
    ensures
        final(bytes_buffer).wf(),
        final(bytes_buffer).pos() == old(bytes_buffer).pos(),
        final(bytes_buffer).data() == old(bytes_buffer).data() + be_bytes_u32(
            encode_utf8(data@).len() as u32,
        ) + encode_utf8(data@),
        final(bytes_buffer).unread() == old(bytes_buffer).unread() + be_bytes_u32(
            encode_utf8(data@).len() as u32,
        ) + encode_utf8(data@),
{
    let data_bytes = data.as_bytes();
    let data_len = data_bytes.len();
    bytes_buffer.write_bytes(&u32_as_bytes(data_len as u32));
    bytes_buffer.write_bytes(data_bytes);
}

} // verus!
