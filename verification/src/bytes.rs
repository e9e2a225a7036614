//! Small byte-level helpers shared by the encoders and decoders.

use vstd::prelude::*;

verus! {

/// The big-endian encoding of a 16-bit value.
pub open spec fn be16(x: u16) -> Seq<u8> {
    seq![(x / 256) as u8, (x % 256) as u8]
}

/// The value of two big-endian bytes.
pub open spec fn be16_value(hi: u8, lo: u8) -> u16 {
    (hi * 256 + lo) as u16
}

/// The low three bytes of a 32-bit value, big-endian.
pub open spec fn be24(x: u32) -> Seq<u8> {
    seq![((x / 65536) % 256) as u8, ((x / 256) % 256) as u8, (x % 256) as u8]
}

/// The value of three big-endian bytes.
pub open spec fn be24_value(b0: u8, b1: u8, b2: u8) -> u32 {
    (b0 * 65536 + b1 * 256 + b2) as u32
}

/// Appends `bytes` to `v`.
pub fn append_bytes(v: &mut Vec<u8>, bytes: &[u8])
    ensures
        final(v)@ == old(v)@ + bytes@,
{
    let ghost start = v@;
    let mut i: usize = 0;
    while i < bytes.len()
        invariant
            i <= bytes@.len(),
            v@ == start + bytes@.take(i as int),
        decreases bytes@.len() - i,
    {
        v.push(bytes[i]);
        i = i + 1;
        assert(bytes@.take(i as int) =~= bytes@.take((i - 1) as int).push(bytes@[i - 1]));
    }
    assert(bytes@.take(i as int) =~= bytes@);
}

/// A copy of `data`.
pub fn copy_bytes(data: &[u8]) -> (v: Vec<u8>)
    ensures
        v@ == data@,
{
    let mut v: Vec<u8> = Vec::new();
    append_bytes(&mut v, data);
    assert(v@ =~= data@);
    v
}

/// A copy of the first `len` bytes of `data`.
pub fn prefix_bytes(data: &[u8], len: usize) -> (v: Vec<u8>)
    requires
        len <= data@.len(),
    ensures
        v@ == data@.take(len as int),
{
    let mut v: Vec<u8> = Vec::new();
    let mut i: usize = 0;
    while i < len
        invariant
            i <= len <= data@.len(),
            v@ == data@.take(i as int),
        decreases len - i,
    {
        v.push(data[i]);
        i = i + 1;
        assert(data@.take(i as int) =~= data@.take((i - 1) as int).push(data@[i - 1]));
    }
    v
}

/// Appends the big-endian encoding of `x` to `v`.
pub fn append_be16(v: &mut Vec<u8>, x: u16)
    ensures
        final(v)@ == old(v)@ + be16(x),
{
    let hi: u8 = (x / 256) as u8;
    let lo: u8 = (x % 256) as u8;
    v.push(hi);
    v.push(lo);
    assert(final(v)@ =~= old(v)@ + be16(x));
}

/// Appends the low three bytes of `x`, big-endian, to `v`.
pub fn append_be24(v: &mut Vec<u8>, x: u32)
    ensures
        final(v)@ == old(v)@ + be24(x),
{
    let b0: u8 = ((x / 65536) % 256) as u8;
    let b1: u8 = ((x / 256) % 256) as u8;
    let b2: u8 = (x % 256) as u8;
    v.push(b0);
    v.push(b1);
    v.push(b2);
    assert(final(v)@ =~= old(v)@ + be24(x));
}

/// The bytes of `data` from `off` on, as a four-byte array.
pub fn array4_at(data: &[u8], off: usize) -> (a: [u8; 4])
    requires
        off + 4 <= data@.len(),
    ensures
        a@ == data@.subrange(off as int, off + 4),
{
    let a: [u8; 4] = [data[off], data[off + 1], data[off + 2], data[off + 3]];
    assert(a@ =~= data@.subrange(off as int, off + 4));
    a
}

/// The bytes of `data` from `off` on, as a six-byte array.
pub fn array6_at(data: &[u8], off: usize) -> (a: [u8; 6])
    requires
        off + 6 <= data@.len(),
    ensures
        a@ == data@.subrange(off as int, off + 6),
{
    let a: [u8; 6] = [
        data[off],
        data[off + 1],
        data[off + 2],
        data[off + 3],
        data[off + 4],
        data[off + 5],
    ];
    assert(a@ =~= data@.subrange(off as int, off + 6));
    a
}

/// The bytes of `data` from `off` on, as a sixteen-byte array.
pub fn array16_at(data: &[u8], off: usize) -> (a: [u8; 16])
    requires
        off + 16 <= data@.len(),
    ensures
        a@ == data@.subrange(off as int, off + 16),
{
    let a: [u8; 16] = [
        data[off],
        data[off + 1],
        data[off + 2],
        data[off + 3],
        data[off + 4],
        data[off + 5],
        data[off + 6],
        data[off + 7],
        data[off + 8],
        data[off + 9],
        data[off + 10],
        data[off + 11],
        data[off + 12],
        data[off + 13],
        data[off + 14],
        data[off + 15],
    ];
    assert(a@ =~= data@.subrange(off as int, off + 16));
    a
}

} // verus!
